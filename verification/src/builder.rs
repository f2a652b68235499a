//! How a snapshot is put together from what a remote element answered, or
//! from what its peer pushed about it.
//!
//! Asking the element is not done here. Whoever does it hands over the
//! answers, each as it came over the bus: an element is named by the pair of
//! its peer and its path, and a path is text.

use crate::errors::{AccessiblePrimitiveConversionError, OdiliaError};
use crate::identity::{path_identity, AccessibleId, Identity};
use crate::item::{CacheItem, CacheItemView};
use vstd::prelude::*;

verus! {

/// What one element answered to the queries that a snapshot is made of.
pub struct RemoteAccessible {
    /// The path of the element itself.
    pub path: String,
    /// The peer that answered.
    pub sender: String,
    /// The application that the element belongs to: peer and path.
    pub app: (String, String),
    /// The element's parent: peer and path.
    pub parent: (String, String),
    /// The element's position among its siblings.
    pub index: i32,
    /// The number of children that the element reports.
    pub child_count: i32,
    /// The interfaces that the element implements.
    pub ifaces: atspi::InterfaceSet,
    /// The element's role.
    pub role: atspi::accessible::Role,
    /// The states that the element is in.
    pub states: atspi::StateSet,
    /// The element's name.
    pub text: String,
    /// The element's children, in the order in which they are presented:
    /// peer and path of each.
    pub children: Vec<(String, String)>,
}

/// One element as its peer describes it when it pushes a batch: where the
/// element stands in the tree and what it is, but neither its text nor the
/// order of its children.
pub struct ExternalCacheItem {
    /// The element itself: peer and path.
    pub object: (String, String),
    /// The application that the element belongs to: peer and path.
    pub app: (String, String),
    /// The element's parent: peer and path.
    pub parent: (String, String),
    /// The element's position among its siblings.
    pub index: i32,
    /// The number of children that the element reports.
    pub children: i32,
    /// The interfaces that the element implements.
    pub ifaces: atspi::InterfaceSet,
    /// The element's short name.
    pub short_name: String,
    /// The element's role.
    pub role: atspi::accessible::Role,
    /// The element's name.
    pub name: String,
    /// The states that the element is in.
    pub states: atspi::StateSet,
}

/// The parts of a snapshot, with each identity as it was read from its path.
pub struct SnapshotParts {
    /// The element's identity.
    pub id: Identity,
    /// The peer that owns the element.
    pub sender: String,
    /// The application that the element belongs to.
    pub app: Identity,
    /// The element's parent.
    pub parent: Identity,
    /// The element's position among its siblings.
    pub index: i32,
    /// The number of children that the element reports.
    pub child_count: i32,
    /// The element's children, in the order in which they are presented.
    pub children: Vec<Identity>,
    /// The interfaces that the element implements.
    pub ifaces: atspi::InterfaceSet,
    /// The element's role.
    pub role: atspi::accessible::Role,
    /// The states that the element is in.
    pub states: atspi::StateSet,
    /// The element's text.
    pub text: String,
}

/// What the parts of a snapshot hold, as mathematical values.
pub struct SnapshotPartsView {
    pub id: Identity,
    pub sender: Seq<char>,
    pub app: Identity,
    pub parent: Identity,
    pub index: i32,
    pub child_count: i32,
    pub children: Seq<Identity>,
    pub ifaces: atspi::InterfaceSet,
    pub role: atspi::accessible::Role,
    pub states: atspi::StateSet,
    pub text: Seq<char>,
}

impl View for SnapshotParts {
    type V = SnapshotPartsView;

    open spec fn view(&self) -> SnapshotPartsView {
        SnapshotPartsView {
            id: self.id,
            sender: self.sender@,
            app: self.app,
            parent: self.parent,
            index: self.index,
            child_count: self.child_count,
            children: self.children@,
            ifaces: self.ifaces,
            role: self.role,
            states: self.states,
            text: self.text@,
        }
    }
}

/// The identities of a list, if every one of them was read; else the reason
/// for which the first one that was not read was not.
pub open spec fn all_read(ids: Seq<Identity>) -> Result<
    Seq<AccessibleId>,
    AccessiblePrimitiveConversionError,
> {
    if forall|i: int| 0 <= i < ids.len() ==> #[trigger] ids[i] is Ok {
        Ok(Seq::new(ids.len(), |i: int| ids[i]->Ok_0))
    } else {
        let first = choose|i: int|
            0 <= i < ids.len() && #[trigger] ids[i] is Err && forall|j: int|
                0 <= j < i ==> #[trigger] ids[j] is Ok;
        Err(ids[first]->Err_0)
    }
}

impl SnapshotPartsView {
    /// The snapshot that the parts make, if every identity was read; else the
    /// reason for which the first one that was not read was not, in the
    /// order: the element itself, its children from the first to the last,
    /// its application, its parent.
    pub open spec fn snapshot(self) -> Result<CacheItemView, AccessiblePrimitiveConversionError> {
        match (self.id, all_read(self.children), self.app, self.parent) {
            (Err(reason), _, _, _) => Err(reason),
            (Ok(_), Err(reason), _, _) => Err(reason),
            (Ok(_), Ok(_), Err(reason), _) => Err(reason),
            (Ok(_), Ok(_), Ok(_), Err(reason)) => Err(reason),
            (Ok(id), Ok(children), Ok(app), Ok(parent)) => Ok(
                CacheItemView {
                    id,
                    sender: self.sender,
                    app,
                    parent,
                    index: self.index,
                    child_count: self.child_count,
                    children,
                    ifaces: self.ifaces,
                    role: self.role,
                    states: self.states,
                    text: self.text,
                },
            ),
        }
    }
}

impl SnapshotParts {
    /// Makes the snapshot, all of it or nothing: one identity that was not
    /// read fails the whole, as a conversion error with its reason.
    pub fn into_cache_item(self) -> (built: Result<CacheItem, OdiliaError>)
        ensures
            built_as(built, self@.snapshot()),
    {
        let id = match self.id {
            Ok(id) => id,
            Err(reason) => {
                return Err(OdiliaError::PrimitiveConversionError(reason));
            },
        };
        let children = match read_all(&self.children) {
            Ok(children) => children,
            Err(reason) => {
                return Err(OdiliaError::PrimitiveConversionError(reason));
            },
        };
        let app = match self.app {
            Ok(app) => app,
            Err(reason) => {
                return Err(OdiliaError::PrimitiveConversionError(reason));
            },
        };
        let parent = match self.parent {
            Ok(parent) => parent,
            Err(reason) => {
                return Err(OdiliaError::PrimitiveConversionError(reason));
            },
        };
        Ok(
            CacheItem {
                id,
                sender: self.sender,
                app,
                parent,
                index: self.index,
                child_count: self.child_count,
                children,
                ifaces: self.ifaces,
                role: self.role,
                states: self.states,
                text: self.text,
            },
        )
    }
}

/// Whether `built` is what `expected` asks for: the snapshot, or a conversion
/// error with the reason.
pub open spec fn built_as(
    built: Result<CacheItem, OdiliaError>,
    expected: Result<CacheItemView, AccessiblePrimitiveConversionError>,
) -> bool {
    match expected {
        Ok(snapshot) => built matches Ok(item) && item@ == snapshot,
        Err(reason) => built matches Err(OdiliaError::PrimitiveConversionError(e)) && e == reason,
    }
}

/// The identities of `ids`, in their order, or the reason for which the first
/// one that was not read was not.
fn read_all(ids: &Vec<Identity>) -> (read: Result<
    Vec<AccessibleId>,
    AccessiblePrimitiveConversionError,
>)
    ensures
        match all_read(ids@) {
            Ok(expected) => read matches Ok(found) && found@ == expected,
            Err(reason) => read == Err::<Vec<AccessibleId>, _>(reason),
        },
{
    let mut read: Vec<AccessibleId> = Vec::new();
    let mut i: usize = 0;
    while i < ids.len()
        invariant
            i <= ids.len(),
            read.len() == i,
            forall|j: int| 0 <= j < i ==> #[trigger] ids[j] == Ok::<_, AccessiblePrimitiveConversionError>(read[j]),
        decreases ids.len() - i,
    {
        match ids[i] {
            Ok(id) => {
                read.push(id);
            },
            Err(reason) => {
                return Err(reason);
            },
        }
        i += 1;
    }
    Ok(read)
}

/// What the paths of a list of elements, each named by peer and path, are
/// read as.
pub open spec fn identities_of(elements: Seq<(String, String)>) -> Seq<Identity> {
    elements.map_values(|element: (String, String)| path_identity(element.1@))
}

/// Reads the identity of each element of `elements` from its path.
fn identities(elements: &Vec<(String, String)>) -> (ids: Vec<Identity>)
    ensures
        ids@ == identities_of(elements@),
{
    let mut ids: Vec<Identity> = Vec::new();
    let mut i: usize = 0;
    while i < elements.len()
        invariant
            i <= elements.len(),
            ids.len() == i,
            forall|j: int| 0 <= j < i ==> #[trigger] ids[j] == path_identity(elements[j].1@),
        decreases elements.len() - i,
    {
        ids.push(AccessibleId::try_from(elements[i].1.as_str()));
        i += 1;
    }
    ids
}

impl RemoteAccessible {
    /// The parts of the snapshot of this element: each path among the answers
    /// as it is read, the rest as it stands.
    pub open spec fn parts(self) -> SnapshotPartsView {
        SnapshotPartsView {
            id: path_identity(self.path@),
            sender: self.sender@,
            app: path_identity(self.app.1@),
            parent: path_identity(self.parent.1@),
            index: self.index,
            child_count: self.child_count,
            children: identities_of(self.children@),
            ifaces: self.ifaces,
            role: self.role,
            states: self.states,
            text: self.text@,
        }
    }
}

/// The snapshot of an element, from all that it answered. Either every path
/// among the answers names an identity and the snapshot is complete, or there
/// is no snapshot at all.
pub fn accessible_to_cache_item(accessible: RemoteAccessible) -> (built: Result<
    CacheItem,
    OdiliaError,
>)
    ensures
        built_as(built, accessible.parts().snapshot()),
{
    let parts = SnapshotParts {
        id: AccessibleId::try_from(accessible.path.as_str()),
        sender: accessible.sender,
        app: AccessibleId::try_from(accessible.app.1.as_str()),
        parent: AccessibleId::try_from(accessible.parent.1.as_str()),
        index: accessible.index,
        child_count: accessible.child_count,
        children: identities(&accessible.children),
        ifaces: accessible.ifaces,
        role: accessible.role,
        states: accessible.states,
        text: accessible.text,
    };
    parts.into_cache_item()
}

impl ExternalCacheItem {
    /// The parts of the snapshot of this element, with `text` and `children`
    /// for what its peer did not push: each path as it is read, the rest as
    /// it stands.
    pub open spec fn parts(self, text: Seq<char>, children: Seq<(String, String)>) -> SnapshotPartsView {
        SnapshotPartsView {
            id: path_identity(self.object.1@),
            sender: self.object.0@,
            app: path_identity(self.app.1@),
            parent: path_identity(self.parent.1@),
            index: self.index,
            child_count: self.children,
            children: identities_of(children),
            ifaces: self.ifaces,
            role: self.role,
            states: self.states,
            text,
        }
    }
}

/// The snapshot of an element that its peer pushed: where the element stands
/// and what it is are taken from the peer's word, its text and its children
/// from what the element itself answered just now.
pub fn atspi_cache_item_to_odilia_cache_item(
    cache_item: ExternalCacheItem,
    text: String,
    children: Vec<(String, String)>,
) -> (built: Result<CacheItem, OdiliaError>)
    ensures
        built_as(built, cache_item.parts(text@, children@).snapshot()),
{
    let parts = SnapshotParts {
        id: AccessibleId::try_from(cache_item.object.1.as_str()),
        sender: cache_item.object.0,
        app: AccessibleId::try_from(cache_item.app.1.as_str()),
        parent: AccessibleId::try_from(cache_item.parent.1.as_str()),
        index: cache_item.index,
        child_count: cache_item.children,
        children: identities(&children),
        ifaces: cache_item.ifaces,
        role: cache_item.role,
        states: cache_item.states,
        text,
    };
    parts.into_cache_item()
}

} // verus!

//! Node snapshots: what the store remembers of one element.

use crate::identity::AccessibleId;
use vstd::prelude::*;

verus! {

/// The set of interfaces that an element implements, carried through unread.
#[verifier::external_type_specification]
#[verifier::external_body]
pub struct ExInterfaceSet(atspi::InterfaceSet);

/// The role of an element, carried through unread.
#[verifier::external_type_specification]
#[verifier::external_body]
pub struct ExRole(atspi::accessible::Role);

/// The set of states that an element is in, carried through unread.
#[verifier::external_type_specification]
#[verifier::external_body]
pub struct ExStateSet(atspi::StateSet);

/// A snapshot of one element of the accessibility tree. Anything which is not
/// stored here has to be asked of the element itself.
#[derive(Debug, PartialEq, Eq, Hash)]
pub struct CacheItem {
    /// The element's identity: the last segment of its path.
    pub id: AccessibleId,
    /// The peer that owns the element.
    pub sender: String,
    /// The application that the element belongs to.
    pub app: AccessibleId,
    /// The element's parent, which need not be in the store.
    pub parent: AccessibleId,
    /// The element's position among its siblings.
    pub index: i32,
    /// The number of children that the element reports.
    pub child_count: i32,
    /// The element's children, in the order in which they are presented.
    pub children: Vec<AccessibleId>,
    /// The interfaces that the element implements.
    pub ifaces: atspi::InterfaceSet,
    /// The element's role.
    pub role: atspi::accessible::Role,
    /// The states that the element is in.
    pub states: atspi::StateSet,
    /// The element's text.
    pub text: String,
}

/// What a snapshot holds, as mathematical values.
pub struct CacheItemView {
    pub id: AccessibleId,
    pub sender: Seq<char>,
    pub app: AccessibleId,
    pub parent: AccessibleId,
    pub index: i32,
    pub child_count: i32,
    pub children: Seq<AccessibleId>,
    pub ifaces: atspi::InterfaceSet,
    pub role: atspi::accessible::Role,
    pub states: atspi::StateSet,
    pub text: Seq<char>,
}

impl View for CacheItem {
    type V = CacheItemView;

    open spec fn view(&self) -> CacheItemView {
        CacheItemView {
            id: self.id,
            sender: self.sender@,
            app: self.app,
            parent: self.parent,
            index: self.index,
            child_count: self.child_count,
            children: self.children@,
            ifaces: self.ifaces,
            role: self.role,
            states: self.states,
            text: self.text@,
        }
    }
}

/// An element as the bus names it: the peer that owns it, and its identity
/// within that peer.
pub type ObjectPair = (String, AccessibleId);

impl CacheItem {
    /// The pair that names the element of this snapshot.
    pub fn into_object_pair(self) -> (pair: ObjectPair)
        ensures
            pair == (self.sender, self.id),
    {
        (self.sender, self.id)
    }
}

/// What an optional snapshot holds.
pub open spec fn view_of(item: Option<CacheItem>) -> Option<CacheItemView> {
    match item {
        Some(item) => Some(item@),
        None => None,
    }
}

/// What each snapshot of a sequence holds, in the same order.
pub open spec fn views_of(items: Seq<CacheItem>) -> Seq<CacheItemView> {
    items.map_values(|item: CacheItem| item@)
}

/// A copy of a snapshot, field by field.
pub fn copy_into_cache_item(cache_item_with_handle: &CacheItem) -> (copy: CacheItem)
    ensures
        copy@ == cache_item_with_handle@,
{
    CacheItem {
        id: cache_item_with_handle.id,
        sender: cache_item_with_handle.sender.clone(),
        parent: cache_item_with_handle.parent,
        states: cache_item_with_handle.states,
        role: cache_item_with_handle.role,
        app: cache_item_with_handle.app,
        child_count: cache_item_with_handle.child_count,
        children: cache_item_with_handle.children.clone(),
        ifaces: cache_item_with_handle.ifaces,
        index: cache_item_with_handle.index,
        text: cache_item_with_handle.text.clone(),
    }
}

impl Clone for CacheItem {
    fn clone(&self) -> (copy: Self)
        ensures
            copy@ == self@,
    {
        copy_into_cache_item(self)
    }
}

} // verus!

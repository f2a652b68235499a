//! Objects as the screen reader itself sees them: a role, a set of states,
//! names, and a place in the tree.

use std::rc::Rc;
use vstd::prelude::*;
use vstd::std_specs::cmp::PartialEqSpecImpl;

verus! {

/// Object roles.
///
/// These are only for use inside the screen reader's own process.
#[derive(Clone, Copy, PartialEq, Eq, Hash, Debug, Structural)]
pub enum OdiliaRole {
    /// Unknown object type.
    Unknown,
    /// A button of any kind.
    Button,
    /// Any text box: single-line, multi-line, read-only or editable.
    TextBox,
    /// A list of selectable items.
    ListBox,
    /// An item inside a list box.
    ListItem,
    /// Any tree view.
    TreeView,
    /// An item inside a tree view, expandable or leaf.
    TreeItem,
    /// Any check box.
    CheckBox,
    /// A switch button.
    SwitchButton,
    /// A radio button, in a radio group or not.
    RadioButton,
    /// Any link.
    Link,
    /// A heading without a level.
    Heading,
    /// A heading of level 1.
    Heading1,
    /// A heading of level 2.
    Heading2,
    /// A heading of level 3.
    Heading3,
    /// A heading of level 4.
    Heading4,
    /// A heading of level 5.
    Heading5,
    /// A heading of level 6.
    Heading6,
    /// Any label of the user interface.
    Label,
}

/// Object states.
#[derive(Clone, Copy, PartialEq, Eq, Hash, Debug, Structural)]
pub enum OdiliaState {
    /// The object is disabled.
    Disabled,
    /// A text box has more than one line.
    Multiline,
    /// The object cannot be edited by the user as it is now.
    ReadOnly,
    /// The object can be expanded.
    Expandable,
    /// An expandable object is expanded.
    Expanded,
    Selected,
    Checked,
    Invalid,
    Required,
    Clickable,
}

/// A set of states.
#[derive(Debug)]
pub struct OdiliaStateSet {
    states: Vec<OdiliaState>,
}

impl View for OdiliaStateSet {
    type V = Set<OdiliaState>;

    closed spec fn view(&self) -> Set<OdiliaState> {
        self.states@.to_set()
    }
}

impl OdiliaStateSet {
    /// The set that holds no state.
    pub fn new() -> (set: Self)
        ensures
            set@ == Set::<OdiliaState>::empty(),
    {
        OdiliaStateSet { states: Vec::new() }
    }

    /// Whether `state` is in the set.
    pub fn contains(&self, state: &OdiliaState) -> (held: bool)
        ensures
            held == self@.contains(*state),
    {
        let mut i: usize = 0;
        while i < self.states.len()
            invariant
                i <= self.states.len(),
                forall|j: int| 0 <= j < i ==> self.states[j] != *state,
            decreases self.states.len() - i,
        {
            if self.states[i] == *state {
                return true;
            }
            i += 1;
        }
        false
    }

    /// Puts `state` into the set, and says whether it was not yet there.
    pub fn insert(&mut self, state: OdiliaState) -> (fresh: bool)
        ensures
            final(self)@ == old(self)@.insert(state),
            fresh == !old(self)@.contains(state),
    {
        if self.contains(&state) {
            return false;
        }
        self.states.push(state);
        proof {
            old(self).states@.lemma_push_to_set_commute(state);
        }
        true
    }

    /// Whether every state of this set is in `other`.
    pub fn is_subset(&self, other: &OdiliaStateSet) -> (within: bool)
        ensures
            within == self@.subset_of(other@),
    {
        let mut i: usize = 0;
        while i < self.states.len()
            invariant
                i <= self.states.len(),
                forall|j: int| 0 <= j < i ==> other@.contains(#[trigger] self.states[j]),
            decreases self.states.len() - i,
        {
            if !other.contains(&self.states[i]) {
                return false;
            }
            i += 1;
        }
        true
    }
}

impl Clone for OdiliaStateSet {
    fn clone(&self) -> (copy: Self)
        ensures
            copy@ == self@,
    {
        OdiliaStateSet { states: self.states.clone() }
    }
}

impl PartialEq for OdiliaStateSet {
    /// Two sets are equal when they hold the same states.
    fn eq(&self, other: &Self) -> (same: bool) {
        let same = self.is_subset(other) && other.is_subset(self);
        assert(same == (self@ =~= other@));
        same
    }
}

impl PartialEqSpecImpl for OdiliaStateSet {
    open spec fn obeys_eq_spec() -> bool {
        true
    }

    open spec fn eq_spec(&self, other: &Self) -> bool {
        self@ == other@
    }
}

impl Eq for OdiliaStateSet {

}

/// The name of an object.
pub type OdiliaObjectName = String;

/// The description of an object.
pub type OdiliaObjectDescription = String;

/// What tells one object from all others.
pub type OdiliaObjectId = String;

/// Another handle on the object that `object` points to. This is `Rc::clone`
/// of std, which copies the pointer and not what it points to.
#[verifier::external_body]
pub(crate) fn share(object: &Rc<OdiliaObject>) -> (other: Rc<OdiliaObject>)
    ensures
        other == *object,
{
    Rc::clone(object)
}

/// One object of the user interface.
#[derive(PartialEq, Eq, Debug)]
pub struct OdiliaObject {
    role: OdiliaRole,
    states: OdiliaStateSet,
    object_id: OdiliaObjectId,
    name: OdiliaObjectName,
    description: Option<OdiliaObjectDescription>,
    parent: Option<Rc<OdiliaObject>>,
    index: u32,
    children: Vec<Rc<OdiliaObject>>,
}

/// What an object holds, as mathematical values.
pub struct OdiliaObjectView {
    pub role: OdiliaRole,
    pub states: Set<OdiliaState>,
    pub object_id: Seq<char>,
    pub name: Seq<char>,
    pub description: Option<Seq<char>>,
    pub parent: Option<Rc<OdiliaObject>>,
    pub index: u32,
    pub children: Seq<Rc<OdiliaObject>>,
}

impl View for OdiliaObject {
    type V = OdiliaObjectView;

    closed spec fn view(&self) -> OdiliaObjectView {
        OdiliaObjectView {
            role: self.role,
            states: self.states@,
            object_id: self.object_id@,
            name: self.name@,
            description: match self.description {
                Some(text) => Some(text@),
                None => None,
            },
            parent: self.parent,
            index: self.index,
            children: self.children@,
        }
    }
}

impl OdiliaObject {
    /// An object with the given role, states, names and place in the tree. A
    /// root has no parent.
    pub fn new(
        role: OdiliaRole,
        states: OdiliaStateSet,
        object_id: OdiliaObjectId,
        name: OdiliaObjectName,
        description: Option<OdiliaObjectDescription>,
        parent: Option<Rc<OdiliaObject>>,
        index: u32,
        children: Vec<Rc<OdiliaObject>>,
    ) -> (object: Self)
        ensures
            object@ == (OdiliaObjectView {
                role,
                states: states@,
                object_id: object_id@,
                name: name@,
                description: match description {
                    Some(text) => Some(text@),
                    None => None,
                },
                parent,
                index,
                children: children@,
            }),
    {
        OdiliaObject { role, states, object_id, name, description, parent, index, children }
    }

    /// The object's role.
    pub fn role(&self) -> (role: &OdiliaRole)
        ensures
            *role == self@.role,
    {
        &self.role
    }

    /// The states that the object is in.
    pub fn states(&self) -> (states: &OdiliaStateSet)
        ensures
            states@ == self@.states,
    {
        &self.states
    }

    /// What tells the object from all others.
    pub fn object_id(&self) -> (object_id: &str)
        ensures
            object_id@ == self@.object_id,
    {
        self.object_id.as_str()
    }

    /// The object's name.
    pub fn name(&self) -> (name: &str)
        ensures
            name@ == self@.name,
    {
        self.name.as_str()
    }

    /// The object's description, if it has one.
    pub fn description(&self) -> (description: Option<&String>)
        ensures
            match description {
                Some(text) => self@.description == Some(text@),
                None => self@.description is None,
            },
    {
        self.description.as_ref()
    }

    /// The object's parent, if it is not a root.
    pub fn parent(&self) -> (parent: Option<&Rc<OdiliaObject>>)
        ensures
            match parent {
                Some(object) => self@.parent == Some(*object),
                None => self@.parent is None,
            },
    {
        self.parent.as_ref()
    }

    /// The object's position among its siblings.
    pub fn index(&self) -> (index: u32)
        ensures
            index == self@.index,
    {
        self.index
    }

    /// The object's children, in their order.
    pub fn children(&self) -> (children: &Vec<Rc<OdiliaObject>>)
        ensures
            children@ == self@.children,
    {
        &self.children
    }
}

impl Clone for OdiliaObject {
    /// A copy of the object that shares its parent and its children with it.
    fn clone(&self) -> (copy: Self)
        ensures
            copy@ == self@,
    {
        let mut children: Vec<Rc<OdiliaObject>> = Vec::new();
        let mut i: usize = 0;
        while i < self.children.len()
            invariant
                i <= self.children.len(),
                children.len() == i,
                forall|j: int| 0 <= j < i ==> children[j] == self.children[j],
            decreases self.children.len() - i,
        {
            children.push(share(&self.children[i]));
            i += 1;
        }
        assert(children@ =~= self.children@);
        OdiliaObject {
            role: self.role,
            states: self.states.clone(),
            object_id: self.object_id.clone(),
            name: self.name.clone(),
            description: match &self.description {
                Some(text) => Some(text.clone()),
                None => None,
            },
            parent: match &self.parent {
                Some(object) => Some(share(object)),
                None => None,
            },
            index: self.index,
            children,
        }
    }
}

} // verus!

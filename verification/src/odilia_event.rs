//! What happened to an object, as the screen reader itself sees it.

use crate::odilia_object::{share, OdiliaObject, OdiliaObjectView, OdiliaState, OdiliaStateSet};
use std::rc::Rc;
use vstd::prelude::*;

verus! {

/// Something that happened to an object.
pub struct OdiliaEvent {
    event_type: OdiliaEventType,
    object: Rc<OdiliaObject>,
}

/// What an event holds, as mathematical values.
pub struct OdiliaEventView {
    pub event_type: OdiliaEventType,
    pub object: OdiliaObjectView,
}

impl View for OdiliaEvent {
    type V = OdiliaEventView;

    closed spec fn view(&self) -> OdiliaEventView {
        OdiliaEventView { event_type: self.event_type, object: (*self.object)@ }
    }
}

impl OdiliaEvent {
    /// An event of the given kind on a copy of `object`.
    pub fn new(event_type: OdiliaEventType, object: &OdiliaObject) -> (event: Self)
        ensures
            event@ == (OdiliaEventView { event_type, object: object@ }),
    {
        let saved_object: OdiliaObject = object.clone();
        Self { event_type, object: Rc::new(saved_object) }
    }

    /// What kind of event this is, with what it says.
    pub fn event_type(&self) -> (event_type: &OdiliaEventType)
        ensures
            *event_type == self@.event_type,
    {
        &self.event_type
    }

    /// The object that the event is about.
    pub fn object(&self) -> (object: &OdiliaObject)
        ensures
            object@ == self@.object,
    {
        &*self.object
    }
}

impl Clone for OdiliaEvent {
    /// A copy of the event that shares the object with it.
    fn clone(&self) -> (copy: Self)
        ensures
            copy@.event_type.same_as(self@.event_type),
            copy@.object == self@.object,
    {
        Self { event_type: self.event_type.clone(), object: share(&self.object) }
    }
}

/// The kinds of events, each with what it says.
#[derive(PartialEq, Eq)]
pub enum OdiliaEventType {
    StateChanged(StateChangedData),
    CaretChanged(CaretChangedData),
    FocusChanged(FocusChangedData),
}

impl OdiliaEventType {
    /// Whether two events are of one kind and say the same.
    pub open spec fn same_as(self, other: Self) -> bool {
        match (self, other) {
            (OdiliaEventType::StateChanged(a), OdiliaEventType::StateChanged(b)) => a@ == b@,
            (OdiliaEventType::CaretChanged(a), OdiliaEventType::CaretChanged(b)) => a == b,
            (OdiliaEventType::FocusChanged(a), OdiliaEventType::FocusChanged(b)) => a == b,
            _ => false,
        }
    }
}

impl Clone for OdiliaEventType {
    fn clone(&self) -> (copy: Self)
        ensures
            copy.same_as(*self),
    {
        match self {
            OdiliaEventType::StateChanged(data) => OdiliaEventType::StateChanged(data.clone()),
            OdiliaEventType::CaretChanged(data) => OdiliaEventType::CaretChanged(*data),
            OdiliaEventType::FocusChanged(data) => OdiliaEventType::FocusChanged(data.clone()),
        }
    }
}

/// The states of an object before and after they changed.
#[derive(PartialEq, Eq)]
pub struct StateChangedData {
    previous_states: OdiliaStateSet,
    new_states: OdiliaStateSet,
}

/// What a change of states holds, as mathematical values.
pub struct StateChangedDataView {
    pub previous_states: Set<OdiliaState>,
    pub new_states: Set<OdiliaState>,
}

impl View for StateChangedData {
    type V = StateChangedDataView;

    closed spec fn view(&self) -> StateChangedDataView {
        StateChangedDataView {
            previous_states: self.previous_states@,
            new_states: self.new_states@,
        }
    }
}

/// The set of the states in `states`.
fn collect(states: &[OdiliaState]) -> (set: OdiliaStateSet)
    ensures
        set@ == states@.to_set(),
{
    let mut set = OdiliaStateSet::new();
    let mut i: usize = 0;
    while i < states.len()
        invariant
            i <= states.len(),
            set@ == states@.take(i as int).to_set(),
        decreases states.len() - i,
    {
        set.insert(states[i]);
        proof {
            let before = states@.take(i as int);
            assert(states@.take(i + 1) =~= before.push(states[i as int]));
            before.lemma_push_to_set_commute(states[i as int]);
        }
        i += 1;
    }
    proof {
        assert(states@.take(states.len() as int) =~= states@);
    }
    set
}

impl StateChangedData {
    /// A change from the states in `previous_states` to those in
    /// `new_states`. A state that is listed more than once counts once.
    pub fn new(previous_states: &[OdiliaState], new_states: &[OdiliaState]) -> (data: Self)
        ensures
            data@ == (StateChangedDataView {
                previous_states: previous_states@.to_set(),
                new_states: new_states@.to_set(),
            }),
    {
        Self { previous_states: collect(previous_states), new_states: collect(new_states) }
    }

    /// The states before the change.
    pub fn previous_state(&self) -> (states: &OdiliaStateSet)
        ensures
            states@ == self@.previous_states,
    {
        &self.previous_states
    }

    /// The states after the change.
    pub fn new_states(&self) -> (states: &OdiliaStateSet)
        ensures
            states@ == self@.new_states,
    {
        &self.new_states
    }
}

impl Clone for StateChangedData {
    fn clone(&self) -> (copy: Self)
        ensures
            copy@ == self@,
    {
        Self {
            previous_states: self.previous_states.clone(),
            new_states: self.new_states.clone(),
        }
    }
}

/// The object that had the focus before it moved.
#[derive(PartialEq, Eq)]
pub struct FocusChangedData {
    previous_object: Rc<OdiliaObject>,
}

impl View for FocusChangedData {
    type V = OdiliaObjectView;

    /// What the object that had the focus holds.
    closed spec fn view(&self) -> OdiliaObjectView {
        (*self.previous_object)@
    }
}

impl FocusChangedData {
    /// A move of the focus away from a copy of `previous_object`.
    pub fn new(previous_object: &OdiliaObject) -> (data: Self)
        ensures
            data@ == previous_object@,
    {
        Self { previous_object: Rc::new(previous_object.clone()) }
    }

    /// The object that had the focus.
    pub fn previous_object(&self) -> (object: &OdiliaObject)
        ensures
            object@ == self@,
    {
        &*self.previous_object
    }
}

impl Clone for FocusChangedData {
    /// A copy that shares the object with this one.
    fn clone(&self) -> (copy: Self)
        ensures
            copy == *self,
    {
        Self { previous_object: share(&self.previous_object) }
    }
}

/// A position in a text, counted in characters.
pub type CaretPosition = u32;

/// Where the caret was and where it is.
#[derive(Clone, Copy, Hash, PartialEq, Eq, Structural)]
pub struct CaretChangedData {
    previous_position: CaretPosition,
    current_position: CaretPosition,
}

impl View for CaretChangedData {
    type V = (CaretPosition, CaretPosition);

    /// The previous position, then the current one.
    closed spec fn view(&self) -> (CaretPosition, CaretPosition) {
        (self.previous_position, self.current_position)
    }
}

impl CaretChangedData {
    /// A move of the caret from `previous_position` to `current_position`.
    pub fn new(previous_position: CaretPosition, current_position: CaretPosition) -> (data: Self)
        ensures
            data@ == (previous_position, current_position),
    {
        Self { previous_position, current_position }
    }

    /// Where the caret was.
    pub fn previous_position(&self) -> (position: u32)
        ensures
            position == self@.0,
    {
        self.previous_position
    }

    /// Where the caret is.
    pub fn current_position(&self) -> (position: u32)
        ensures
            position == self@.1,
    {
        self.current_position
    }
}

/// A stretch of text, from its start to its end.
pub struct TextSelection(CaretPosition, CaretPosition);

impl View for TextSelection {
    type V = (CaretPosition, CaretPosition);

    /// The start, then the end.
    closed spec fn view(&self) -> (CaretPosition, CaretPosition) {
        (self.0, self.1)
    }
}

impl TextSelection {
    /// The selection from `start` to `end`.
    pub fn new(start: CaretPosition, end: CaretPosition) -> (selection: Self)
        ensures
            selection@ == (start, end),
    {
        Self(start, end)
    }

    /// Where the selection starts.
    pub fn start(&self) -> (position: CaretPosition)
        ensures
            position == self@.0,
    {
        self.0
    }

    /// Where the selection ends.
    pub fn end(&self) -> (position: CaretPosition)
        ensures
            position == self@.1,
    {
        self.1
    }
}

/// What was selected and what is selected.
pub struct TextSelectionData {
    previous: TextSelection,
    current: TextSelection,
}

impl View for TextSelectionData {
    type V = (TextSelection, TextSelection);

    /// The previous selection, then the current one.
    closed spec fn view(&self) -> (TextSelection, TextSelection) {
        (self.previous, self.current)
    }
}

impl TextSelectionData {
    /// A change of the selection from `previous` to `current`.
    pub fn new(previous: TextSelection, current: TextSelection) -> (data: Self)
        ensures
            data@ == (previous, current),
    {
        Self { previous, current }
    }

    /// What is selected.
    pub fn current(&self) -> (selection: &TextSelection)
        ensures
            *selection == self@.1,
    {
        &self.current
    }

    /// What was selected.
    pub fn previous(&self) -> (selection: &TextSelection)
        ensures
            *selection == self@.0,
    {
        &self.previous
    }
}

} // verus!

use odilia_cache::odilia_event::{
    CaretChangedData, FocusChangedData, OdiliaEvent, OdiliaEventType, StateChangedData,
    TextSelection, TextSelectionData,
};
use odilia_cache::odilia_object::{OdiliaObject, OdiliaRole, OdiliaState, OdiliaStateSet};
use odilia_cache::views::CaretPositionView;
use odilia_cache::AccessibleId;
use std::rc::Rc;

fn states(list: &[OdiliaState]) -> OdiliaStateSet {
    let mut set = OdiliaStateSet::new();
    for state in list {
        set.insert(*state);
    }
    set
}

fn root() -> OdiliaObject {
    OdiliaObject::new(
        OdiliaRole::TreeView,
        states(&[OdiliaState::Expandable, OdiliaState::Expanded]),
        "tree".to_string(),
        "Files".to_string(),
        None,
        None,
        0,
        vec![],
    )
}

fn leaf() -> OdiliaObject {
    OdiliaObject::new(
        OdiliaRole::TreeItem,
        states(&[OdiliaState::Selected]),
        "tree/1".to_string(),
        "notes.txt".to_string(),
        Some("a text file".to_string()),
        Some(Rc::new(root())),
        1,
        vec![Rc::new(root())],
    )
}

#[test]
fn state_set_holds_each_state_once() {
    let mut set = OdiliaStateSet::new();
    assert!(!set.contains(&OdiliaState::Checked));
    assert!(set.insert(OdiliaState::Checked));
    assert!(!set.insert(OdiliaState::Checked));
    assert!(set.insert(OdiliaState::Required));
    assert!(set.contains(&OdiliaState::Checked));
    assert!(set.contains(&OdiliaState::Required));
    assert!(!set.contains(&OdiliaState::Invalid));
}

#[test]
fn state_sets_are_equal_whatever_the_order() {
    let a = states(&[OdiliaState::Checked, OdiliaState::Required]);
    let b = states(&[OdiliaState::Required, OdiliaState::Checked, OdiliaState::Required]);
    let c = states(&[OdiliaState::Required]);
    assert!(a == b);
    assert!(a != c);
    assert!(c != a);
    assert!(c.is_subset(&a));
    assert!(!a.is_subset(&c));
    assert!(OdiliaStateSet::new().is_subset(&c));
    assert!(a.clone() == a);
}

#[test]
fn object_getters_give_what_was_put_in() {
    let object = leaf();
    assert_eq!(object.role(), &OdiliaRole::TreeItem);
    assert!(object.states() == &states(&[OdiliaState::Selected]));
    assert_eq!(object.object_id(), "tree/1");
    assert_eq!(object.name(), "notes.txt");
    assert_eq!(object.description(), Some(&"a text file".to_string()));
    assert_eq!(object.parent().unwrap().name(), "Files");
    assert_eq!(object.index(), 1);
    assert_eq!(object.children().len(), 1);
    let top = root();
    assert_eq!(top.description(), None);
    assert!(top.parent().is_none());
    assert_eq!(top.children().len(), 0);
}

#[test]
fn object_copy_is_equal() {
    let object = leaf();
    let copy = object.clone();
    assert_eq!(copy, object);
    assert!(Rc::ptr_eq(copy.parent().unwrap(), object.parent().unwrap()));
    assert!(Rc::ptr_eq(&copy.children()[0], &object.children()[0]));
}

#[test]
fn state_change_keeps_both_sets() {
    let data = StateChangedData::new(
        &[OdiliaState::Checked, OdiliaState::Checked, OdiliaState::ReadOnly],
        &[OdiliaState::Invalid],
    );
    assert!(data.previous_state() == &states(&[OdiliaState::ReadOnly, OdiliaState::Checked]));
    assert!(data.new_states() == &states(&[OdiliaState::Invalid]));
    let empty = StateChangedData::new(&[], &[]);
    assert!(empty.previous_state() == &OdiliaStateSet::new());
    assert!(empty.new_states() == &OdiliaStateSet::new());
    assert!(data.clone() == data);
    assert!(data != empty);
}

#[test]
fn caret_change_keeps_both_positions() {
    let data = CaretChangedData::new(3, 8);
    assert_eq!(data.previous_position(), 3);
    assert_eq!(data.current_position(), 8);
    let edge = CaretChangedData::new(u32::MAX, 0);
    assert_eq!(edge.previous_position(), u32::MAX);
    assert_eq!(edge.current_position(), 0);
}

#[test]
fn focus_change_keeps_a_copy_of_the_object() {
    let object = leaf();
    let data = FocusChangedData::new(&object);
    assert_eq!(data.previous_object(), &object);
    assert!(data.clone() == data);
}

#[test]
fn text_selection_keeps_start_and_end() {
    let selection = TextSelection::new(2, 9);
    assert_eq!(selection.start(), 2);
    assert_eq!(selection.end(), 9);
    let data = TextSelectionData::new(TextSelection::new(0, 1), TextSelection::new(2, 9));
    assert_eq!(data.previous().start(), 0);
    assert_eq!(data.previous().end(), 1);
    assert_eq!(data.current().start(), 2);
    assert_eq!(data.current().end(), 9);
}

#[test]
fn event_keeps_its_kind_and_a_copy_of_the_object() {
    let object = leaf();
    let event = OdiliaEvent::new(OdiliaEventType::CaretChanged(CaretChangedData::new(1, 2)), &object);
    assert!(event.event_type() == &OdiliaEventType::CaretChanged(CaretChangedData::new(1, 2)));
    assert_eq!(event.object(), &object);
    let copy = event.clone();
    assert!(copy.event_type() == event.event_type());
    assert_eq!(copy.object(), event.object());
    let focus = OdiliaEvent::new(OdiliaEventType::FocusChanged(FocusChangedData::new(&root())), &object);
    match focus.event_type() {
        OdiliaEventType::FocusChanged(data) => assert_eq!(data.previous_object().name(), "Files"),
        _ => panic!("not a focus change"),
    }
    let changed = OdiliaEvent::new(
        OdiliaEventType::StateChanged(StateChangedData::new(&[], &[OdiliaState::Checked])),
        &object,
    );
    match changed.clone().event_type() {
        OdiliaEventType::StateChanged(data) => {
            assert!(data.new_states().contains(&OdiliaState::Checked))
        }
        _ => panic!("not a state change"),
    }
}

#[test]
fn caret_position_view_keeps_its_fields() {
    let view = CaretPositionView { previous_position: -1, previous_focus: AccessibleId::Number(4) };
    assert_eq!(view.previous_position, -1);
    assert_eq!(view.previous_focus, AccessibleId::Number(4));
    assert_eq!(view.clone(), view);
}

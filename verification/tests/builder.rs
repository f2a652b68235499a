use atspi::accessible::Role;
use odilia_cache::AccessiblePrimitiveConversionError::{InvalidPath, NoPathId, NoSender, ParseError};
use atspi::{Interface, InterfaceSet, State, StateSet};
use odilia_cache::{
    accessible_to_cache_item, atspi_cache_item_to_odilia_cache_item, AccessibleId,
    AccessiblePrimitiveConversionError, CacheItem, ExternalCacheItem, OdiliaError,
    RemoteAccessible, SnapshotParts,
};

fn path(last: &str) -> String {
    format!("/org/a11y/atspi/accessible/{}", last)
}

fn element(last: &str) -> (String, String) {
    (":1.7".to_string(), path(last))
}

fn answers() -> RemoteAccessible {
    RemoteAccessible {
        path: path("12"),
        sender: ":1.7".to_string(),
        app: element("root"),
        parent: element("3"),
        index: 4,
        child_count: 2,
        ifaces: InterfaceSet::new(Interface::Accessible | Interface::Text),
        role: Role::Label,
        states: StateSet::new(State::Enabled | State::Visible),
        text: "Save".to_string(),
        children: vec![element("13"), element("14")],
    }
}

fn pushed() -> ExternalCacheItem {
    ExternalCacheItem {
        object: element("12"),
        app: element("root"),
        parent: element("null"),
        index: 4,
        children: 2,
        ifaces: InterfaceSet::new(Interface::Accessible),
        short_name: "short".to_string(),
        role: Role::Label,
        name: "pushed name".to_string(),
        states: StateSet::new(State::Enabled),
    }
}

fn parts() -> SnapshotParts {
    SnapshotParts {
        id: Ok(AccessibleId::Number(12)),
        sender: ":1.7".to_string(),
        app: Ok(AccessibleId::Root),
        parent: Ok(AccessibleId::Number(3)),
        index: 4,
        child_count: 2,
        children: vec![Ok(AccessibleId::Number(13)), Ok(AccessibleId::Number(14))],
        ifaces: InterfaceSet::empty(),
        role: Role::Label,
        states: StateSet::empty(),
        text: "Save".to_string(),
    }
}

fn reason(built: Result<CacheItem, OdiliaError>) -> AccessiblePrimitiveConversionError {
    match built {
        Err(OdiliaError::PrimitiveConversionError(reason)) => reason,
        other => panic!("unexpected outcome: {:?}", other),
    }
}

#[test]
fn path_names_a_number() {
    assert_eq!(AccessibleId::try_from(path("5").as_str()), Ok(AccessibleId::Number(5)));
    assert_eq!(AccessibleId::try_from(path("-5").as_str()), Ok(AccessibleId::Number(-5)));
    assert_eq!(
        AccessibleId::try_from(path("9223372036854775807").as_str()),
        Ok(AccessibleId::Number(i64::MAX))
    );
}

#[test]
fn path_names_a_keyword() {
    assert_eq!(AccessibleId::try_from(path("root").as_str()), Ok(AccessibleId::Root));
    assert_eq!(AccessibleId::try_from(path("null").as_str()), Ok(AccessibleId::Null));
}

#[test]
fn path_names_nothing() {
    let parse = Err(AccessiblePrimitiveConversionError::ParseError);
    assert_eq!(AccessibleId::try_from(path("five").as_str()), parse);
    assert_eq!(AccessibleId::try_from(path("").as_str()), parse);
    assert_eq!(AccessibleId::try_from(path("9223372036854775808").as_str()), parse);
    assert_eq!(AccessibleId::try_from(path("Root").as_str()), parse);
    assert_eq!(AccessibleId::try_from(""), parse);
}

#[test]
fn only_the_last_segment_counts() {
    assert_eq!(AccessibleId::try_from("/a/b/7"), Ok(AccessibleId::Number(7)));
    assert_eq!(AccessibleId::try_from("7"), Ok(AccessibleId::Number(7)));
    assert_eq!(AccessibleId::try_from("/7/root"), Ok(AccessibleId::Root));
}

#[test]
fn answers_make_a_complete_snapshot() {
    let built = accessible_to_cache_item(answers()).unwrap();
    assert_eq!(
        built,
        CacheItem {
            id: AccessibleId::Number(12),
            sender: ":1.7".to_string(),
            app: AccessibleId::Root,
            parent: AccessibleId::Number(3),
            index: 4,
            child_count: 2,
            children: vec![AccessibleId::Number(13), AccessibleId::Number(14)],
            ifaces: InterfaceSet::new(Interface::Accessible | Interface::Text),
            role: Role::Label,
            states: StateSet::new(State::Enabled | State::Visible),
            text: "Save".to_string(),
        }
    );
}

#[test]
fn answers_without_children_make_a_snapshot() {
    let mut accessible = answers();
    accessible.children = vec![];
    accessible.child_count = 0;
    let built = accessible_to_cache_item(accessible).unwrap();
    assert_eq!(built.children, vec![]);
    assert_eq!(built.child_count, 0);
}

#[test]
fn one_unreadable_child_fails_the_whole() {
    let mut accessible = answers();
    accessible.children = vec![element("13"), element("x"), element("15")];
    assert_eq!(
        reason(accessible_to_cache_item(accessible)),
        AccessiblePrimitiveConversionError::ParseError
    );
}

#[test]
fn an_unreadable_path_of_the_element_its_application_or_its_parent_fails_the_whole() {
    let mut accessible = answers();
    accessible.path = path("twelve");
    assert_eq!(
        reason(accessible_to_cache_item(accessible)),
        AccessiblePrimitiveConversionError::ParseError
    );
    let mut accessible = answers();
    accessible.app = element("app");
    assert_eq!(
        reason(accessible_to_cache_item(accessible)),
        AccessiblePrimitiveConversionError::ParseError
    );
    let mut accessible = answers();
    accessible.parent = element("");
    assert_eq!(
        reason(accessible_to_cache_item(accessible)),
        AccessiblePrimitiveConversionError::ParseError
    );
}

#[test]
fn pushed_item_takes_text_and_children_from_the_element() {
    let built = atspi_cache_item_to_odilia_cache_item(
        pushed(),
        "all the text".to_string(),
        vec![element("21"), element("20")],
    )
    .unwrap();
    assert_eq!(
        built,
        CacheItem {
            id: AccessibleId::Number(12),
            sender: ":1.7".to_string(),
            app: AccessibleId::Root,
            parent: AccessibleId::Null,
            index: 4,
            child_count: 2,
            children: vec![AccessibleId::Number(21), AccessibleId::Number(20)],
            ifaces: InterfaceSet::new(Interface::Accessible),
            role: Role::Label,
            states: StateSet::new(State::Enabled),
            text: "all the text".to_string(),
        }
    );
}

#[test]
fn pushed_item_with_an_unreadable_path_fails() {
    let mut item = pushed();
    item.object = element("object");
    assert_eq!(
        reason(atspi_cache_item_to_odilia_cache_item(item, String::new(), vec![])),
        AccessiblePrimitiveConversionError::ParseError
    );
    assert_eq!(
        reason(atspi_cache_item_to_odilia_cache_item(
            pushed(),
            String::new(),
            vec![element("1"), element("one")]
        )),
        AccessiblePrimitiveConversionError::ParseError
    );
}

#[test]
fn parts_that_were_all_read_make_the_snapshot() {
    let built = parts().into_cache_item().unwrap();
    assert_eq!(built.id, AccessibleId::Number(12));
    assert_eq!(built.sender, ":1.7");
    assert_eq!(built.app, AccessibleId::Root);
    assert_eq!(built.parent, AccessibleId::Number(3));
    assert_eq!(built.index, 4);
    assert_eq!(built.child_count, 2);
    assert_eq!(built.children, vec![AccessibleId::Number(13), AccessibleId::Number(14)]);
    assert_eq!(built.text, "Save");
}

#[test]
fn the_first_part_that_was_not_read_gives_the_reason() {
    let mut all_bad = parts();
    all_bad.id = Err(NoPathId);
    all_bad.children = vec![Ok(AccessibleId::Number(1)), Err(ParseError), Err(NoSender)];
    all_bad.app = Err(InvalidPath);
    all_bad.parent = Err(NoSender);
    assert_eq!(reason(all_bad.into_cache_item()), NoPathId);

    let mut children_first = parts();
    children_first.children = vec![Ok(AccessibleId::Number(1)), Err(ParseError), Err(NoSender)];
    children_first.app = Err(InvalidPath);
    children_first.parent = Err(NoSender);
    assert_eq!(reason(children_first.into_cache_item()), ParseError);

    let mut app_then_parent = parts();
    app_then_parent.app = Err(InvalidPath);
    app_then_parent.parent = Err(NoSender);
    assert_eq!(reason(app_then_parent.into_cache_item()), InvalidPath);

    let mut parent_only = parts();
    parent_only.parent = Err(NoSender);
    assert_eq!(reason(parent_only.into_cache_item()), NoSender);
}

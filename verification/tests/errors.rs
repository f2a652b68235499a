use odilia_cache::{AccessiblePrimitiveConversionError, CacheError, ConfigError, OdiliaError};

#[test]
fn cache_error_messages() {
    assert_eq!(
        CacheError::NotAvailable.message(),
        "The cache has been dropped from memory. This never happens under normal circumstances, and should never happen. Please send a detailed bug report if this ever happens."
    );
    assert_eq!(CacheError::NoItem.message(), "No item in cache found.");
    assert_eq!(
        CacheError::NoLock.message(),
        "It was not possible to get a lock on this item from the cache."
    );
}

#[test]
fn config_error_messages() {
    assert_eq!(ConfigError::Tini("line 3".to_string()).message(), "line 3");
    assert_eq!(ConfigError::ValueNotFound.message(), "Vlaue not found in config file.");
    assert_eq!(
        ConfigError::PathNotFound.message(),
        "The path for the config file was not found."
    );
}

#[test]
fn bus_errors_keep_their_message() {
    let text = zbus::Error::InterfaceNotFound.to_string();
    match OdiliaError::from(zbus::Error::InterfaceNotFound) {
        OdiliaError::Generic(kept) => assert_eq!(kept, text),
        other => panic!("unexpected error: {:?}", other),
    }
    let text = zbus::fdo::Error::Failed("no such object".to_string()).to_string();
    match OdiliaError::from(zbus::fdo::Error::Failed("no such object".to_string())) {
        OdiliaError::Generic(kept) => {
            assert_eq!(kept, text);
            assert!(kept.contains("no such object"));
        }
        other => panic!("unexpected error: {:?}", other),
    }
}

#[test]
fn encoding_errors_are_wrapped_by_the_protocol() {
    match OdiliaError::from(zvariant::Error::IncorrectType) {
        OdiliaError::Atspi(atspi_common::AtspiError::Zvariant(zvariant::Error::IncorrectType)) => {}
        other => panic!("unexpected error: {:?}", other),
    }
}

#[test]
fn protocol_errors_are_carried() {
    match OdiliaError::from(atspi_common::AtspiError::UnknownSignal) {
        OdiliaError::Atspi(atspi_common::AtspiError::UnknownSignal) => {}
        other => panic!("unexpected error: {:?}", other),
    }
}

#[test]
fn integer_errors_keep_their_message() {
    let err = u8::try_from(300i32).unwrap_err();
    let text = err.to_string();
    match OdiliaError::from(err) {
        OdiliaError::ParseError(kept) => assert_eq!(kept, text),
        other => panic!("unexpected error: {:?}", other),
    }
}

#[test]
fn plain_text_errors_keep_their_message() {
    let err = serde_plain::from_str::<u32>("abc").unwrap_err();
    let text = err.to_string();
    match OdiliaError::from(err) {
        OdiliaError::Generic(kept) => assert_eq!(kept, text),
        other => panic!("unexpected error: {:?}", other),
    }
}

#[test]
fn settings_errors_keep_their_message() {
    let err = tini::Error::Parse(tini::ParseError::EmptyKey(3));
    let text = err.to_string();
    match ConfigError::from(err) {
        ConfigError::Tini(kept) => assert_eq!(kept, text),
        other => panic!("unexpected error: {:?}", other),
    }
}

#[test]
fn own_errors_are_wrapped_as_they_are() {
    assert!(matches!(
        OdiliaError::from(CacheError::NoLock),
        OdiliaError::Cache(CacheError::NoLock)
    ));
    assert!(matches!(
        OdiliaError::from(AccessiblePrimitiveConversionError::NoSender),
        OdiliaError::PrimitiveConversionError(AccessiblePrimitiveConversionError::NoSender)
    ));
}

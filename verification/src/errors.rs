//! The error types of the store and of what is built around it.

use vstd::prelude::*;
use vstd::std_specs::convert::FromSpecImpl;
use vstd::string::to_string_from_display_ensures;

verus! {

/// The error of the accessibility protocol crate, carried through unread.
#[verifier::external_type_specification]
#[verifier::external_body]
pub struct ExAtspiError(atspi_common::AtspiError);

/// The error of the message bus, carried through unread.
#[verifier::external_type_specification]
#[verifier::external_body]
pub struct ExZbusError(zbus::Error);

/// The error of the bus's standard interfaces, carried through unread.
#[verifier::external_type_specification]
#[verifier::external_body]
pub struct ExZbusFdoError(zbus::fdo::Error);

/// The error of the bus's wire encoding, carried through unread.
#[verifier::external_type_specification]
#[verifier::external_body]
pub struct ExZvariantError(zvariant::Error);

/// The error of the settings-file reader, carried through unread.
#[verifier::external_type_specification]
#[verifier::external_body]
pub struct ExTiniError(tini::Error);

/// The error of the plain-text (de)serialiser, carried through unread.
#[verifier::external_type_specification]
#[verifier::external_body]
pub struct ExSerdePlainError(serde_plain::Error);

/// Everything that can go wrong in the screen reader's core.
#[non_exhaustive]
#[derive(Debug)]
pub enum OdiliaError {
    /// A failure reported by the accessibility protocol.
    Atspi(atspi_common::AtspiError),
    /// A path or string could not be turned into an element identity.
    PrimitiveConversionError(AccessiblePrimitiveConversionError),
    /// A state was asked for as a variant that it does not hold.
    InvalidStateVariant,
    /// A failure of the store itself.
    Cache(CacheError),
    /// A conversion that cannot fail has failed.
    InfallibleConversion,
    /// A string could not be parsed into a value, usually an integer; the
    /// message is kept.
    ParseError(String),
    /// A failure in reading the settings.
    Config(ConfigError),
    /// Any other failure, of which only the message is kept.
    Generic(String),
}

/// Errors when loading or reading the settings.
#[derive(Debug)]
pub enum ConfigError {
    /// The settings file could not be parsed; the parser's message is kept.
    Tini(String),
    /// The value asked for is not in the settings.
    ValueNotFound,
    /// The settings file was not found.
    PathNotFound,
}

/// Errors of the store.
#[derive(Clone, Copy, Debug, PartialEq, Eq, Structural)]
pub enum CacheError {
    /// The store's owner was torn down.
    NotAvailable,
    /// The item asked for is not in the store.
    NoItem,
    /// Neither shared nor exclusive access to the store could be had.
    NoLock,
}

/// The ways in which a path or a sender fails to name an element.
#[derive(Clone, Copy, Debug, PartialEq, Eq, Structural)]
pub enum AccessiblePrimitiveConversionError {
    /// The last segment of the path is neither a keyword nor an integer.
    ParseError,
    /// The path has no last segment.
    NoPathId,
    /// The text is not an object path.
    InvalidPath,
    /// The sender lacks its first section.
    NoFirstSectionOfSender,
    /// The sender lacks its second section.
    NoSecondSectionOfSender,
    /// There is no sender.
    NoSender,
    /// The sender could not be read.
    ErrSender,
}

impl ConfigError {
    /// The text that describes this error to a user.
    pub open spec fn message_spec(self) -> Seq<char> {
        match self {
            ConfigError::Tini(text) => text@,
            ConfigError::ValueNotFound => "Vlaue not found in config file."@,
            ConfigError::PathNotFound => "The path for the config file was not found."@,
        }
    }

    /// Describes this error to a user: a parser's message as it is, a fixed
    /// sentence for the other two.
    pub fn message(&self) -> (text: String)
        ensures
            text@ == self.message_spec(),
    {
        match self {
            ConfigError::Tini(text) => text.clone(),
            ConfigError::ValueNotFound => "Vlaue not found in config file.".to_owned(),
            ConfigError::PathNotFound => "The path for the config file was not found.".to_owned(),
        }
    }
}

impl CacheError {
    /// The text that describes this error to a user.
    pub open spec fn message_spec(self) -> Seq<char> {
        match self {
            CacheError::NotAvailable => "The cache has been dropped from memory. This never happens under normal circumstances, and should never happen. Please send a detailed bug report if this ever happens."@,
            CacheError::NoItem => "No item in cache found."@,
            CacheError::NoLock => "It was not possible to get a lock on this item from the cache."@,
        }
    }

    /// Describes this error to a user, one fixed sentence for each variant.
    pub fn message(&self) -> (text: String)
        ensures
            text@ == self.message_spec(),
    {
        match self {
            CacheError::NotAvailable => "The cache has been dropped from memory. This never happens under normal circumstances, and should never happen. Please send a detailed bug report if this ever happens.".to_owned(),
            CacheError::NoItem => "No item in cache found.".to_owned(),
            CacheError::NoLock => "It was not possible to get a lock on this item from the cache.".to_owned(),
        }
    }
}

/// `AtspiError::from` on an encoding error: the protocol crate wraps it in one
/// of its own variants. Nothing is claimed of which.
#[verifier::external_body]
fn atspi_error_of_zvariant(err: zvariant::Error) -> (wrapped: atspi_common::AtspiError) {
    atspi_common::AtspiError::from(err)
}

impl From<zbus::Error> for OdiliaError {
    /// A bus error becomes a generic error that keeps its message.
    fn from(z_err: zbus::Error) -> (err: Self)
        ensures
            err matches OdiliaError::Generic(text) && to_string_from_display_ensures::<zbus::Error>(
                &z_err,
                text,
            ),
    {
        OdiliaError::Generic(z_err.to_string())
    }
}

impl FromSpecImpl<zbus::Error> for OdiliaError {
    open spec fn obeys_from_spec() -> bool {
        false
    }

    open spec fn from_spec(z_err: zbus::Error) -> Self {
        arbitrary()
    }
}

impl From<zbus::fdo::Error> for OdiliaError {
    /// An error of the bus's standard interfaces becomes a generic error that
    /// keeps its message.
    fn from(z_err: zbus::fdo::Error) -> (err: Self)
        ensures
            err matches OdiliaError::Generic(text) && to_string_from_display_ensures::<
                zbus::fdo::Error,
            >(&z_err, text),
    {
        OdiliaError::Generic(z_err.to_string())
    }
}

impl FromSpecImpl<zbus::fdo::Error> for OdiliaError {
    open spec fn obeys_from_spec() -> bool {
        false
    }

    open spec fn from_spec(z_err: zbus::fdo::Error) -> Self {
        arbitrary()
    }
}

impl From<tini::Error> for ConfigError {
    /// A settings-file error keeps its message.
    fn from(t_err: tini::Error) -> (err: Self)
        ensures
            err matches ConfigError::Tini(text) && to_string_from_display_ensures::<tini::Error>(
                &t_err,
                text,
            ),
    {
        ConfigError::Tini(t_err.to_string())
    }
}

impl FromSpecImpl<tini::Error> for ConfigError {
    open spec fn obeys_from_spec() -> bool {
        false
    }

    open spec fn from_spec(t_err: tini::Error) -> Self {
        arbitrary()
    }
}

impl From<std::num::TryFromIntError> for OdiliaError {
    /// A failed integer conversion becomes a parse error that keeps its
    /// message.
    fn from(fie: std::num::TryFromIntError) -> (err: Self)
        ensures
            err matches OdiliaError::ParseError(text) && to_string_from_display_ensures::<
                std::num::TryFromIntError,
            >(&fie, text),
    {
        OdiliaError::ParseError(fie.to_string())
    }
}

impl FromSpecImpl<std::num::TryFromIntError> for OdiliaError {
    open spec fn obeys_from_spec() -> bool {
        false
    }

    open spec fn from_spec(fie: std::num::TryFromIntError) -> Self {
        arbitrary()
    }
}

impl From<std::convert::Infallible> for OdiliaError {
    fn from(_infallible: std::convert::Infallible) -> (err: Self)
        ensures
            err == OdiliaError::InfallibleConversion,
    {
        OdiliaError::InfallibleConversion
    }
}

impl FromSpecImpl<std::convert::Infallible> for OdiliaError {
    open spec fn obeys_from_spec() -> bool {
        true
    }

    open spec fn from_spec(_infallible: std::convert::Infallible) -> Self {
        OdiliaError::InfallibleConversion
    }
}

impl From<CacheError> for OdiliaError {
    fn from(cache_error: CacheError) -> (err: Self)
        ensures
            err == OdiliaError::Cache(cache_error),
    {
        OdiliaError::Cache(cache_error)
    }
}

impl FromSpecImpl<CacheError> for OdiliaError {
    open spec fn obeys_from_spec() -> bool {
        true
    }

    open spec fn from_spec(cache_error: CacheError) -> Self {
        OdiliaError::Cache(cache_error)
    }
}

impl From<zvariant::Error> for OdiliaError {
    /// An encoding error is wrapped as the protocol crate wraps it.
    fn from(spe: zvariant::Error) -> (err: Self)
        ensures
            err is Atspi,
    {
        OdiliaError::Atspi(atspi_error_of_zvariant(spe))
    }
}

impl FromSpecImpl<zvariant::Error> for OdiliaError {
    open spec fn obeys_from_spec() -> bool {
        false
    }

    open spec fn from_spec(spe: zvariant::Error) -> Self {
        arbitrary()
    }
}

impl From<serde_plain::Error> for OdiliaError {
    /// A (de)serialiser error becomes a generic error that keeps its message.
    fn from(spe: serde_plain::Error) -> (err: Self)
        ensures
            err matches OdiliaError::Generic(text) && to_string_from_display_ensures::<
                serde_plain::Error,
            >(&spe, text),
    {
        OdiliaError::Generic(spe.to_string())
    }
}

impl FromSpecImpl<serde_plain::Error> for OdiliaError {
    open spec fn obeys_from_spec() -> bool {
        false
    }

    open spec fn from_spec(spe: serde_plain::Error) -> Self {
        arbitrary()
    }
}

impl From<atspi_common::AtspiError> for OdiliaError {
    fn from(err: atspi_common::AtspiError) -> (wrapped: Self)
        ensures
            wrapped == OdiliaError::Atspi(err),
    {
        OdiliaError::Atspi(err)
    }
}

impl FromSpecImpl<atspi_common::AtspiError> for OdiliaError {
    open spec fn obeys_from_spec() -> bool {
        true
    }

    open spec fn from_spec(err: atspi_common::AtspiError) -> Self {
        OdiliaError::Atspi(err)
    }
}

impl From<AccessiblePrimitiveConversionError> for OdiliaError {
    fn from(apc_error: AccessiblePrimitiveConversionError) -> (err: Self)
        ensures
            err == OdiliaError::PrimitiveConversionError(apc_error),
    {
        OdiliaError::PrimitiveConversionError(apc_error)
    }
}

impl FromSpecImpl<AccessiblePrimitiveConversionError> for OdiliaError {
    open spec fn obeys_from_spec() -> bool {
        true
    }

    open spec fn from_spec(apc_error: AccessiblePrimitiveConversionError) -> Self {
        OdiliaError::PrimitiveConversionError(apc_error)
    }
}

} // verus!

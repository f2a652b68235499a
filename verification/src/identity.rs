//! Element identities, and how the path of an element on the bus names one.

use crate::errors::AccessiblePrimitiveConversionError;
use vstd::prelude::*;
use vstd::std_specs::convert::TryFromSpecImpl;

verus! {

/// The identity of one element within the peer that owns it.
#[derive(Clone, Copy, Debug, PartialEq, Eq, Hash, PartialOrd, Ord, Structural)]
pub enum AccessibleId {
    /// No element.
    Null,
    /// The ancestor of all elements of a peer.
    Root,
    /// An ordinary element, by its number.
    Number(i64),
}

/// An identity as it was read from a path, or the reason why none was.
pub type Identity = Result<AccessibleId, AccessiblePrimitiveConversionError>;

/// The identity that the accessibility protocol crate reads out of the text
/// of an object path, or the reason why it reads none.
pub uninterp spec fn path_identity(path: Seq<char>) -> Identity;

/// `atspi`'s `TryFrom<ObjectPath>` for its `AccessibleId`, on an object path
/// made of `path` as it stands. The outcome depends on the text alone, and is
/// handed on variant by variant: an identity as the identity of the same
/// name, and each reason for which the crate finds none as a reason of ours.
#[verifier::external_body]
fn identity_of_path(path: &str) -> (id: Identity)
    ensures
        id == path_identity(path@),
{
    let object_path = zvariant::ObjectPath::from_str_unchecked(path);
    match atspi::accessible_ext::AccessibleId::try_from(object_path) {
        Ok(atspi::accessible_ext::AccessibleId::Null) => Ok(AccessibleId::Null),
        Ok(atspi::accessible_ext::AccessibleId::Root) => Ok(AccessibleId::Root),
        Ok(atspi::accessible_ext::AccessibleId::Number(n)) => Ok(AccessibleId::Number(n)),
        Err(atspi::error::ObjectPathConversionError::NoIdAvailable) => Err(
            AccessiblePrimitiveConversionError::NoPathId,
        ),
        Err(atspi::error::ObjectPathConversionError::ParseError(_)) => Err(
            AccessiblePrimitiveConversionError::ParseError,
        ),
    }
}

impl<'a> TryFrom<&'a str> for AccessibleId {
    type Error = AccessiblePrimitiveConversionError;

    /// Reads the identity out of an object path.
    fn try_from(path: &'a str) -> (id: Identity)
        ensures
            id == path_identity(path@),
    {
        identity_of_path(path)
    }
}

impl<'a> TryFromSpecImpl<&'a str> for AccessibleId {
    open spec fn obeys_try_from_spec() -> bool {
        true
    }

    open spec fn try_from_spec(path: &'a str) -> Result<Self, Self::Error> {
        path_identity(path@)
    }
}

} // verus!

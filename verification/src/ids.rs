//! Identifiers: users, teams, seasons and games are named by UUIDs, which
//! the library handles as their 128-bit values.

use vstd::prelude::*;

verus! {

/// `uuid::Error`, the reason the `uuid` crate gives for turning a text
/// down. The library carries it through without looking inside.
#[verifier::external_type_specification]
#[verifier::external_body]
pub struct ExUuidError(uuid::Error);

/// The 128-bit value of the UUID that a text spells, as the `uuid` crate
/// reads it, or `None` where the text spells no UUID.
pub uninterp spec fn uuid_value(text: Seq<char>) -> Option<u128>;

/// The text is not a UUID.
#[derive(Clone, Copy, Debug, PartialEq, Eq, Structural)]
pub struct InvalidId;

/// Reads a UUID by `Uuid::parse_str` of the `uuid` crate and hands out its
/// 128-bit value (`Uuid::as_u128`). Trusted: whether a text is accepted,
/// and the value read, depend on the text alone.
#[verifier::external_body]
fn parse_uuid(text: &str) -> (parsed: Result<u128, uuid::Error>)
    ensures
        match parsed {
            Ok(value) => uuid_value(text@) == Some(value),
            Err(_) => uuid_value(text@).is_none(),
        },
{
    uuid::Uuid::parse_str(text).map(|id| id.as_u128())
}

/// Reads the identifier of a user from the subject of the user's token.
pub fn parse_user_id(subject: &str) -> (id: Result<u128, InvalidId>)
    ensures
        match id {
            Ok(value) => uuid_value(subject@) == Some(value),
            Err(_) => uuid_value(subject@).is_none(),
        },
{
    match parse_uuid(subject) {
        Ok(value) => user_id_from(Some(value)),
        Err(_) => user_id_from(None),
    }
}

/// The identifier of a user: what `parsed` holds if the subject was a
/// UUID. This is the step that follows the reading of the text.
pub fn user_id_from(parsed: Option<u128>) -> (id: Result<u128, InvalidId>)
    ensures
        id == match parsed {
            Some(value) => Ok::<u128, InvalidId>(value),
            None => Err::<u128, InvalidId>(InvalidId),
        },
{
    match parsed {
        Some(value) => Ok(value),
        None => Err(InvalidId),
    }
}

} // verus!

//! Identifiers. The service speaks of a resource by a 128-bit number, shows it
//! to clients as a ULID and hands it to storage as a hyphenated UUID.

use uuid::Uuid;
use vstd::prelude::*;

verus! {

/// The hyphenated lower-case text that the `uuid` crate prints for the UUID
/// with the value `id`.
pub uninterp spec fn uuid_hyphenated(id: u128) -> Seq<char>;

/// The value of the UUID that the `uuid` crate reads from `text`, if it reads one.
pub uninterp spec fn uuid_value(text: Seq<char>) -> Option<u128>;

/// Calls `Uuid::from_u128` and prints the result with its `Display` impl,
/// which writes the hyphenated lower-case form. The contract names that text
/// and claims only that it is a function of `id`.
#[verifier::external_body]
fn uuid_print(id: u128) -> (s: String)
    ensures
        s@ == uuid_hyphenated(id),
{
    Uuid::from_u128(id).to_string()
}

/// Calls `Uuid::parse_str` and takes the value with `Uuid::as_u128`. The
/// contract names the outcome and claims only that it is a function of the text.
#[verifier::external_body]
fn uuid_parse(text: &str) -> (r: Option<u128>)
    ensures
        r == uuid_value(text@),
{
    match Uuid::parse_str(text) {
        Ok(u) => Some(u.as_u128()),
        Err(_) => None,
    }
}

/// Calls `Uuid::now_v7`, which draws on the clock and on randomness, and takes
/// the value with `Uuid::as_u128`. Nothing is claimed of the identifier.
#[verifier::external_body]
pub(crate) fn fresh_id() -> (id: u128) {
    Uuid::now_v7().as_u128()
}

/// The key under which storage keeps the resource `id`.
pub fn storage_key(id: u128) -> (s: String)
    ensures
        s@ == uuid_hyphenated(id),
{
    uuid_print(id)
}

/// Reads an identifier back from a storage key. Storage only holds keys that
/// [`storage_key`] made, so `None` means that the stored data is damaged.
pub fn expect_uuid(s: &str) -> (r: Option<u128>)
    ensures
        r == uuid_value(s@),
{
    uuid_parse(s)
}

} // verus!

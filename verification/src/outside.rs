//! What the library takes from other crates and from std without proof. Each contract
//! here is believed, not checked.

use crate::error::DbFailure;
use crate::models::Timestamp;
use vstd::prelude::*;

verus! {

/// The storage driver's error, `sqlx::Error`. Nothing is known of a value of it but
/// what `storage_failure` reads.
#[verifier::external_type_specification]
#[verifier::external_body]
pub struct ExSqlxError(sqlx::Error);

/// Whether a `sqlx::Error` is its variant `RowNotFound`: the statement expected at least
/// one row and the store returned none.
pub uninterp spec fn is_row_not_found(err: sqlx::Error) -> bool;

/// Reads a `sqlx::Error`: its variant `RowNotFound` is told apart from all others, and
/// of any other the text that its `Display` impl writes is kept. The contract says which
/// of the two comes back; nothing is claimed of the text.
#[verifier::external_body]
pub(crate) fn storage_failure(err: &sqlx::Error) -> (failure: DbFailure)
    ensures
        (failure is RowNotFound) == is_row_not_found(*err),
{
    match err {
        sqlx::Error::RowNotFound => DbFailure::RowNotFound,
        other => DbFailure::Other(other.to_string()),
    }
}

/// What `str::trim` makes of a text: the text without its leading and trailing
/// whitespace.
pub uninterp spec fn trimmed(text: Seq<char>) -> Seq<char>;

/// Calls `str::trim`. The result is named `trimmed` of the argument; std documents it as
/// a slice of the argument, with leading and trailing whitespace removed, so it is no
/// longer than the argument.
#[verifier::external_body]
pub(crate) fn trim(text: &str) -> (rest: &str)
    ensures
        rest@ == trimmed(text@),
        rest@.len() <= text@.len(),
{
    text.trim()
}

/// The text that `uuid::Uuid` displays for the identifier with this 128-bit value.
pub uninterp spec fn uuid_text(id: u128) -> Seq<char>;

/// Calls `Uuid::from_u128` and the `Display` impl of `Uuid`, which writes the
/// identifier in lower-case hexadecimal digits, in groups divided by hyphens. The
/// result is named `uuid_text` of the argument.
#[verifier::external_body]
pub(crate) fn display_uuid(id: u128) -> (text: String)
    ensures
        text@ == uuid_text(id),
{
    uuid::Uuid::from_u128(id).to_string()
}

/// What `Uuid::parse_str` makes of a text: the 128-bit value of the identifier that it
/// reads, or `None` where it rejects the text.
pub uninterp spec fn uuid_parsed(text: Seq<char>) -> Option<u128>;

/// Calls `Uuid::parse_str`, and `Uuid::as_u128` on what it accepts. The result is named
/// `uuid_parsed` of the argument.
#[verifier::external_body]
pub(crate) fn parse_uuid(text: &str) -> (id: Option<u128>)
    ensures
        id == uuid_parsed(text@),
{
    match uuid::Uuid::parse_str(text) {
        Ok(parsed) => Some(parsed.as_u128()),
        Err(_) => None,
    }
}

/// Calls `Uuid::new_v4`, which draws a random identifier, and hands back its 128-bit
/// value. Nothing is claimed of the value.
#[verifier::external_body]
pub(crate) fn random_uuid() -> (id: u128) {
    uuid::Uuid::new_v4().as_u128()
}

/// Calls `chrono::Utc::now` and reads the result with `DateTime::timestamp` and
/// `DateTime::timestamp_subsec_nanos`. Nothing is claimed of the value: the clock
/// decides. `Utc::now` does not return where the system clock stands before 1970.
#[verifier::external_body]
pub(crate) fn current_time() -> (now: Timestamp) {
    let now = chrono::Utc::now();
    Timestamp { secs: now.timestamp(), nanos: now.timestamp_subsec_nanos() }
}

} // verus!

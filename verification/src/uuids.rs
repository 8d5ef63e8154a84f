//! Identifiers: UUIDs held as their 128-bit big-endian value, with the `uuid` crate
//! doing the parsing, formatting, generation and timestamp decoding.
use vstd::prelude::*;

verus! {

/// The version field of a UUID (bits 76..80 of its big-endian value).
pub open spec fn uuid_version(id: u128) -> u128 {
    (id >> 76u128) & 0xfu128
}

/// The 48-bit millisecond Unix timestamp at the front of a version 7 UUID.
pub open spec fn uuid_v7_millis(id: u128) -> u128 {
    id >> 80u128
}

/// The Unix timestamp (seconds, nanoseconds) that `uuid` reads from `id`.
pub uninterp spec fn spec_uuid_timestamp(id: u128) -> Option<(u64, u32)>;

/// The UUID that `uuid` parses from the text `s`, if any.
pub uninterp spec fn spec_parse_uuid(s: Seq<char>) -> Option<u128>;

/// The lower-case hyphenated text of the UUID `id`.
pub uninterp spec fn spec_uuid_text(id: u128) -> Seq<char>;

/// Calls `uuid::Uuid::get_timestamp` and `Timestamp::to_unix` on the UUID whose
/// big-endian value is `id`. Claimed: the result is a function of `id`; a version 7
/// UUID gives its leading 48-bit millisecond count split into seconds and nanoseconds;
/// versions other than 1, 6 and 7 give `None`; nanoseconds are below one second.
/// The decoding of versions 1 and 6 is left unsaid.
#[verifier::external_body]
pub(crate) fn uuid_unix_timestamp(id: u128) -> (r: Option<(u64, u32)>)
    ensures
        r == spec_uuid_timestamp(id),
        uuid_version(id) == 7 ==> r == Some(
            ((uuid_v7_millis(id) / 1000) as u64, ((uuid_v7_millis(id) % 1000) * 1_000_000) as u32),
        ),
        !(uuid_version(id) == 1 || uuid_version(id) == 6 || uuid_version(id) == 7) ==> r is None,
        r matches Some((s, n)) ==> n < 1_000_000_000,
{
    match uuid::Uuid::from_u128(id).get_timestamp() {
        Some(ts) => Some(ts.to_unix()),
        None => None,
    }
}

/// Calls `uuid::Uuid::parse_str` and `as_u128`. Claimed: the result is a function of
/// the text, and the text that `uuid_to_string` writes parses back to the same UUID.
#[verifier::external_body]
pub(crate) fn parse_uuid(s: &str) -> (r: Option<u128>)
    ensures
        r == spec_parse_uuid(s@),
        forall|id: u128| s@ == #[trigger] spec_uuid_text(id) ==> r == Some(id),
{
    match uuid::Uuid::parse_str(s) {
        Ok(u) => Some(u.as_u128()),
        Err(_) => None,
    }
}

/// Calls `to_string()` on `uuid::Uuid::from_u128(id)`. Claimed: the text is a function
/// of `id` and is 36 characters long (the hyphenated form).
#[verifier::external_body]
pub(crate) fn uuid_to_string(id: u128) -> (r: String)
    ensures
        r@ == spec_uuid_text(id),
        r@.len() == 36,
{
    uuid::Uuid::from_u128(id).to_string()
}

/// Calls `uuid::Uuid::new_v4()` and `as_u128`. Claimed: the value is a version 4 UUID;
/// which one is chance.
#[verifier::external_body]
pub(crate) fn new_v4() -> (r: u128)
    ensures
        uuid_version(r) == 4,
{
    uuid::Uuid::new_v4().as_u128()
}

} // verus!

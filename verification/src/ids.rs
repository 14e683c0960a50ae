use vstd::prelude::*;

verus! {

/// The version field of a UUID held as a 128-bit big-endian value.
pub open spec fn uuid_version(id: u128) -> u128 {
    (id >> 76u128) & 0xfu128
}

/// The two variant bits of a UUID held as a 128-bit big-endian value.
pub open spec fn uuid_variant_bits(id: u128) -> u128 {
    (id >> 62u128) & 3u128
}

/// The lower-case hexadecimal digit of `d` (0 to 15).
pub open spec fn hex_digit(d: int) -> char {
    if d == 0 { '0' }
    else if d == 1 { '1' }
    else if d == 2 { '2' }
    else if d == 3 { '3' }
    else if d == 4 { '4' }
    else if d == 5 { '5' }
    else if d == 6 { '6' }
    else if d == 7 { '7' }
    else if d == 8 { '8' }
    else if d == 9 { '9' }
    else if d == 10 { 'a' }
    else if d == 11 { 'b' }
    else if d == 12 { 'c' }
    else if d == 13 { 'd' }
    else if d == 14 { 'e' }
    else { 'f' }
}

/// The 32 lower-case hexadecimal digits of `id`, most significant first.
pub open spec fn uuid_hex(id: u128) -> Seq<char> {
    Seq::new(32, |i: int| hex_digit(((id >> ((124 - 4 * i) as u128)) & 0xfu128) as int))
}

/// The hyphenated text of a UUID (8-4-4-4-12 lower-case hexadecimal digits),
/// as the `uuid` crate displays it.
pub open spec fn uuid_hyphenated(id: u128) -> Seq<char> {
    let hex = uuid_hex(id);
    hex.subrange(0, 8) + seq!['-'] + hex.subrange(8, 12) + seq!['-'] + hex.subrange(12, 16)
        + seq!['-'] + hex.subrange(16, 20) + seq!['-'] + hex.subrange(20, 32)
}

/// What `uuid::Uuid::parse_str` reads from a text, as a 128-bit value.
pub uninterp spec fn uuid_parsed(text: Seq<char>) -> Option<u128>;

/// A fresh random identifier from `uuid::Uuid::new_v4`, as a 128-bit value.
/// Trusted: the `uuid` source sets the version field to 4 and the variant bits
/// to `10` on a random value; nothing else of it is promised.
#[verifier::external_body]
pub(crate) fn new_v4_id() -> (res: u128)
    ensures
        uuid_version(res) == 4,
        uuid_variant_bits(res) == 2,
{
    uuid::Uuid::new_v4().as_u128()
}

/// The text of an identifier, from `uuid::Uuid`'s `Display`.
/// Trusted: the `uuid` source displays the hyphenated lower-case form, and
/// documents that `parse_str` reads every form it writes back to the same value.
#[verifier::external_body]
pub(crate) fn uuid_to_text(id: u128) -> (res: String)
    ensures
        res@ == uuid_hyphenated(id),
        uuid_parsed(res@) == Some(id),
{
    uuid::Uuid::from_u128(id).to_string()
}

/// Reads an identifier with `uuid::Uuid::parse_str`, as a 128-bit value.
/// Trusted: the result is named by `uuid_parsed`, nothing more is claimed.
#[verifier::external_body]
pub(crate) fn parse_uuid(text: &str) -> (res: Option<u128>)
    ensures
        res == uuid_parsed(text@),
{
    match uuid::Uuid::parse_str(text) {
        Ok(id) => Some(id.as_u128()),
        Err(_) => None,
    }
}

} // verus!

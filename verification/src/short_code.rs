//! The short code generator: fresh record identifiers, their text form and
//! the short code that is derived from each.

use vstd::prelude::*;

verus! {

/// The base58 text that the `bs58` crate gives for some bytes, in its default
/// (Bitcoin) alphabet.
pub uninterp spec fn base58_text(bytes: Seq<u8>) -> Seq<char>;

/// The lower-case hexadecimal digit for a value below sixteen.
pub open spec fn hex_digit(value: int) -> char {
    "0123456789abcdef"@[value]
}

/// Bytes as lower-case hexadecimal digits: two for each byte, the high half
/// first.
pub open spec fn hex_text(bytes: Seq<u8>) -> Seq<char> {
    Seq::new(
        2 * bytes.len(),
        |at: int|
            if at % 2 == 0 {
                hex_digit(bytes[at / 2] as int / 16)
            } else {
                hex_digit(bytes[at / 2] as int % 16)
            },
    )
}

/// The text form of a record identifier: the hexadecimal digits of its
/// sixteen bytes in groups of 8, 4, 4, 4 and 12, with a hyphen between two
/// groups.
pub open spec fn hyphenated(id: Seq<u8>) -> Seq<char> {
    let hex = hex_text(id);
    hex.subrange(0, 8) + seq!['-'] + hex.subrange(8, 12) + seq!['-'] + hex.subrange(12, 16)
        + seq!['-'] + hex.subrange(16, 20) + seq!['-'] + hex.subrange(20, 32)
}

/// Version 7 of the identifier layout: the version field holds 7 and the
/// variant field the bits `10`.
pub open spec fn is_version_7(id: Seq<u8>) -> bool {
    id.len() == 16 && id[6] as int / 16 == 7 && id[8] as int / 64 == 2
}

/// The short code of a record identifier: the base58 text of its low-order
/// sixteen bits, which are its last two bytes.
pub open spec fn short_code_text(id: Seq<u8>) -> Seq<char> {
    base58_text(id.subrange(14, 16))
}

/// Draws a new time-ordered identifier with `uuid::Uuid::now_v7` and hands out
/// its bytes.
///
/// Trusted: the identifier has the version 7 layout. Which identifier comes
/// depends on the clock and on random bits, so nothing else is claimed. The
/// call fails only where the machine has no clock reading after 1970 or no
/// source of random bytes.
#[verifier::external_body]
pub(crate) fn fresh_record_id() -> (id: [u8; 16])
    ensures
        is_version_7(id@),
{
    uuid::Uuid::now_v7().into_bytes()
}

/// Formats an identifier as `uuid::Uuid` displays it.
///
/// Trusted: the text is the lower-case hyphenated form.
#[verifier::external_body]
pub(crate) fn record_id_text(id: &[u8; 16]) -> (text: String)
    ensures
        text@ == hyphenated(id@),
{
    uuid::Uuid::from_bytes(*id).to_string()
}

/// Encodes bytes with `bs58::encode(..).into_string()`.
///
/// Trusted: the text depends on the bytes alone.
#[verifier::external_body]
pub(crate) fn base58(bytes: &[u8]) -> (text: String)
    ensures
        text@ == base58_text(bytes@),
{
    bs58::encode(bytes).into_string()
}

/// The short code that belongs to a record identifier.
pub fn short_code(id: &[u8; 16]) -> (code: String)
    ensures
        code@ == short_code_text(id@),
{
    let mut low: Vec<u8> = Vec::new();
    low.push(id[14]);
    low.push(id[15]);
    assert(low@ =~= id@.subrange(14, 16));
    base58(low.as_slice())
}

/// A fresh record identifier with its text form and its short code.
pub fn generate() -> (fresh: ([u8; 16], String, String))
    ensures
        is_version_7(fresh.0@),
        fresh.1@ == hyphenated(fresh.0@),
        fresh.2@ == short_code_text(fresh.0@),
{
    let id = fresh_record_id();
    let text = record_id_text(&id);
    let code = short_code(&id);
    (id, text, code)
}

} // verus!

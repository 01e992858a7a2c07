//! What the library takes from its surroundings: fresh identifiers from the
//! `uuid` crate and the current time from `chrono`. Both depend on chance or
//! on the clock, so their contracts state only what holds of every outcome.
use vstd::prelude::*;
use vstd::utf8::is_ascii_chars;

verus! {

/// A lowercase hexadecimal digit.
pub open spec fn is_lower_hex_digit(c: char) -> bool {
    ('0' <= c <= '9') || ('a' <= c <= 'f')
}

/// The hyphenated form of a random (version 4, RFC 9562 variant) UUID: 36
/// characters, hyphens at positions 8, 13, 18 and 23, lowercase hexadecimal
/// digits elsewhere, the version digit `4` at position 14 and one of `8`,
/// `9`, `a`, `b` at position 19.
pub open spec fn is_uuid_v4_text(s: Seq<char>) -> bool {
    &&& s.len() == 36
    &&& forall|i: int|
        0 <= i < 36 ==> if i == 8 || i == 13 || i == 18 || i == 23 {
            #[trigger] s[i] == '-'
        } else {
            is_lower_hex_digit(s[i])
        }
    &&& s[14] == '4'
    &&& (s[19] == '8' || s[19] == '9' || s[19] == 'a' || s[19] == 'b')
}

/// A hyphenated UUID is ASCII text.
pub proof fn lemma_uuid_is_ascii(s: Seq<char>)
    requires
        is_uuid_v4_text(s),
    ensures
        is_ascii_chars(s),
{
    assert forall|i: int| 0 <= i < s.len() implies '\0' <= #[trigger] s[i] <= '\u{7f}' by {
        if i == 8 || i == 13 || i == 18 || i == 23 {
        } else {
            assert(is_lower_hex_digit(s[i]));
        }
    }
}

/// `uuid::Uuid::new_v4` rendered with `to_string`. The value is random; what
/// holds of every outcome is the rendering and the fixed bits: `Display` for
/// `Uuid` writes the hyphenated lowercase form (`fmt.rs` of the crate:
/// `Display` calls `LowerHex`, which formats `as_hyphenated`), and `new_v4`
/// sets the version nibble to 4 and the two top variant bits to `10`
/// (`v4.rs`). Nothing is said of which identifier comes back, nor that two
/// calls differ.
#[verifier::external_body]
pub(crate) fn new_uuid_string() -> (id: String)
    ensures
        is_uuid_v4_text(id@),
{
    uuid::Uuid::new_v4().to_string()
}

/// `chrono::Utc::now`, as microseconds since the Unix epoch
/// (`DateTime::timestamp_micros`): the same instant as `Local::now`, without
/// the choice of a time zone. It reads the clock, so nothing is stated of the
/// value.
#[verifier::external_body]
pub(crate) fn now_micros() -> (t: i64) {
    chrono::Utc::now().timestamp_micros()
}

} // verus!

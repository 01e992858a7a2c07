//! Text operations on `str` that the record store and the terminal rely on:
//! comparison, prefix tests, trimming, decimal rendering of numbers, and the
//! byte-prefix that a QR code is built from.
use vstd::prelude::*;
use vstd::utf8::*;
use vstd::string::*;

verus! {

broadcast use vstd::utf8::group_utf8_lib;

// ---------------------------------------------------------------------------
// Whitespace and trimming
// ---------------------------------------------------------------------------

/// The characters with the Unicode `White_Space` property, which is what
/// `char::is_whitespace` and `str::trim` go by.
pub open spec fn is_white_space(c: char) -> bool {
    let u = c as u32;
    ||| 0x09 <= u <= 0x0d
    ||| u == 0x20
    ||| u == 0x85
    ||| u == 0xa0
    ||| u == 0x1680
    ||| 0x2000 <= u <= 0x200a
    ||| u == 0x2028
    ||| u == 0x2029
    ||| u == 0x202f
    ||| u == 0x205f
    ||| u == 0x3000
}

/// `s` without its leading whitespace.
pub open spec fn trim_start(s: Seq<char>) -> Seq<char>
    decreases s.len(),
{
    if s.len() > 0 && is_white_space(s[0]) {
        trim_start(s.drop_first())
    } else {
        s
    }
}

/// `s` without its trailing whitespace.
pub open spec fn trim_end(s: Seq<char>) -> Seq<char>
    decreases s.len(),
{
    if s.len() > 0 && is_white_space(s.last()) {
        trim_end(s.drop_last())
    } else {
        s
    }
}

/// `s` without leading and trailing whitespace.
pub open spec fn trimmed(s: Seq<char>) -> Seq<char> {
    trim_end(trim_start(s))
}

/// `str::trim`: the documentation says that it removes leading and trailing
/// whitespace as the Unicode `White_Space` property defines it. The contract
/// states exactly that, through `trimmed`.
#[verifier::external_body]
pub(crate) fn trim(s: &str) -> (r: &str)
    ensures
        r@ == trimmed(s@),
{
    s.trim()
}

// ---------------------------------------------------------------------------
// Comparison
// ---------------------------------------------------------------------------

/// Whether `a` and `b` hold the same characters.
pub fn str_eq(a: &str, b: &str) -> (r: bool)
    ensures
        r == (a@ == b@),
{
    a.to_owned() == b.to_owned()
}

/// `str::starts_with` with a string pattern: true exactly when `prefix` is a
/// prefix of `s`, as its documentation says.
#[verifier::external_body]
pub(crate) fn starts_with(s: &str, prefix: &str) -> (r: bool)
    ensures
        r == prefix@.is_prefix_of(s@),
{
    s.starts_with(prefix)
}

// ---------------------------------------------------------------------------
// Decimal rendering
// ---------------------------------------------------------------------------

/// The ASCII digit for `d` (0 to 9).
pub open spec fn digit_char(d: nat) -> char {
    ((48 + d) as u32) as char
}

/// The decimal digits of `n`, most significant first, without leading zeros
/// (`0` is the single digit "0").
pub open spec fn decimal_digits(n: nat) -> Seq<char>
    decreases n,
{
    if n < 10 {
        seq![digit_char(n)]
    } else {
        decimal_digits(n / 10).push(digit_char(n % 10))
    }
}

/// How `Display` renders an integer: an optional minus sign and the decimal
/// digits.
pub open spec fn decimal(n: int) -> Seq<char> {
    if n < 0 {
        seq!['-'] + decimal_digits((-n) as nat)
    } else {
        decimal_digits(n as nat)
    }
}

/// `i32::to_string` (through `Display`): the documentation renders an integer
/// in base 10 with a leading `-` for negative values; `decimal` states that.
#[verifier::external_body]
pub(crate) fn i32_to_decimal(n: i32) -> (r: String)
    ensures
        r@ == decimal(n as int),
{
    n.to_string()
}

// ---------------------------------------------------------------------------
// Concatenation and byte prefixes
// ---------------------------------------------------------------------------

/// The owned concatenation of `a` and `b`.
pub fn str_concat(a: &str, b: &str) -> (r: String)
    ensures
        r@ == a@ + b@,
{
    let s = a.to_owned();
    s.concat(b)
}

/// The characters that the first `n` bytes of the UTF-8 encoding of `s`
/// decode to: what `&s[..n]` gives.
pub open spec fn utf8_byte_prefix(s: Seq<char>, n: int) -> Seq<char> {
    decode_utf8(encode_utf8(s).subrange(0, n))
}

/// Whether `&s[..n]` is defined: `n` lies on a character boundary of the
/// UTF-8 encoding of `s` (and so within it).
pub open spec fn has_byte_boundary(s: Seq<char>, n: int) -> bool {
    is_char_boundary(encode_utf8(s), n)
}

/// `prefix` followed by the first `n` bytes of `s`, as
/// `format!("{prefix}{}", &s[..n])` builds it.
pub fn concat_byte_prefix(prefix: &str, s: &str, n: usize) -> (r: String)
    requires
        has_byte_boundary(s@, n as int),
    ensures
        r@ == prefix@ + utf8_byte_prefix(s@, n as int),
{
    let (head, _tail) = s.split_at(n);
    proof {
        assert(encode_utf8(head@) =~= encode_utf8(s@).subrange(0, n as int));
    }
    str_concat(prefix, head)
}

/// For ASCII text every byte is a character boundary and the byte prefix is
/// the character prefix.
pub proof fn lemma_ascii_byte_prefix(s: Seq<char>, n: int)
    requires
        is_ascii_chars(s),
        0 <= n <= s.len(),
    ensures
        has_byte_boundary(s, n),
        utf8_byte_prefix(s, n) == s.take(n),
{
    let bytes = encode_utf8(s);
    assert(valid_utf8(bytes));
    assert(bytes.len() == s.len());
    if n < s.len() {
        assert(bytes[n] == s[n] as u8);
        assert(!is_continuation_byte(bytes[n]));
        assert(is_char_boundary(bytes, n));
    } else {
        assert(is_char_boundary(bytes, bytes.len() as int));
    }
    let t = s.take(n);
    assert(is_ascii_chars(t));
    let tb = encode_utf8(t);
    assert(tb.len() == t.len());
    assert forall|i: int| 0 <= i < n implies #[trigger] tb[i] == bytes.subrange(0, n)[i] by {
        assert(tb[i] == t[i] as u8);
        assert(bytes[i] == s[i] as u8);
    }
    assert(tb =~= bytes.subrange(0, n));
    assert(decode_utf8(tb) == t);
}

} // verus!

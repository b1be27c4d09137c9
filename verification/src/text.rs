//! Small text helpers shared by the other modules.

use vstd::prelude::*;
use vstd::utf8::{decode_utf8, encode_utf8, valid_utf8};
use crate::dnd::{decimal_bytes, lemma_decimal_digits};

verus! {

/// The decimal digits of `n`, most significant first; `0` is the single digit `0`.
pub open spec fn decimal_chars(n: nat) -> Seq<char>
    decreases n,
{
    if n < 10 {
        seq![digit_char(n)]
    } else {
        decimal_chars(n / 10).push(digit_char(n % 10))
    }
}

/// The character of one decimal digit.
pub open spec fn digit_char(d: nat) -> char {
    if d == 0 {
        '0'
    } else if d == 1 {
        '1'
    } else if d == 2 {
        '2'
    } else if d == 3 {
        '3'
    } else if d == 4 {
        '4'
    } else if d == 5 {
        '5'
    } else if d == 6 {
        '6'
    } else if d == 7 {
        '7'
    } else if d == 8 {
        '8'
    } else {
        '9'
    }
}

/// The error of std for bytes that are not UTF-8.
#[verifier::external_type_specification]
#[verifier::external_body]
pub struct ExFromUtf8Error(std::string::FromUtf8Error);

/// The error of std for a text that is no number.
#[verifier::external_type_specification]
#[verifier::external_body]
pub struct ExParseIntError(std::num::ParseIntError);

/// Calls `String::from_utf8` of std. Trusted: it succeeds iff the bytes are
/// UTF-8, and the string then holds the characters that the bytes encode.
#[verifier::external_body]
pub(crate) fn string_from_utf8(bytes: Vec<u8>) -> (r: Result<String, std::string::FromUtf8Error>)
    ensures
        match r {
            Ok(s) => valid_utf8(bytes@) && s@ == decode_utf8(bytes@),
            Err(_) => !valid_utf8(bytes@),
        },
{
    String::from_utf8(bytes)
}

/// Calls `to_string` of std on the error of `String::from_utf8`: the error in
/// std's words. Nothing is claimed of the words.
#[verifier::external_body]
pub(crate) fn utf8_error_text(e: &std::string::FromUtf8Error) -> (r: String)
{
    e.to_string()
}

/// Calls `str::parse::<u64>` of std. Nothing is claimed of the outcome: it is
/// asked only for the words of its error.
#[verifier::external_body]
pub(crate) fn std_parse_u64(text: &str) -> (r: Result<u64, std::num::ParseIntError>)
{
    text.parse::<u64>()
}

/// Calls `to_string` of std on the error of `str::parse`: the error in std's
/// words. Nothing is claimed of the words.
#[verifier::external_body]
pub(crate) fn parse_error_text(e: &std::num::ParseIntError) -> (r: String)
{
    e.to_string()
}

/// A comma or a colon in UTF-8 text stands at a character boundary, and so
/// does the byte behind it.
pub proof fn lemma_mark_is_boundary(bytes: Seq<u8>, k: int)
    requires
        valid_utf8(bytes),
        0 <= k < bytes.len(),
        bytes[k] == 44 || bytes[k] == 58,
    ensures
        vstd::utf8::is_char_boundary(bytes, k),
        vstd::utf8::is_char_boundary(bytes.subrange(k, bytes.len() as int), 1),
        valid_utf8(bytes.subrange(k, bytes.len() as int)),
{
    broadcast use vstd::utf8::group_utf8_lib;

    vstd::utf8::is_char_boundary_iff_not_is_continuation_byte(bytes, k);
    vstd::utf8::valid_utf8_split(bytes, k);
    let tail = bytes.subrange(k, bytes.len() as int);
    if tail.len() == 1 {
        vstd::utf8::is_char_boundary_start_end_of_seq(tail);
    } else {
        assert(vstd::utf8::is_char_boundary(vstd::utf8::pop_first_scalar(tail), 0));
    }
}

/// Writes the decimal digits of `n` behind what `out` holds.
pub fn push_digits(n: u64, out: &mut Vec<u8>)
    ensures
        final(out)@ == old(out)@ + decimal_bytes(n as nat),
    decreases n,
{
    if n >= 10 {
        push_digits(n / 10, out);
    }
    out.push((48 + n % 10) as u8);
    assert(final(out)@ =~= old(out)@ + decimal_bytes(n as nat));
}

/// The number in decimal, without sign, padding or leading zeros.
pub fn decimal_string(n: u64) -> (r: String)
    ensures
        r@ == decimal_chars(n as nat),
{
    let mut digits: Vec<u8> = Vec::new();
    push_digits(n, &mut digits);
    proof {
        let chars = decimal_chars(n as nat);
        lemma_decimal_digits(n as nat);
        vstd::utf8::is_ascii_chars_encode_utf8(chars);
        assert(encode_utf8(chars) =~= decimal_bytes(n as nat));
        assert(digits@ =~= decimal_bytes(n as nat));
        vstd::utf8::encode_utf8_valid_utf8(chars);
        vstd::utf8::encode_utf8_decode_utf8(chars);
    }
    match string_from_utf8(digits) {
        Ok(text) => text,
        Err(_) => {
            assert(false);
            String::new()
        },
    }
}

/// Whether two string slices hold the same characters.
pub fn same_text(a: &str, b: &str) -> (r: bool)
    ensures
        r == (a@ == b@),
{
    let x = a.to_owned();
    let y = b.to_owned();
    x == y
}

/// Whether an owned string holds the characters of a slice.
pub fn text_is(a: &String, b: &str) -> (r: bool)
    ensures
        r == (a@ == b@),
{
    let y = b.to_owned();
    *a == y
}

/// `prefix` followed by `rest`.
pub fn join2(prefix: &str, rest: &str) -> (r: String)
    ensures
        r@ == prefix@ + rest@,
{
    let mut out = prefix.to_owned();
    out.append(rest);
    out
}

/// Three pieces in a row.
pub fn join3(a: &str, b: &str, c: &str) -> (r: String)
    ensures
        r@ == a@ + b@ + c@,
{
    let mut out = a.to_owned();
    out.append(b);
    out.append(c);
    out
}

/// A copy of an optional string.
pub fn clone_opt_string(s: &Option<String>) -> (r: Option<String>)
    ensures
        r == *s,
{
    match s {
        Some(t) => Some(t.clone()),
        None => None,
    }
}

/// The place of the first occurrence of a byte at or after `from`.
pub open spec fn first_byte(bytes: Seq<u8>, byte: u8, from: int) -> Option<int>
    decreases bytes.len() - from,
{
    if from < 0 || from >= bytes.len() {
        None
    } else if bytes[from] == byte {
        Some(from)
    } else {
        first_byte(bytes, byte, from + 1)
    }
}

/// Finds the first occurrence of a byte.
pub fn find_byte(bytes: &[u8], byte: u8) -> (r: Option<usize>)
    ensures
        match r {
            Some(k) => first_byte(bytes@, byte, 0) == Some(k as int) && k < bytes@.len() && bytes@[k as int]
                == byte,
            None => first_byte(bytes@, byte, 0) is None,
        },
{
    let mut i: usize = 0;
    while i < bytes.len()
        invariant
            i <= bytes@.len(),
            first_byte(bytes@, byte, 0) == first_byte(bytes@, byte, i as int),
        decreases bytes@.len() - i,
    {
        if bytes[i] == byte {
            return Some(i);
        }
        i += 1;
    }
    None
}

/// The characters that `str::trim` takes for white space: those with the
/// Unicode property White_Space.
pub open spec fn is_white_space(c: char) -> bool {
    let u = c as u32;
    ||| 0x09 <= u <= 0x0D
    ||| u == 0x20
    ||| u == 0x85
    ||| u == 0xA0
    ||| u == 0x1680
    ||| 0x2000 <= u <= 0x200A
    ||| u == 0x2028
    ||| u == 0x2029
    ||| u == 0x202F
    ||| u == 0x205F
    ||| u == 0x3000
}

/// A text without its leading white space.
pub open spec fn trim_start(s: Seq<char>) -> Seq<char>
    decreases s.len(),
{
    if s.len() > 0 && is_white_space(s.first()) {
        trim_start(s.drop_first())
    } else {
        s
    }
}

/// A text without its trailing white space.
pub open spec fn trim_end(s: Seq<char>) -> Seq<char>
    decreases s.len(),
{
    if s.len() > 0 && is_white_space(s.last()) {
        trim_end(s.drop_last())
    } else {
        s
    }
}

/// A text without white space at either end.
pub open spec fn trimmed(s: Seq<char>) -> Seq<char> {
    trim_end(trim_start(s))
}

/// Calls `str::trim` of std. Trusted: the result is the input without its
/// leading and trailing characters of the Unicode property White_Space.
#[verifier::external_body]
pub(crate) fn trim_text(s: &str) -> (r: &str)
    ensures
        r@ == trimmed(s@),
{
    s.trim()
}

} // verus!

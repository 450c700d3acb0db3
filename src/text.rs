//! Text-level policies applied to the engine's output: UTF-8 decoding and the
//! trailing-newline convention of the input.

use vstd::prelude::*;

verus! {

use vstd::utf8::{decode_utf8, valid_utf8};

#[verifier::external_type_specification]
#[verifier::external_body]
pub struct ExFromUtf8Error(std::string::FromUtf8Error);

/// The characters with the Unicode White_Space property.
pub open spec fn is_white_space(c: char) -> bool {
    let u = c as u32;
    (0x9 <= u <= 0xd) || u == 0x20 || u == 0x85 || u == 0xa0 || u == 0x1680 || (0x2000 <= u
        <= 0x200a) || u == 0x2028 || u == 0x2029 || u == 0x202f || u == 0x205f || u == 0x3000
}

/// `s` without its trailing white space.
pub open spec fn trim_trailing(s: Seq<char>) -> Seq<char>
    decreases s.len(),
{
    if s.len() > 0 && is_white_space(s.last()) {
        trim_trailing(s.drop_last())
    } else {
        s
    }
}

pub open spec fn ends_with_newline(s: Seq<char>) -> bool {
    s.len() > 0 && s.last() == '\n'
}

/// The text handed back for engine output `out` on input `input`: unchanged
/// where the input ends with a newline, else without trailing white space.
pub open spec fn normalized(input: Seq<char>, out: Seq<char>) -> Seq<char> {
    if ends_with_newline(input) {
        out
    } else {
        trim_trailing(out)
    }
}

pub proof fn lemma_trim_trailing_ends_clean(s: Seq<char>)
    ensures
        trim_trailing(s).len() > 0 ==> !is_white_space(trim_trailing(s).last()),
        !ends_with_newline(trim_trailing(s)),
    decreases s.len(),
{
    if s.len() > 0 && is_white_space(s.last()) {
        lemma_trim_trailing_ends_clean(s.drop_last());
    }
    if trim_trailing(s).len() > 0 && trim_trailing(s).last() == '\n' {
        assert(is_white_space('\n'));
    }
}

/// Relies on `str::trim_end`: it removes the trailing characters that have the
/// Unicode White_Space property and keeps the rest.
#[verifier::external_body]
fn trim_end<'a>(s: &'a str) -> (r: &'a str)
    ensures
        r@ == trim_trailing(s@),
{
    s.trim_end()
}

/// The bytes that a failed UTF-8 conversion was given, as
/// `FromUtf8Error::as_bytes` returns them.
pub uninterp spec fn utf8_error_bytes(e: std::string::FromUtf8Error) -> Seq<u8>;

/// Relies on `String::from_utf8`: it succeeds exactly on valid UTF-8, and then
/// holds the characters that the bytes encode; its error holds the bytes.
#[verifier::external_body]
pub(crate) fn string_from_utf8(bytes: Vec<u8>) -> (r: Result<String, std::string::FromUtf8Error>)
    ensures
        r is Ok <==> valid_utf8(bytes@),
        r is Ok ==> r->Ok_0@ == decode_utf8(bytes@),
        r is Err ==> utf8_error_bytes(r->Err_0) == bytes@,
{
    String::from_utf8(bytes)
}

/// Whether `s` ends with a newline character.
pub fn has_trailing_newline(s: &str) -> (r: bool)
    ensures
        r == ends_with_newline(s@),
{
    let n = s.unicode_len();
    if n == 0 {
        false
    } else {
        s.get_char(n - 1) == '\n'
    }
}

/// Applies the input's newline convention to the formatted text `out`: kept
/// as it is where `input` ends with a newline, else stripped of trailing white
/// space.
pub fn normalize_newline(input: &str, out: String) -> (r: String)
    ensures
        r@ == normalized(input@, out@),
{
    if has_trailing_newline(input) {
        out
    } else {
        trim_end(out.as_str()).to_string()
    }
}

} // verus!

//! Writing a search term into an address.

use vstd::prelude::*;
use vstd::string::StringSliceAdditionalSpecFns;
use crate::text::{chars_of, string_of};

verus! {

/// Whether the byte `b` is written into an address as it is: a letter or
/// digit of ASCII, or one of `-`, `.`, `_`, `~`.
pub open spec fn is_unreserved(b: u8) -> bool {
    ||| 0x30 <= b <= 0x39
    ||| 0x41 <= b <= 0x5a
    ||| 0x61 <= b <= 0x7a
    ||| b == 0x2d
    ||| b == 0x2e
    ||| b == 0x5f
    ||| b == 0x7e
}

/// The hexadecimal digit for a number below sixteen, in upper case.
pub open spec fn hex_digit(d: u8) -> char {
    if d < 10 {
        ((48 + d) as u8) as char
    } else {
        ((55 + d) as u8) as char
    }
}

/// How the byte `b` is written into an address: as it is, or as a percent
/// sign and its two hexadecimal digits.
pub open spec fn escaped_byte(b: u8) -> Seq<char> {
    if is_unreserved(b) {
        seq![b as char]
    } else {
        seq!['%', hex_digit(b / 16), hex_digit(b % 16)]
    }
}

/// The bytes `bytes`, each written as it goes into an address.
pub open spec fn percent_encoded(bytes: Seq<u8>) -> Seq<char>
    decreases bytes.len(),
{
    if bytes.len() == 0 {
        Seq::empty()
    } else {
        escaped_byte(bytes[0]) + percent_encoded(bytes.drop_first())
    }
}

/// The text `text` as it goes into an address: its UTF-8 bytes, each
/// written as it is or escaped.
pub open spec fn encoded_text(text: &str) -> Seq<char> {
    percent_encoded(text.spec_bytes())
}

/// `urlencoding::encode` percent-encodes every byte of the UTF-8 form of
/// the text except ASCII letters and digits and `-`, `_`, `.`, `~`; an
/// escaped byte is a percent sign and two upper-case hexadecimal digits.
#[verifier::external_body]
fn url_encode(text: &str) -> (encoded: String)
    ensures
        encoded@ == encoded_text(text),
{
    ::urlencoding::encode(text).into_owned()
}

/// Writes a search term as it goes into the query part of an address.
pub fn encode_query(query: &str) -> (encoded: String)
    ensures
        encoded@ == encoded_text(query),
{
    url_encode(query)
}

/// `s` with `%20` in place of every space.
pub open spec fn spaces_escaped(s: Seq<char>) -> Seq<char>
    decreases s.len(),
{
    if s.len() == 0 {
        Seq::empty()
    } else if s.last() == ' ' {
        spaces_escaped(s.drop_last()) + seq!['%', '2', '0']
    } else {
        spaces_escaped(s.drop_last()).push(s.last())
    }
}

/// Writes a search term into a path, with `%20` in place of every space.
pub fn escape_spaces(query: &str) -> (escaped: String)
    ensures
        escaped@ == spaces_escaped(query@),
{
    let chars = chars_of(query);
    let mut out: Vec<char> = Vec::new();
    let mut i: usize = 0;
    while i < chars.len()
        invariant
            i <= chars@.len(),
            out@ == spaces_escaped(chars@.take(i as int)),
        decreases chars@.len() - i,
    {
        assert(chars@.take(i + 1).drop_last() == chars@.take(i as int));
        let ghost before = out@;
        if chars[i] == ' ' {
            out.push('%');
            out.push('2');
            out.push('0');
            assert(out@ == before + seq!['%', '2', '0']);
        } else {
            out.push(chars[i]);
        }
        i += 1;
    }
    assert(chars@.take(i as int) == chars@);
    string_of(&out)
}

} // verus!

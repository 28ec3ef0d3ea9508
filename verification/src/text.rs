//! Bytes and strings at the edge of the native library: C strings on the way
//! in, UTF-8 on the way out.

use vstd::prelude::*;
use vstd::utf8::*;

verus! {

/// Whether one of the bytes is the NUL byte.
pub open spec fn has_nul(bytes: Seq<u8>) -> bool {
    exists|i: int| 0 <= i < bytes.len() && bytes[i] == 0u8
}

/// The bytes in front of the first NUL byte; all of them where there is none.
pub open spec fn before_nul(bytes: Seq<u8>) -> Seq<u8>
    decreases bytes.len(),
{
    if bytes.len() == 0 || bytes[0] == 0u8 {
        Seq::empty()
    } else {
        seq![bytes[0]] + before_nul(bytes.subrange(1, bytes.len() as int))
    }
}

/// The decimal digits of a number, without sign or leading zeros.
pub open spec fn decimal(n: nat) -> Seq<char>
    decreases n,
{
    if n < 10 {
        seq![digit(n)]
    } else {
        decimal(n / 10).push(digit(n % 10))
    }
}

/// The character of one decimal digit.
pub open spec fn digit(d: nat) -> char {
    if d == 0 {
        '0'
    } else if d == 1 {
        '1'
    } else if d == 2 {
        '2'
    } else if d == 3 {
        '3'
    } else if d == 4 {
        '4'
    } else if d == 5 {
        '5'
    } else if d == 6 {
        '6'
    } else if d == 7 {
        '7'
    } else if d == 8 {
        '8'
    } else {
        '9'
    }
}

/// What `String::from_utf8_lossy` makes of a byte sequence: the text that it
/// encodes, with the replacement character in place of each part that is not
/// UTF-8.
pub uninterp spec fn utf8_lossy(bytes: Seq<u8>) -> Seq<char>;

/// Whether one of the bytes is the NUL byte.
pub fn contains_nul(bytes: &[u8]) -> (found: bool)
    ensures
        found == has_nul(bytes@),
{
    let mut i: usize = 0;
    while i < bytes.len()
        invariant
            i <= bytes.len(),
            forall|j: int| 0 <= j < i ==> bytes[j] != 0u8,
        decreases bytes.len() - i,
    {
        if bytes[i] == 0 {
            return true;
        }
        i += 1;
    }
    false
}

/// The bytes as a C string: followed by a NUL byte, or nothing where a NUL
/// byte stands among them, since a C string cannot hold one.
pub fn c_string(bytes: &[u8]) -> (terminated: Option<Vec<u8>>)
    ensures
        terminated.is_none() == has_nul(bytes@),
        terminated matches Some(c) ==> c@ == bytes@.push(0u8),
{
    if contains_nul(bytes) {
        return None;
    }
    let mut c: Vec<u8> = Vec::with_capacity(bytes.len());
    c.extend_from_slice(bytes);
    c.push(0);
    Some(c)
}

/// The content of a C string that lies at the start of a buffer.
pub fn until_nul(bytes: &[u8]) -> (content: Vec<u8>)
    ensures
        content@ == before_nul(bytes@),
{
    let mut content: Vec<u8> = Vec::new();
    let mut i: usize = 0;
    assert(bytes@.subrange(0, bytes.len() as int) == bytes@);
    assert(content@ + before_nul(bytes@) == before_nul(bytes@));
    while i < bytes.len() && bytes[i] != 0
        invariant
            i <= bytes.len(),
            before_nul(bytes@) == content@ + before_nul(
                bytes@.subrange(i as int, bytes.len() as int),
            ),
        decreases bytes.len() - i,
    {
        proof {
            let rest = bytes@.subrange(i as int, bytes.len() as int);
            assert(rest.subrange(1, rest.len() as int) == bytes@.subrange(
                i + 1,
                bytes.len() as int,
            ));
            assert(content@.push(bytes[i as int]) + before_nul(rest.subrange(1, rest.len() as int))
                == content@ + before_nul(rest));
        }
        content.push(bytes[i]);
        i += 1;
    }
    proof {
        let rest = bytes@.subrange(i as int, bytes.len() as int);
        assert(before_nul(rest) == Seq::<u8>::empty());
        assert(content@ + Seq::<u8>::empty() == content@);
    }
    content
}

/// `String::from_utf8`: the text that the bytes encode where they are valid
/// UTF-8, and nothing where they are not.
#[verifier::external_body]
pub(crate) fn string_from_utf8(bytes: Vec<u8>) -> (text: Option<String>)
    ensures
        text.is_some() == valid_utf8(bytes@),
        text matches Some(s) ==> s@ == decode_utf8(bytes@),
{
    String::from_utf8(bytes).ok()
}

/// `String::from_utf8_lossy`: the text that the bytes encode where they are
/// valid UTF-8; where they are not, the text that std makes of them.
#[verifier::external_body]
pub(crate) fn string_from_utf8_lossy(bytes: &[u8]) -> (text: String)
    ensures
        text@ == utf8_lossy(bytes@),
        valid_utf8(bytes@) ==> text@ == decode_utf8(bytes@),
{
    String::from_utf8_lossy(bytes).into_owned()
}

/// `String::push_str`: appends the text.
#[verifier::external_body]
pub(crate) fn push_str(target: &mut String, text: &str)
    ensures
        final(target)@ == old(target)@ + text@,
{
    target.push_str(text)
}

/// `u64::to_string`: the number in decimal digits.
#[verifier::external_body]
pub(crate) fn u64_to_string(n: u64) -> (text: String)
    ensures
        text@ == decimal(n as nat),
{
    n.to_string()
}

} // verus!

//! Small verified text helpers: building strings character by character and
//! rendering unsigned numbers in decimal.

use vstd::prelude::*;

verus! {

/// Relies on `String::push`, which appends exactly one character to the
/// string.
#[verifier::external_body]
pub(crate) fn push_char(s: &mut String, c: char)
    ensures
        final(s)@ == old(s)@.push(c),
{
    s.push(c);
}

/// Whether every byte is in the ASCII range.
pub open spec fn spec_all_ascii(bytes: Seq<u8>) -> bool {
    forall|i: int| 0 <= i < bytes.len() ==> bytes[i] < 0x80
}

/// The characters that lossy UTF-8 decoding yields for a byte sequence:
/// valid UTF-8 decodes to its scalar values, invalid sequences become
/// replacement characters.  The result is a function of the bytes alone.
pub uninterp spec fn utf8_lossy(bytes: Seq<u8>) -> Seq<char>;

/// Relies on `String::from_utf8_lossy`: decodes UTF-8, substituting the
/// replacement character for invalid sequences, from the bytes alone; its
/// documentation guarantees that ASCII bytes decode to themselves.
#[verifier::external_body]
pub(crate) fn utf8_lossy_string(bytes: &[u8]) -> (s: String)
    ensures
        s@ == utf8_lossy(bytes@),
        spec_all_ascii(bytes@) ==> s@ == bytes@.map_values(|b: u8| b as char),
{
    String::from_utf8_lossy(bytes).into_owned()
}

/// The character for a single decimal digit.
pub open spec fn dec_digit(d: nat) -> char {
    ((0x30 + d) as u8) as char
}

/// The decimal rendering of a natural number, most significant digit first.
pub open spec fn dec_str(n: nat) -> Seq<char>
    decreases n,
{
    if n < 10 {
        seq![dec_digit(n)]
    } else {
        dec_str(n / 10).push(dec_digit(n % 10))
    }
}

/// Renders `n` in decimal.
pub fn u64_to_string(n: u64) -> (s: String)
    ensures
        s@ == dec_str(n as nat),
    decreases n,
{
    let d: u8 = (n % 10) as u8;
    let c: char = (0x30 + d) as char;
    proof {
        assert(c == dec_digit((n % 10) as nat));
    }
    if n < 10 {
        let mut s = String::new();
        push_char(&mut s, c);
        proof {
            assert(s@ =~= dec_str(n as nat));
        }
        s
    } else {
        let mut s = u64_to_string(n / 10);
        push_char(&mut s, c);
        proof {
            assert(s@ =~= dec_str(n as nat));
        }
        s
    }
}

} // verus!

//! Hexadecimal decoding of identifiers (commitments arrive on the wire as
//! hex-encoded strings).
use vstd::prelude::*;

verus! {

/// A string failed to decode as hexadecimal bytes.
#[derive(Clone, Copy, PartialEq, Eq, Structural, Debug)]
pub struct HexError;

pub open spec fn is_hex_digit(c: char) -> bool {
    ('0' as u32 <= c as u32 && c as u32 <= '9' as u32) || ('a' as u32 <= c as u32 && c as u32
        <= 'f' as u32) || ('A' as u32 <= c as u32 && c as u32 <= 'F' as u32)
}

pub open spec fn hex_digit_val(c: char) -> u8 {
    if '0' as u32 <= c as u32 && c as u32 <= '9' as u32 {
        (c as u32 - '0' as u32) as u8
    } else if 'a' as u32 <= c as u32 && c as u32 <= 'f' as u32 {
        (c as u32 - 'a' as u32 + 10) as u8
    } else {
        (c as u32 - 'A' as u32 + 10) as u8
    }
}

pub open spec fn all_hex_digits(s: Seq<char>) -> bool {
    forall|i: int| 0 <= i < s.len() ==> is_hex_digit(s[i])
}

/// A character sequence is a well-formed hex encoding when it has even
/// length and every character is a hex digit.
pub open spec fn is_hex_encoding(s: Seq<char>) -> bool {
    s.len() % 2 == 0 && all_hex_digits(s)
}

/// The bytes denoted by a well-formed hex encoding: two digits per byte,
/// high nibble first.
pub open spec fn hex_bytes(s: Seq<char>) -> Seq<u8> {
    Seq::new(
        (s.len() / 2) as nat,
        |i: int| (16 * hex_digit_val(s[2 * i]) + hex_digit_val(s[2 * i + 1])) as u8,
    )
}

/// The value of one hex digit, or `None` if the character is not one.
pub fn hex_val(c: char) -> (r: Option<u8>)
    ensures
        r is Some <==> is_hex_digit(c),
        r matches Some(b) ==> b == hex_digit_val(c) && b < 16,
{
    let u = c as u32;
    if '0' as u32 <= u && u <= '9' as u32 {
        Some((u - '0' as u32) as u8)
    } else if 'a' as u32 <= u && u <= 'f' as u32 {
        Some((u - 'a' as u32 + 10) as u8)
    } else if 'A' as u32 <= u && u <= 'F' as u32 {
        Some((u - 'A' as u32 + 10) as u8)
    } else {
        None
    }
}

/// Decode a hex string into bytes. Succeeds exactly on well-formed hex
/// encodings (even length, hex digits only) and then returns the bytes
/// the string denotes.
pub fn from_hex(s: &str) -> (r: Result<Vec<u8>, HexError>)
    ensures
        r matches Ok(v) ==> is_hex_encoding(s@) && v@ == hex_bytes(s@),
        r is Err <==> !is_hex_encoding(s@),
{
    let n = s.unicode_len();
    if n % 2 != 0 {
        return Err(HexError);
    }
    let mut v: Vec<u8> = Vec::new();
    let mut i: usize = 0;
    while i < n
        invariant
            i % 2 == 0,
            i <= n,
            n == s@.len(),
            n % 2 == 0,
            forall|j: int| 0 <= j < i ==> is_hex_digit(s@[j]),
            v@.len() == i / 2,
            forall|j: int|
                0 <= j < v@.len() ==> v@[j] == (16 * hex_digit_val(s@[2 * j]) + hex_digit_val(
                    s@[2 * j + 1],
                )) as u8,
        decreases n - i,
    {
        let c0 = s.get_char(i);
        let c1 = s.get_char(i + 1);
        let v0 = match hex_val(c0) {
            Some(b) => b,
            None => {
                return Err(HexError);
            },
        };
        let v1 = match hex_val(c1) {
            Some(b) => b,
            None => {
                return Err(HexError);
            },
        };
        v.push(16 * v0 + v1);
        i = i + 2;
    }
    proof {
        assert(v@ =~= hex_bytes(s@));
    }
    Ok(v)
}

} // verus!

//! Hexadecimal text, as used for addresses, identifiers and raw transactions.
use vstd::prelude::*;

verus! {

/// An ASCII hex digit, in either case.
pub open spec fn is_hex_digit(c: u8) -> bool {
    (48 <= c <= 57) || (97 <= c <= 102) || (65 <= c <= 70)
}

/// The value of an ASCII hex digit.
pub open spec fn digit_value(c: u8) -> int {
    if 48 <= c <= 57 {
        c - 48
    } else if 97 <= c <= 102 {
        c - 87
    } else {
        c - 55
    }
}

/// Text that decodes to bytes: an even number of hex digits.
pub open spec fn is_hex_text(s: Seq<u8>) -> bool {
    s.len() % 2 == 0 && forall|i: int| 0 <= i < s.len() ==> #[trigger] is_hex_digit(s[i])
}

/// The bytes that hex text stands for, two digits per byte, high nibble first.
pub open spec fn hex_decoded(s: Seq<u8>) -> Seq<u8> {
    Seq::new(
        (s.len() / 2) as nat,
        |i: int| (16 * digit_value(s[2 * i]) + digit_value(s[2 * i + 1])) as u8,
    )
}

/// The lower-case digit for a value below sixteen.
pub open spec fn digit_char(n: int) -> char {
    seq!['0', '1', '2', '3', '4', '5', '6', '7', '8', '9', 'a', 'b', 'c', 'd', 'e', 'f'][n]
}

/// Bytes written as lower-case hex text, two digits per byte, high nibble first.
pub open spec fn hex_text(b: Seq<u8>) -> Seq<char> {
    Seq::new(
        2 * b.len(),
        |i: int|
            if i % 2 == 0 {
                digit_char((b[i / 2] / 16) as int)
            } else {
                digit_char((b[i / 2] % 16) as int)
            },
    )
}

/// Bytes written as `0x` and their hex text.
pub open spec fn prefixed_hex_text(b: Seq<u8>) -> Seq<char> {
    seq!['0', 'x'] + hex_text(b)
}

/// Writes bytes as `0x` followed by two lower-case hex digits per byte.
pub fn prefixed_hex(b: &[u8]) -> (r: String)
    ensures
        r@ == prefixed_hex_text(b@),
{
    let mut r = "0x".to_owned();
    let digits = encode_hex(b);
    r.append(digits.as_str());
    proof {
        reveal_strlit("0x");
    }
    r
}

/// Whether two byte strings are equal.
pub fn same_bytes(a: &[u8], b: &[u8]) -> (r: bool)
    ensures
        r == (a@ == b@),
{
    if a.len() != b.len() {
        return false;
    }
    let mut i: usize = 0;
    while i < a.len()
        invariant
            a@.len() == b@.len(),
            0 <= i <= a@.len(),
            forall|j: int| 0 <= j < i ==> a@[j] == b@[j],
        decreases a@.len() - i,
    {
        if a[i] != b[i] {
            return false;
        }
        i = i + 1;
    }
    assert(a@ =~= b@);
    true
}

/// Relies on hex::encode: each byte becomes two lower-case digits, high nibble first.
#[verifier::external_body]
pub(crate) fn encode_hex(b: &[u8]) -> (r: String)
    ensures
        r@ == hex_text(b@),
{
    hex::encode(b)
}

/// Relies on hex::decode: it accepts exactly an even number of digits of either
/// case and yields one byte per pair.
#[verifier::external_body]
pub(crate) fn decode_hex(s: &[u8]) -> (r: Option<Vec<u8>>)
    ensures
        r.is_some() <==> is_hex_text(s@),
        r.is_some() ==> r.unwrap()@ == hex_decoded(s@),
{
    hex::decode(s).ok()
}

} // verus!

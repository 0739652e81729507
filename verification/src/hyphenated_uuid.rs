//! UUIDs in their hyphenated form.

use uuid::Uuid;
use vstd::prelude::*;

verus! {

/// The value of the hexadecimal digit `c`, if it is one.
pub open spec fn hex_value(c: char) -> Option<int> {
    if '0' <= c <= '9' {
        Some(c as int - '0' as int)
    } else if 'a' <= c <= 'f' {
        Some(c as int - 'a' as int + 10)
    } else if 'A' <= c <= 'F' {
        Some(c as int - 'A' as int + 10)
    } else {
        None
    }
}

/// A hyphen stands at place `i` of a UUID.
pub open spec fn is_hyphen_place(i: int) -> bool {
    i == 8 || i == 13 || i == 18 || i == 23
}

/// `s` is a hyphenated UUID: 8, 4, 4, 4 and 12 hexadecimal digits.
pub open spec fn is_hyphenated(s: Seq<char>) -> bool {
    &&& s.len() == 36
    &&& forall|i: int|
        0 <= i < 36 ==> if is_hyphen_place(i) {
            #[trigger] s[i] == '-'
        } else {
            hex_value(s[i]) is Some
        }
}

/// The place of the first digit of octet `k`, which is behind the hyphens that
/// stand before it.
pub open spec fn digit_place(k: int) -> int {
    2 * k + if k < 4 {
        0int
    } else if k < 6 {
        1
    } else if k < 8 {
        2
    } else if k < 10 {
        3
    } else {
        4
    }
}

/// The octets that the hyphenated UUID `s` stands for.
pub open spec fn uuid_octets(s: Seq<char>) -> Seq<u8> {
    Seq::new(
        16,
        |k: int|
            (16 * hex_value(s[digit_place(k)])->Some_0 + hex_value(s[digit_place(k) + 1])->Some_0)
                as u8,
    )
}

/// Calls `Uuid::parse_str` and `Uuid::as_bytes`. Of `parse_str` this claims that
/// it accepts every hyphenated UUID, and reads each pair of its digits as one
/// octet.
#[verifier::external_body]
pub(crate) fn parse_hyphenated(s: &str) -> (r: Vec<u8>)
    requires
        is_hyphenated(s@),
    ensures
        r@ == uuid_octets(s@),
{
    Uuid::parse_str(s).expect("UUID parsing failed").as_bytes().to_vec()
}

} // verus!

//! Verified `application/x-www-form-urlencoded` byte serialization, used to
//! carry a GitLab project path (which holds a literal `/`) safely as a
//! single URL path component: unreserved bytes pass unchanged, a space
//! becomes `+`, every other byte becomes `%XX` with uppercase hex digits.

use vstd::prelude::*;
use vstd::string::StringSliceAdditionalSpecFns;
use vstd::string::StrSliceExecFns;
use vstd::utf8::encode_utf8;

verus! {

/// Bytes the serialization keeps unchanged: `*`, `-`, `.`, `_`, digits and
/// ASCII letters.
pub open spec fn unreserved_byte(b: u8) -> bool {
    b == 42 || b == 45 || b == 46 || (48 <= b && b <= 57) || (65 <= b && b <= 90) || b == 95 || (
    97 <= b && b <= 122)
}

/// The uppercase hex character for a value below sixteen.
pub open spec fn hex_digit_char(d: int) -> char {
    if d == 0 {
        '0'
    } else if d == 1 {
        '1'
    } else if d == 2 {
        '2'
    } else if d == 3 {
        '3'
    } else if d == 4 {
        '4'
    } else if d == 5 {
        '5'
    } else if d == 6 {
        '6'
    } else if d == 7 {
        '7'
    } else if d == 8 {
        '8'
    } else if d == 9 {
        '9'
    } else if d == 10 {
        'A'
    } else if d == 11 {
        'B'
    } else if d == 12 {
        'C'
    } else if d == 13 {
        'D'
    } else if d == 14 {
        'E'
    } else {
        'F'
    }
}

/// How one byte is serialized.
pub open spec fn encoded_byte(b: u8) -> Seq<char> {
    if unreserved_byte(b) {
        seq![b as char]
    } else if b == 32 {
        seq!['+']
    } else {
        seq!['%', hex_digit_char(b as int / 16), hex_digit_char(b as int % 16)]
    }
}

/// The serialization of a whole byte sequence, in order.
pub open spec fn form_encoded(bs: Seq<u8>) -> Seq<char>
    decreases bs.len(),
{
    if bs.len() == 0 {
        Seq::<char>::empty()
    } else {
        form_encoded(bs.drop_last()) + encoded_byte(bs.last())
    }
}

/// Serializing never shortens: every byte yields at least one character.
pub proof fn lemma_form_encoded_len(bs: Seq<u8>)
    ensures
        form_encoded(bs).len() >= bs.len(),
    decreases bs.len(),
{
    if bs.len() > 0 {
        lemma_form_encoded_len(bs.drop_last());
    }
}

/// UTF-8 never shortens either: every character takes at least one byte.
pub proof fn lemma_encode_utf8_len(s: Seq<char>)
    ensures
        encode_utf8(s).len() >= s.len(),
    decreases s.len(),
{
    if s.len() > 0 {
        lemma_encode_utf8_len(s.drop_first());
    }
}

/// Relies on `String::from_utf8`: a vector of ASCII bytes decodes to the
/// string of exactly those characters.
#[verifier::external_body]
fn string_from_ascii(v: Vec<u8>) -> (r: String)
    requires
        forall|i: int| 0 <= i < v@.len() ==> v@[i] < 128,
    ensures
        r@ == v@.map(|_i: int, b: u8| b as char),
{
    String::from_utf8(v).unwrap()
}

/// Serializes the UTF-8 bytes of `s` as a form-urlencoded string.
pub fn form_urlencode(s: &str) -> (r: String)
    ensures
        r@ == form_encoded(encode_utf8(s@)),
{
    let bytes = s.as_bytes_vec();
    let ghost bs = bytes@;
    let mut out: Vec<u8> = Vec::new();
    let mut i: usize = 0;
    proof {
        assert(out@.map(|_j: int, b: u8| b as char) =~= form_encoded(bs.take(0)));
    }
    while i < bytes.len()
        invariant
            i <= bytes.len(),
            bytes@ == bs,
            forall|j: int| 0 <= j < out@.len() ==> out@[j] < 128,
            out@.map(|_j: int, b: u8| b as char) == form_encoded(bs.take(i as int)),
        decreases bytes.len() - i,
    {
        let b = bytes[i];
        proof {
            assert(bs.take(i + 1).drop_last() =~= bs.take(i as int));
            assert(bs.take(i + 1).last() == bs[i as int]);
        }
        if b == 42 || b == 45 || b == 46 || (48 <= b && b <= 57) || (65 <= b && b <= 90) || b == 95
            || (97 <= b && b <= 122) {
            out.push(b);
            proof {
                assert(out@.map(|_j: int, b2: u8| b2 as char) =~= form_encoded(bs.take(i + 1)));
            }
        } else if b == 32 {
            out.push(43);
            proof {
                assert(43u8 as char == '+');
                assert(out@.map(|_j: int, b2: u8| b2 as char) =~= form_encoded(bs.take(i + 1)));
            }
        } else {
            let hi = b / 16;
            let lo = b % 16;
            let hi_c: u8 = if hi < 10 {
                48 + hi
            } else {
                55 + hi
            };
            let lo_c: u8 = if lo < 10 {
                48 + lo
            } else {
                55 + lo
            };
            out.push(37);
            out.push(hi_c);
            out.push(lo_c);
            proof {
                assert(37u8 as char == '%');
                assert(hi_c as char == hex_digit_char(b as int / 16));
                assert(lo_c as char == hex_digit_char(b as int % 16));
                assert(out@.map(|_j: int, b2: u8| b2 as char) =~= form_encoded(bs.take(i + 1)));
            }
        }
        i += 1;
    }
    proof {
        assert(bs.take(bytes@.len() as int) =~= bs);
    }
    string_from_ascii(out)
}

} // verus!

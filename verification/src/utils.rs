//! Text conversions for header fields: a four-byte tag rendered as a
//! string, and a signed integer rendered in decimal.

use vstd::prelude::*;
use vstd::slice::slice_to_vec;
use vstd::utf8::{
    decode_utf8, encode_utf8, encode_utf8_decode_utf8, encode_utf8_valid_utf8, is_ascii_chars,
    is_ascii_chars_encode_utf8, valid_utf8,
};

use crate::error::InvalidWavHeaderError;

verus! {

/// Relies on `String::from_utf8`: returns the string decoded from the
/// bytes exactly when they are a valid UTF-8 encoding, and fails on any
/// other input.
#[verifier::external_body]
fn string_from_utf8_bytes(v: Vec<u8>) -> (r: Result<String, InvalidWavHeaderError>)
    ensures
        r is Ok <==> valid_utf8(v@),
        r is Ok ==> (r->Ok_0)@ == decode_utf8(v@),
{
    match String::from_utf8(v) {
        Ok(s) => Ok(s),
        Err(_) => Err(InvalidWavHeaderError),
    }
}

/// Renders a four-byte tag as text. Succeeds exactly when the bytes are
/// a valid UTF-8 encoding and then yields the decoded characters.
pub fn convert_to_string(arr: [u8; 4]) -> (r: Result<String, InvalidWavHeaderError>)
    ensures
        r is Ok <==> valid_utf8(arr@),
        r is Ok ==> (r->Ok_0)@ == decode_utf8(arr@),
{
    let v: Vec<u8> = slice_to_vec(arr.as_slice());
    string_from_utf8_bytes(v)
}

/// The decimal digit character for `d`.
pub open spec fn digit_char(d: int) -> char
    recommends
        0 <= d < 10,
{
    if d == 0 {
        '0'
    } else if d == 1 {
        '1'
    } else if d == 2 {
        '2'
    } else if d == 3 {
        '3'
    } else if d == 4 {
        '4'
    } else if d == 5 {
        '5'
    } else if d == 6 {
        '6'
    } else if d == 7 {
        '7'
    } else if d == 8 {
        '8'
    } else {
        '9'
    }
}

/// The decimal digits of a non-negative integer, most significant first,
/// with no leading zero except for zero itself.
pub open spec fn decimal_chars(n: int) -> Seq<char>
    recommends
        n >= 0,
    decreases n,
{
    if n < 10 {
        seq![digit_char(n)]
    } else {
        decimal_chars(n / 10).push(digit_char(n % 10))
    }
}

/// The decimal rendering of a signed integer: the digits of its
/// magnitude, preceded by a minus sign when it is negative.
pub open spec fn signed_decimal_chars(v: int) -> Seq<char> {
    if v >= 0 {
        decimal_chars(v)
    } else {
        seq!['-'] + decimal_chars(-v)
    }
}

/// The ASCII byte of the decimal digit character for `d`.
pub open spec fn digit_byte(d: int) -> u8
    recommends
        0 <= d < 10,
{
    (48 + d) as u8
}

/// The ASCII bytes of the decimal digits of a non-negative integer.
pub open spec fn decimal_bytes(n: int) -> Seq<u8>
    recommends
        n >= 0,
    decreases n,
{
    if n < 10 {
        seq![digit_byte(n)]
    } else {
        decimal_bytes(n / 10).push(digit_byte(n % 10))
    }
}

/// The ASCII bytes of the decimal rendering of a signed integer.
pub open spec fn signed_decimal_bytes(v: int) -> Seq<u8> {
    if v >= 0 {
        decimal_bytes(v)
    } else {
        seq![45u8] + decimal_bytes(-v)
    }
}

/// The digit characters are ASCII and their bytes are their UTF-8
/// encoding.
proof fn lemma_decimal_bytes_encode(n: int)
    requires
        n >= 0,
    ensures
        is_ascii_chars(decimal_chars(n)),
        decimal_bytes(n) =~= encode_utf8(decimal_chars(n)),
    decreases n,
{
    if n < 10 {
        let chars = decimal_chars(n);
        assert(is_ascii_chars(chars)) by {
            assert(chars[0] == digit_char(n));
            assert('\0' <= digit_char(n) <= '\u{7f}');
        }
        is_ascii_chars_encode_utf8(chars);
        assert(digit_char(n) as u8 == digit_byte(n));
        assert(decimal_bytes(n) =~= encode_utf8(chars));
    } else {
        lemma_decimal_bytes_encode(n / 10);
        let prefix = decimal_chars(n / 10);
        let chars = decimal_chars(n);
        assert(chars =~= prefix + seq![digit_char(n % 10)]);
        assert(is_ascii_chars(chars)) by {
            assert(forall|i: int|
                0 <= i < prefix.len() ==> chars[i] == prefix[i] && '\0' <= #[trigger] prefix[i]
                    <= '\u{7f}');
            assert(chars[chars.len() - 1] == digit_char(n % 10));
            assert('\0' <= digit_char(n % 10) <= '\u{7f}');
        }
        is_ascii_chars_encode_utf8(prefix);
        is_ascii_chars_encode_utf8(chars);
        assert(digit_char(n % 10) as u8 == digit_byte(n % 10));
        assert(decimal_bytes(n) =~= encode_utf8(chars)) by {
            assert(decimal_bytes(n) =~= decimal_bytes(n / 10) + seq![digit_byte(n % 10)]);
            assert(forall|i: int|
                0 <= i < prefix.len() ==> decimal_bytes(n / 10)[i] == encode_utf8(prefix)[i]
                    && #[trigger] encode_utf8(prefix)[i] == prefix[i] as u8 && chars[i]
                    == prefix[i]);
        }
    }
}

/// The rendering of a signed integer is ASCII and its bytes are its
/// UTF-8 encoding.
proof fn lemma_signed_decimal_bytes_encode(v: int)
    ensures
        is_ascii_chars(signed_decimal_chars(v)),
        signed_decimal_bytes(v) =~= encode_utf8(signed_decimal_chars(v)),
{
    if v >= 0 {
        lemma_decimal_bytes_encode(v);
    } else {
        lemma_decimal_bytes_encode(-v);
        let mag_chars = decimal_chars(-v);
        let chars = signed_decimal_chars(v);
        assert(chars =~= seq!['-'] + mag_chars);
        assert(is_ascii_chars(chars)) by {
            assert(chars[0] == '-' && '\0' <= '-' <= '\u{7f}');
            assert(forall|i: int|
                1 <= i < chars.len() ==> chars[i] == mag_chars[i - 1] && '\0'
                    <= #[trigger] mag_chars[i - 1] <= '\u{7f}');
        }
        is_ascii_chars_encode_utf8(mag_chars);
        is_ascii_chars_encode_utf8(chars);
        assert('-' as u8 == 45);
        assert(signed_decimal_bytes(v) =~= encode_utf8(chars)) by {
            assert(signed_decimal_bytes(v) =~= seq![45u8] + decimal_bytes(-v));
            assert(forall|i: int|
                0 <= i < mag_chars.len() ==> decimal_bytes(-v)[i] == encode_utf8(mag_chars)[i]
                    && #[trigger] encode_utf8(mag_chars)[i] == mag_chars[i] as u8 && chars[i + 1]
                    == mag_chars[i]);
        }
    }
}

/// The ASCII digit bytes of `m` in decimal, most significant first.
fn decimal_digits(m: u64) -> (digits: Vec<u8>)
    ensures
        digits@ == decimal_bytes(m as int),
{
    let ghost m0: int = m as int;
    let mut m: u64 = m;
    let mut digits: Vec<u8> = Vec::new();
    let d0: u8 = (m % 10) as u8 + 48;
    digits.push(d0);
    m = m / 10;
    proof {
        if m > 0 {
            assert(decimal_bytes(m0) =~= decimal_bytes(m as int) + digits@);
        } else {
            assert(decimal_bytes(m0) =~= digits@);
        }
    }
    while m > 0
        invariant
            m > 0 ==> decimal_bytes(m0) == decimal_bytes(m as int) + digits@,
            m == 0 ==> decimal_bytes(m0) == digits@,
        decreases m,
    {
        let d: u8 = (m % 10) as u8 + 48;
        digits.insert(0, d);
        m = m / 10;
        proof {
            let prev = (m * 10 + (d - 48)) as int;
            if m > 0 {
                assert(decimal_bytes(prev) =~= decimal_bytes(m as int) + seq![digit_byte(prev % 10)]);
                assert(decimal_bytes(m0) =~= decimal_bytes(m as int) + digits@);
            } else {
                assert(decimal_bytes(prev) =~= seq![digit_byte(prev)]);
                assert(decimal_bytes(m0) =~= digits@);
            }
        }
    }
    digits
}

/// Renders an unsigned integer in decimal, most significant digit
/// first.
pub fn unsigned_decimal_string(m: u64) -> (s: String)
    ensures
        s@ == decimal_chars(m as int),
{
    let digits = decimal_digits(m);
    proof {
        lemma_decimal_bytes_encode(m as int);
        broadcast use encode_utf8_valid_utf8, encode_utf8_decode_utf8;

        assert(valid_utf8(digits@));
        assert(decode_utf8(digits@) == decimal_chars(m as int));
    }
    match string_from_utf8_bytes(digits) {
        Ok(s) => s,
        Err(_) => {
            proof {
                assert(false);
            }
            String::new()
        },
    }
}

/// Renders a signed integer in decimal: the digits of its magnitude,
/// most significant first, preceded by a minus sign when it is negative.
/// Always succeeds.
pub fn convert_to_integer(val: i32) -> (r: Result<String, InvalidWavHeaderError>)
    ensures
        r is Ok,
        (r->Ok_0)@ == signed_decimal_chars(val as int),
{
    let neg = val < 0;
    let m: u64 = if neg {
        (-(val as i64)) as u64
    } else {
        val as u64
    };
    let mut digits = decimal_digits(m);
    let mut out: Vec<u8> = Vec::new();
    if neg {
        out.push(45);
    }
    out.append(&mut digits);
    proof {
        assert(m as int == if val >= 0 { val as int } else { -(val as int) });
        assert(out@ =~= signed_decimal_bytes(val as int));
        lemma_signed_decimal_bytes_encode(val as int);
        broadcast use encode_utf8_valid_utf8, encode_utf8_decode_utf8;

        assert(valid_utf8(out@));
        assert(decode_utf8(out@) == signed_decimal_chars(val as int));
    }
    string_from_utf8_bytes(out)
}

} // verus!


//! Lower-case hexadecimal encoding and decoding of byte strings.
//!
//! Configuration values (contract address, function identifiers) and manual
//! submissions arrive hex-encoded; the mismatch report renders hashes the
//! same way.  Both directions are implemented here and verified against a
//! digit-level specification.

use vstd::prelude::*;

verus! {

/// An ASCII byte that is a lower-case hexadecimal digit.
pub open spec fn is_hex_digit(b: u8) -> bool {
    (48 <= b <= 57) || (97 <= b <= 102)
}

/// The value of a lower-case hexadecimal digit.
pub open spec fn hex_val(b: u8) -> u8
    recommends
        is_hex_digit(b),
{
    if 48 <= b <= 57 {
        (b - 48) as u8
    } else if 97 <= b <= 102 {
        (b - 87) as u8
    } else {
        0
    }
}

/// The lower-case hexadecimal digit for a value below sixteen.
pub open spec fn hex_digit(v: u8) -> u8
    recommends
        v < 16,
{
    if v < 10 {
        (v + 48) as u8
    } else {
        (v + 87) as u8
    }
}

/// A byte string made only of lower-case hexadecimal digits.
pub open spec fn all_hex_digits(s: Seq<u8>) -> bool {
    forall|i: int| 0 <= i < s.len() ==> is_hex_digit(s[i])
}

/// The byte encoded by the digit pair at position `i` of `s`.
pub open spec fn hex_pair(s: Seq<u8>, i: int) -> u8 {
    (hex_val(s[2 * i]) * 16 + hex_val(s[2 * i + 1])) as u8
}

/// The bytes encoded by a hexadecimal string of even length.
pub open spec fn hex_bytes(s: Seq<u8>) -> Seq<u8> {
    Seq::new(s.len() / 2, |i: int| hex_pair(s, i))
}

/// The two lower-case digits encoding one byte.
pub open spec fn hex_digits_of(b: u8) -> Seq<u8> {
    seq![hex_digit(b / 16), hex_digit((b % 16) as u8)]
}

/// The lower-case hexadecimal encoding of a byte string.
pub open spec fn hex_encoding(bytes: Seq<u8>) -> Seq<u8> {
    Seq::new(bytes.len() * 2, |i: int| {
        if i % 2 == 0 {
            hex_digit(bytes[i / 2] / 16)
        } else {
            hex_digit((bytes[i / 2] % 16) as u8)
        }
    })
}

/// Decodes a lower-case hexadecimal string; `None` exactly when the input
/// has odd length or holds a byte that is no lower-case hexadecimal digit.
pub fn hex_decode(input: &Vec<u8>) -> (r: Option<Vec<u8>>)
    ensures
        r is Some <==> (input@.len() % 2 == 0 && all_hex_digits(input@)),
        r matches Some(v) ==> v@ == hex_bytes(input@),
{
    if input.len() % 2 != 0 {
        return None;
    }
    let mut out: Vec<u8> = Vec::new();
    let mut i: usize = 0;
    while i < input.len()
        invariant
            i % 2 == 0,
            i <= input@.len(),
            input@.len() % 2 == 0,
            forall|j: int| 0 <= j < i ==> is_hex_digit(input@[j]),
            out@.len() == i / 2,
            forall|k: int| 0 <= k < out@.len() ==> out@[k] == hex_pair(input@, k),
        decreases input@.len() - i,
    {
        let hi = input[i];
        let lo = input[i + 1];
        let hv = match hex_val_exec(hi) {
            Some(v) => v,
            None => {
                return None;
            },
        };
        let lv = match hex_val_exec(lo) {
            Some(v) => v,
            None => {
                return None;
            },
        };
        out.push(hv * 16 + lv);
        i = i + 2;
    }
    proof {
        assert(out@ =~= hex_bytes(input@));
    }
    Some(out)
}

/// Encodes a byte string as lower-case hexadecimal.
pub fn hex_encode(bytes: &Vec<u8>) -> (r: Vec<u8>)
    ensures
        r@ == hex_encoding(bytes@),
{
    let mut out: Vec<u8> = Vec::new();
    let mut i: usize = 0;
    while i < bytes.len()
        invariant
            i <= bytes@.len(),
            out@.len() == 2 * i,
            forall|j: int| 0 <= j < out@.len() ==> out@[j] == hex_encoding(bytes@)[j],
        decreases bytes@.len() - i,
    {
        let b = bytes[i];
        out.push(hex_digit_exec(b / 16));
        out.push(hex_digit_exec(b % 16));
        i = i + 1;
    }
    proof {
        assert(out@ =~= hex_encoding(bytes@));
    }
    out
}

/// The value of a lower-case hexadecimal digit; `None` on any other byte.
fn hex_val_exec(b: u8) -> (r: Option<u8>)
    ensures
        r is Some <==> is_hex_digit(b),
        r matches Some(v) ==> v == hex_val(b) && v < 16,
{
    if 48 <= b && b <= 57 {
        Some(b - 48)
    } else if 97 <= b && b <= 102 {
        Some(b - 87)
    } else {
        None
    }
}

/// The lower-case hexadecimal digit for a value below sixteen.
fn hex_digit_exec(v: u8) -> (r: u8)
    requires
        v < 16,
    ensures
        r == hex_digit(v),
{
    if v < 10 {
        v + 48
    } else {
        v + 87
    }
}

/// Encoding then decoding a byte string gives the bytes back: the hex codec
/// round-trips, so a report rendered by `hex_encode` names the hashes it was
/// given exactly.
pub proof fn lemma_hex_round_trip(bytes: Seq<u8>)
    ensures
        hex_encoding(bytes).len() % 2 == 0,
        all_hex_digits(hex_encoding(bytes)),
        hex_bytes(hex_encoding(bytes)) == bytes,
{
    let enc = hex_encoding(bytes);
    assert forall|i: int| 0 <= i < enc.len() implies is_hex_digit(enc[i]) by {
        let b = bytes[i / 2];
        assert(b / 16 < 16 && b % 16 < 16) by (bit_vector);
    }
    assert forall|k: int| 0 <= k < bytes.len() implies hex_pair(enc, k) == bytes[k] by {
        let b = bytes[k];
        assert(hex_val(hex_digit(b / 16)) == b / 16 && hex_val(hex_digit((b % 16) as u8)) == b % 16
            && (b / 16) * 16 + b % 16 == b) by (bit_vector);
    }
    assert(hex_bytes(enc) =~= bytes);
}

} // verus!

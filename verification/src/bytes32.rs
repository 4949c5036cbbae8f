//! Fixed 32-byte values: header hashes and proof-function identifiers.

use vstd::prelude::*;

use crate::hex::{all_hex_digits, hex_bytes, hex_decode};

verus! {

/// A 32-byte value.  Header hashes and the proving network's function
/// identifiers both have this shape; two values are equal exactly when they
/// are byte-identical.
#[derive(Debug)]
pub struct Bytes32 {
    bytes: Vec<u8>,
}

/// The last header hash the light client already accepts, and the basis of
/// the next proof request.
pub type HeaderHash = Bytes32;

impl View for Bytes32 {
    type V = Seq<u8>;

    closed spec fn view(&self) -> Seq<u8> {
        self.bytes@
    }
}

impl Bytes32 {
    /// A well-formed value holds exactly 32 bytes.
    pub open spec fn wf(&self) -> bool {
        self@.len() == 32
    }

    /// Wraps a 32-byte string; `None` exactly on any other length.
    pub fn from_bytes(bytes: Vec<u8>) -> (r: Option<Bytes32>)
        ensures
            r is Some <==> bytes@.len() == 32,
            r matches Some(h) ==> h.wf() && h@ == bytes@,
    {
        if bytes.len() == 32 {
            Some(Bytes32 { bytes })
        } else {
            None
        }
    }

    /// The bytes themselves.
    pub fn as_bytes(&self) -> (r: &Vec<u8>)
        ensures
            r@ == self@,
    {
        &self.bytes
    }

    /// A fresh value holding the same bytes.
    pub fn duplicate(&self) -> (r: Bytes32)
        ensures
            r@ == self@,
    {
        let mut bytes: Vec<u8> = Vec::new();
        let mut i: usize = 0;
        while i < self.bytes.len()
            invariant
                i <= self@.len(),
                bytes@ == self@.take(i as int),
            decreases self@.len() - i,
        {
            bytes.push(self.bytes[i]);
            i = i + 1;
        }
        proof {
            assert(bytes@ =~= self@);
        }
        Bytes32 { bytes }
    }

    /// Byte-identity: the one notion of equality between two values.
    pub fn equals(&self, other: &Bytes32) -> (r: bool)
        ensures
            r <==> self@ == other@,
    {
        if self.bytes.len() != other.bytes.len() {
            return false;
        }
        let mut i: usize = 0;
        while i < self.bytes.len()
            invariant
                i <= self@.len(),
                self@.len() == other@.len(),
                forall|j: int| 0 <= j < i ==> self@[j] == other@[j],
            decreases self@.len() - i,
        {
            if self.bytes[i] != other.bytes[i] {
                return false;
            }
            i = i + 1;
        }
        proof {
            assert(self@ =~= other@);
        }
        true
    }

    /// Parses a 64-digit lower-case hexadecimal string, an optional `0x`
    /// prefix allowed; `None` exactly when what follows the prefix is no such
    /// string.
    pub fn from_hex(input: &Vec<u8>) -> (r: Option<Bytes32>)
        ensures
            r is Some <==> parses_as_bytes32(input@),
            r matches Some(h) ==> h.wf() && h@ == hex_bytes(strip_hex_prefix(input@)),
    {
        let stripped = strip_prefix_exec(input);
        match hex_decode(&stripped) {
            Some(decoded) => Bytes32::from_bytes(decoded),
            None => None,
        }
    }
}

/// `s` without a leading `0x`, if it has one.
pub open spec fn strip_hex_prefix(s: Seq<u8>) -> Seq<u8> {
    if s.len() >= 2 && s[0] == 48 && s[1] == 120 {
        s.skip(2)
    } else {
        s
    }
}

/// Whether `s`, its optional `0x` prefix aside, is the lower-case
/// hexadecimal encoding of exactly 32 bytes.
pub open spec fn parses_as_bytes32(s: Seq<u8>) -> bool {
    &&& strip_hex_prefix(s).len() == 64
    &&& all_hex_digits(strip_hex_prefix(s))
}

/// `input` without a leading `0x`, if it has one.
pub(crate) fn strip_prefix_exec(input: &Vec<u8>) -> (r: Vec<u8>)
    ensures
        r@ == strip_hex_prefix(input@),
{
    let start: usize = if input.len() >= 2 && input[0] == 48 && input[1] == 120 {
        2
    } else {
        0
    };
    let mut out: Vec<u8> = Vec::new();
    let mut i: usize = start;
    while i < input.len()
        invariant
            start <= i <= input@.len(),
            out@ == input@.subrange(start as int, i as int),
        decreases input@.len() - i,
    {
        out.push(input[i]);
        i = i + 1;
    }
    proof {
        assert(out@ =~= strip_hex_prefix(input@));
    }
    out
}

} // verus!

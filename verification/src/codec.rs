//! Byte-level encodings of proof-request payloads.
//!
//! A request carries two byte strings: the packed public input handed to the
//! proving network — whose field order and packing must be bit-exact against
//! what verifies it on-chain — and the destination contract's call payload,
//! a four-byte selector followed by 32-byte argument words.

use vstd::prelude::*;

use crate::bytes32::Bytes32;

verus! {

/// The eight big-endian bytes of an unsigned 64-bit value.
pub open spec fn u64_be_bytes(x: u64) -> Seq<u8> {
    seq![
        (x >> 56) as u8,
        (x >> 48) as u8,
        (x >> 40) as u8,
        (x >> 32) as u8,
        (x >> 24) as u8,
        (x >> 16) as u8,
        (x >> 8) as u8,
        x as u8,
    ]
}

/// The unsigned 64-bit value read from eight big-endian bytes.
pub open spec fn be_u64(s: Seq<u8>) -> u64
    recommends
        s.len() == 8,
{
    ((s[0] as u64) << 56) | ((s[1] as u64) << 48) | ((s[2] as u64) << 40) | ((s[3] as u64) << 32)
        | ((s[4] as u64) << 24) | ((s[5] as u64) << 16) | ((s[6] as u64) << 8) | (s[7] as u64)
}

/// Reading back the big-endian bytes of `x` gives `x`.
pub proof fn lemma_be_u64_of_bytes(x: u64)
    ensures
        be_u64(u64_be_bytes(x)) == x,
{
    assert((((x >> 56) as u8 as u64) << 56) | (((x >> 48) as u8 as u64) << 48) | (((x >> 40)
        as u8 as u64) << 40) | (((x >> 32) as u8 as u64) << 32) | (((x >> 24) as u8 as u64) << 24)
        | (((x >> 16) as u8 as u64) << 16) | (((x >> 8) as u8 as u64) << 8) | (x as u8 as u64)
        == x) by (bit_vector);
}

/// The big-endian bytes of the value read from eight bytes are those bytes
/// themselves: reading loses nothing either.
pub proof fn lemma_bytes_of_be_u64(s: Seq<u8>)
    requires
        s.len() == 8,
    ensures
        u64_be_bytes(be_u64(s)) == s,
{
    let b0 = s[0];
    let b1 = s[1];
    let b2 = s[2];
    let b3 = s[3];
    let b4 = s[4];
    let b5 = s[5];
    let b6 = s[6];
    let b7 = s[7];
    let x = be_u64(s);
    assert(x == ((b0 as u64) << 56) | ((b1 as u64) << 48) | ((b2 as u64) << 40) | ((b3 as u64)
        << 32) | ((b4 as u64) << 24) | ((b5 as u64) << 16) | ((b6 as u64) << 8) | (b7 as u64));
    assert({
        let y = ((b0 as u64) << 56) | ((b1 as u64) << 48) | ((b2 as u64) << 40) | ((b3 as u64)
            << 32) | ((b4 as u64) << 24) | ((b5 as u64) << 16) | ((b6 as u64) << 8) | (b7 as u64);
        (y >> 56) as u8 == b0 && (y >> 48) as u8 == b1 && (y >> 40) as u8 == b2 && (y >> 32) as u8
            == b3 && (y >> 24) as u8 == b4 && (y >> 16) as u8 == b5 && (y >> 8) as u8 == b6
            && y as u8 == b7
    }) by (bit_vector);
    assert(u64_be_bytes(x) =~= s);
}

/// The packed public input of a step proof: the trusted height's eight
/// big-endian bytes, then the trusted header hash.
pub open spec fn step_input_bytes(trusted_height: u64, trusted_header_hash: Seq<u8>) -> Seq<u8> {
    u64_be_bytes(trusted_height) + trusted_header_hash
}

/// The packed public input of a skip proof: the step fields, then the target
/// height's eight big-endian bytes.
pub open spec fn skip_input_bytes(
    trusted_height: u64,
    trusted_header_hash: Seq<u8>,
    target_height: u64,
) -> Seq<u8> {
    u64_be_bytes(trusted_height) + trusted_header_hash + u64_be_bytes(target_height)
}

/// Relies on `alloy_sol_types`' packed ABI encoding of `(uint64, bytes32)`:
/// the integer as its eight big-endian bytes, the 32 hash bytes verbatim,
/// concatenated in field order.
#[verifier::external_body]
pub(crate) fn abi_encode_packed_step(trusted_height: u64, trusted_header_hash: &Bytes32) -> (r:
    Vec<u8>)
    requires
        trusted_header_hash.wf(),
    ensures
        r@ == step_input_bytes(trusted_height, trusted_header_hash@),
{
    let hash = alloy_primitives::FixedBytes::<32>::from_slice(
        trusted_header_hash.as_bytes().as_slice(),
    );
    <(alloy_sol_types::sol_data::Uint<64>, alloy_sol_types::sol_data::FixedBytes<
        32,
    >) as alloy_sol_types::SolType>::abi_encode_packed(&(trusted_height, hash))
}

/// Relies on `alloy_sol_types`' packed ABI encoding of
/// `(uint64, bytes32, uint64)`: each integer as its eight big-endian bytes,
/// the 32 hash bytes verbatim, concatenated in field order.
#[verifier::external_body]
pub(crate) fn abi_encode_packed_skip(
    trusted_height: u64,
    trusted_header_hash: &Bytes32,
    target_height: u64,
) -> (r: Vec<u8>)
    requires
        trusted_header_hash.wf(),
    ensures
        r@ == skip_input_bytes(trusted_height, trusted_header_hash@, target_height),
{
    let hash = alloy_primitives::FixedBytes::<32>::from_slice(
        trusted_header_hash.as_bytes().as_slice(),
    );
    <(alloy_sol_types::sol_data::Uint<64>, alloy_sol_types::sol_data::FixedBytes<32>,
        alloy_sol_types::sol_data::Uint<64>) as alloy_sol_types::SolType>::abi_encode_packed(
        &(trusted_height, hash, target_height),
    )
}

/// The Keccak-256 digest of a byte string.
pub uninterp spec fn keccak_of(input: Seq<u8>) -> Seq<u8>;

/// Relies on `alloy_primitives::keccak256`: the 32-byte Keccak-256 digest,
/// a function of the input bytes alone.
#[verifier::external_body]
pub(crate) fn keccak_digest(input: &Vec<u8>) -> (r: Vec<u8>)
    ensures
        r@ == keccak_of(input@),
        r@.len() == 32,
{
    alloy_primitives::keccak256(input.as_slice()).to_vec()
}

/// The four-byte selector of a contract function: the head of the Keccak-256
/// digest of its signature.
pub open spec fn selector_of(signature: Seq<u8>) -> Seq<u8> {
    keccak_of(signature).take(4)
}

/// The ASCII signature of the destination contract's step entry point,
/// `step(uint64)`.
pub open spec fn step_call_sig() -> Seq<u8> {
    seq![115u8, 116, 101, 112, 40, 117, 105, 110, 116, 54, 52, 41]
}

/// The ASCII signature of the destination contract's skip entry point,
/// `skip(uint64,uint64)`.
pub open spec fn skip_call_sig() -> Seq<u8> {
    seq![115u8, 107, 105, 112, 40, 117, 105, 110, 116, 54, 52, 44, 117, 105, 110, 116, 54, 52, 41]
}

/// A 64-bit argument as a 32-byte ABI word: 24 zero bytes, then the value's
/// eight big-endian bytes.
pub open spec fn abi_u64_word(x: u64) -> Seq<u8> {
    Seq::new(24, |i: int| 0u8) + u64_be_bytes(x)
}

/// The step call payload: the `step(uint64)` selector, then the trusted
/// height as one argument word.
pub open spec fn step_call_data(trusted_height: u64) -> Seq<u8> {
    selector_of(step_call_sig()) + abi_u64_word(trusted_height)
}

/// The skip call payload: the `skip(uint64,uint64)` selector, then the
/// trusted and target heights as argument words.
pub open spec fn skip_call_data(trusted_height: u64, target_height: u64) -> Seq<u8> {
    selector_of(skip_call_sig()) + abi_u64_word(trusted_height) + abi_u64_word(target_height)
}

/// Appends `x` as a 32-byte ABI argument word.
fn append_abi_u64_word(out: &mut Vec<u8>, x: u64)
    ensures
        final(out)@ == old(out)@ + abi_u64_word(x),
{
    let mut i: usize = 0;
    while i < 24
        invariant
            i <= 24,
            out@ == old(out)@ + Seq::new(i as nat, |j: int| 0u8),
        decreases 24 - i,
    {
        out.push(0);
        proof {
            assert(out@ =~= old(out)@ + Seq::new((i + 1) as nat, |j: int| 0u8));
        }
        i = i + 1;
    }
    append_u64_be(out, x);
    proof {
        assert(out@ =~= old(out)@ + abi_u64_word(x));
    }
}

/// Appends the eight big-endian bytes of `x`.
fn append_u64_be(out: &mut Vec<u8>, x: u64)
    ensures
        final(out)@ == old(out)@ + u64_be_bytes(x),
{
    out.push((x >> 56) as u8);
    out.push((x >> 48) as u8);
    out.push((x >> 40) as u8);
    out.push((x >> 32) as u8);
    out.push((x >> 24) as u8);
    out.push((x >> 16) as u8);
    out.push((x >> 8) as u8);
    out.push(x as u8);
    proof {
        assert(out@ =~= old(out)@ + u64_be_bytes(x));
    }
}

/// The ASCII bytes of `step(uint64)`.
fn step_call_signature() -> (r: Vec<u8>)
    ensures
        r@ == step_call_sig(),
{
    let r = vec![115u8, 116, 101, 112, 40, 117, 105, 110, 116, 54, 52, 41];
    proof {
        assert(r@ =~= step_call_sig());
    }
    r
}

/// The ASCII bytes of `skip(uint64,uint64)`.
fn skip_call_signature() -> (r: Vec<u8>)
    ensures
        r@ == skip_call_sig(),
{
    let r = vec![
        115u8, 107, 105, 112, 40, 117, 105, 110, 116, 54, 52, 44, 117, 105, 110, 116, 54, 52, 41,
    ];
    proof {
        assert(r@ =~= skip_call_sig());
    }
    r
}

/// The fields of a packed step input, read back from its bytes: the trusted
/// height, then the trusted header hash.  `None` on any other length.
pub open spec fn step_input_fields(s: Seq<u8>) -> Option<(u64, Seq<u8>)> {
    if s.len() == 40 {
        Some((be_u64(s.take(8)), s.skip(8)))
    } else {
        None
    }
}

/// The fields of a packed skip input, read back from its bytes: the trusted
/// height, the trusted header hash, the target height.  `None` on any other
/// length.
pub open spec fn skip_input_fields(s: Seq<u8>) -> Option<(u64, Seq<u8>, u64)> {
    if s.len() == 48 {
        Some((be_u64(s.take(8)), s.subrange(8, 40), be_u64(s.skip(40))))
    } else {
        None
    }
}

/// Round trip: reading the fields back from a packed step input recovers the
/// trusted height and hash that built it, so the packing loses nothing.
pub proof fn lemma_step_input_round_trip(trusted_height: u64, trusted_header_hash: Seq<u8>)
    requires
        trusted_header_hash.len() == 32,
    ensures
        step_input_fields(step_input_bytes(trusted_height, trusted_header_hash)) == Some(
            (trusted_height, trusted_header_hash),
        ),
{
    let s = step_input_bytes(trusted_height, trusted_header_hash);
    assert(s.take(8) =~= u64_be_bytes(trusted_height));
    assert(s.skip(8) =~= trusted_header_hash);
    lemma_be_u64_of_bytes(trusted_height);
}

/// Round trip: reading the fields back from a packed skip input recovers the
/// trusted height, hash and target height that built it.
pub proof fn lemma_skip_input_round_trip(
    trusted_height: u64,
    trusted_header_hash: Seq<u8>,
    target_height: u64,
)
    requires
        trusted_header_hash.len() == 32,
    ensures
        skip_input_fields(skip_input_bytes(trusted_height, trusted_header_hash, target_height))
            == Some((trusted_height, trusted_header_hash, target_height)),
{
    let s = skip_input_bytes(trusted_height, trusted_header_hash, target_height);
    assert(s.take(8) =~= u64_be_bytes(trusted_height));
    assert(s.subrange(8, 40) =~= trusted_header_hash);
    assert(s.skip(40) =~= u64_be_bytes(target_height));
    lemma_be_u64_of_bytes(trusted_height);
    lemma_be_u64_of_bytes(target_height);
}

/// The bytes of `v` from `start` up to `end`.
pub(crate) fn copy_range(v: &Vec<u8>, start: usize, end: usize) -> (r: Vec<u8>)
    requires
        start <= end <= v@.len(),
    ensures
        r@ == v@.subrange(start as int, end as int),
{
    let mut r: Vec<u8> = Vec::new();
    let mut i: usize = start;
    while i < end
        invariant
            start <= i <= end <= v@.len(),
            r@ == v@.subrange(start as int, i as int),
        decreases end - i,
    {
        r.push(v[i]);
        proof {
            assert(r@ =~= v@.subrange(start as int, (i + 1) as int));
        }
        i = i + 1;
    }
    r
}

/// The unsigned 64-bit value read from eight big-endian bytes.
fn be_u64_exec(s: &Vec<u8>) -> (r: u64)
    requires
        s@.len() == 8,
    ensures
        r == be_u64(s@),
{
    ((s[0] as u64) << 56) | ((s[1] as u64) << 48) | ((s[2] as u64) << 40) | ((s[3] as u64) << 32)
        | ((s[4] as u64) << 24) | ((s[5] as u64) << 16) | ((s[6] as u64) << 8) | (s[7] as u64)
}

/// Decodes a packed step input back into its fields; `None` exactly on any
/// length other than a step input's forty bytes.  A successful decode
/// reconstructs its input: the bytes are exactly the packing of the fields
/// read back.
pub fn decode_step_input(input: &Vec<u8>) -> (r: Option<(u64, Bytes32)>)
    ensures
        r is Some <==> input@.len() == 40,
        r matches Some((t, h)) ==> h.wf() && step_input_fields(input@) == Some((t, h@)),
        r matches Some((t, h)) ==> input@ == step_input_bytes(t, h@),
{
    if input.len() != 40 {
        return None;
    }
    let head = copy_range(input, 0, 8);
    let trusted_height = be_u64_exec(&head);
    let hash_bytes = copy_range(input, 8, 40);
    match Bytes32::from_bytes(hash_bytes) {
        Some(hash) => {
            proof {
                assert(input@.take(8) =~= input@.subrange(0, 8));
                assert(input@.skip(8) =~= input@.subrange(8, 40));
                lemma_bytes_of_be_u64(input@.take(8));
                assert(input@ =~= step_input_bytes(trusted_height, input@.skip(8)));
            }
            Some((trusted_height, hash))
        },
        None => None,
    }
}

/// Decodes a packed skip input back into its fields; `None` exactly on any
/// length other than a skip input's forty-eight bytes.  A successful decode
/// reconstructs its input: the bytes are exactly the packing of the fields
/// read back.
pub fn decode_skip_input(input: &Vec<u8>) -> (r: Option<(u64, Bytes32, u64)>)
    ensures
        r is Some <==> input@.len() == 48,
        r matches Some((t, h, g)) ==> h.wf() && skip_input_fields(input@) == Some((t, h@, g)),
        r matches Some((t, h, g)) ==> input@ == skip_input_bytes(t, h@, g),
{
    if input.len() != 48 {
        return None;
    }
    let head = copy_range(input, 0, 8);
    let trusted_height = be_u64_exec(&head);
    let hash_bytes = copy_range(input, 8, 40);
    let tail = copy_range(input, 40, 48);
    let target_height = be_u64_exec(&tail);
    match Bytes32::from_bytes(hash_bytes) {
        Some(hash) => {
            proof {
                assert(input@.take(8) =~= input@.subrange(0, 8));
                assert(input@.skip(40) =~= input@.subrange(40, 48));
                lemma_bytes_of_be_u64(input@.take(8));
                lemma_bytes_of_be_u64(input@.skip(40));
                assert(input@ =~= skip_input_bytes(
                    trusted_height,
                    input@.subrange(8, 40),
                    target_height,
                ));
            }
            Some((trusted_height, hash, target_height))
        },
        None => None,
    }
}

/// Builds the step call payload for a trusted height.
pub fn encode_step_call(trusted_height: u64) -> (r: Vec<u8>)
    ensures
        r@ == step_call_data(trusted_height),
{
    let sig = step_call_signature();
    let digest = keccak_digest(&sig);
    let mut r: Vec<u8> = Vec::new();
    r.push(digest[0]);
    r.push(digest[1]);
    r.push(digest[2]);
    r.push(digest[3]);
    proof {
        assert(r@ =~= selector_of(step_call_sig()));
    }
    append_abi_u64_word(&mut r, trusted_height);
    r
}

/// Builds the skip call payload for a trusted and a target height.
pub fn encode_skip_call(trusted_height: u64, target_height: u64) -> (r: Vec<u8>)
    ensures
        r@ == skip_call_data(trusted_height, target_height),
{
    let sig = skip_call_signature();
    let digest = keccak_digest(&sig);
    let mut r: Vec<u8> = Vec::new();
    r.push(digest[0]);
    r.push(digest[1]);
    r.push(digest[2]);
    r.push(digest[3]);
    proof {
        assert(r@ =~= selector_of(skip_call_sig()));
    }
    append_abi_u64_word(&mut r, trusted_height);
    append_abi_u64_word(&mut r, target_height);
    proof {
        assert(r@ =~= skip_call_data(trusted_height, target_height));
    }
    r
}

} // verus!

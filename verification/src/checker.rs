//! Header-consistency checking.
//!
//! Before every scheduling decision, the operator compares the header hash
//! the contract stores at its synced height against the source chain's
//! actual header hash at that height.  A mismatch means a previously
//! accepted proof encoded the wrong header — most plausibly a bad genesis
//! entry — and silently continuing would risk extending an invalid chain, so
//! a mismatch is fatal: the caller must halt, not retry.

use vstd::prelude::*;

use crate::bytes32::HeaderHash;
use crate::hex::{hex_encode, hex_encoding};

verus! {

/// The outcome of a consistency check.
pub enum ConsistencyVerdict {
    /// The hashes agree; scheduling may proceed.
    Consistent,
    /// The hashes differ; fatal, the process must halt.
    Mismatch,
}

/// Compares the source chain's header hash against the contract's stored
/// header hash for one height: `Consistent` exactly when they are
/// byte-identical, `Mismatch` — fatal to the caller — otherwise.
pub fn check_consistency(chain_hash: &HeaderHash, stored_hash: &HeaderHash) -> (r:
    ConsistencyVerdict)
    ensures
        r is Consistent <==> chain_hash@ == stored_hash@,
{
    if chain_hash.equals(stored_hash) {
        ConsistencyVerdict::Consistent
    } else {
        ConsistencyVerdict::Mismatch
    }
}

/// The fixed text opening a mismatch report.
pub open spec fn mismatch_text() -> Seq<u8> {
    // "header mismatch: chain "
    seq![
        104u8, 101, 97, 100, 101, 114, 32, 109, 105, 115, 109, 97, 116, 99, 104, 58, 32, 99, 104,
        97, 105, 110, 32,
    ]
}

/// The fixed text between the two hashes of a mismatch report.
pub open spec fn mismatch_sep() -> Seq<u8> {
    // " contract "
    seq![32u8, 99, 111, 110, 116, 114, 97, 99, 116, 32]
}

/// The bytes of a mismatch report: the fixed opening, the chain's hash in
/// hexadecimal, the fixed separator, the contract's stored hash in
/// hexadecimal.
pub open spec fn mismatch_report_bytes(chain_hash: Seq<u8>, stored_hash: Seq<u8>) -> Seq<u8> {
    mismatch_text() + hex_encoding(chain_hash) + mismatch_sep() + hex_encoding(stored_hash)
}

/// Renders the fatal report for a mismatch, naming both hashes in
/// hexadecimal.
pub fn mismatch_report(chain_hash: &HeaderHash, stored_hash: &HeaderHash) -> (r: Vec<u8>)
    ensures
        r@ == mismatch_report_bytes(chain_hash@, stored_hash@),
{
    let mut r = vec![
        104u8, 101, 97, 100, 101, 114, 32, 109, 105, 115, 109, 97, 116, 99, 104, 58, 32, 99, 104,
        97, 105, 110, 32,
    ];
    proof {
        assert(r@ =~= mismatch_text());
    }
    let mut chain_hex = hex_encode(chain_hash.as_bytes());
    r.append(&mut chain_hex);
    let mut sep = vec![32u8, 99, 111, 110, 116, 114, 97, 99, 116, 32];
    proof {
        assert(sep@ =~= mismatch_sep());
    }
    r.append(&mut sep);
    let mut stored_hex = hex_encode(stored_hash.as_bytes());
    r.append(&mut stored_hex);
    proof {
        assert(r@ =~= mismatch_report_bytes(chain_hash@, stored_hash@));
    }
    r
}

} // verus!

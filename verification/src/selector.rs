//! Target-block selection for the polling loop.

use vstd::prelude::*;

verus! {

/// The highest height a proof may newly certify: the source chain's head,
/// capped by the contract's maximum skip distance from the current height.
pub open spec fn max_target(current_height: u64, chain_head_height: u64, max_skip: u64) -> int {
    if chain_head_height <= current_height + max_skip {
        chain_head_height as int
    } else {
        current_height + max_skip
    }
}

/// Selects the next block to request a proof for.
///
/// `None` exactly when no height may be requested: the contract has already
/// caught up with the source chain's head, or a maximum skip distance of
/// zero leaves nothing between the current height and the bound.  Otherwise
/// the selection is the richest block that can safely be requested: the
/// upper bound itself, so the result always lies in
/// `(current_height, min(chain_head_height, current_height + max_skip)]`.
pub fn select_target_block(current_height: u64, chain_head_height: u64, max_skip: u64) -> (r:
    Option<u64>)
    ensures
        r is Some <==> current_height < chain_head_height && max_skip > 0,
        r matches Some(t) ==> t == max_target(current_height, chain_head_height, max_skip),
        r matches Some(t) ==> current_height < t && t <= chain_head_height && t
            <= current_height + max_skip,
{
    if current_height >= chain_head_height || max_skip == 0 {
        return None;
    }
    if chain_head_height - current_height <= max_skip {
        Some(chain_head_height)
    } else {
        Some(current_height + max_skip)
    }
}

} // verus!

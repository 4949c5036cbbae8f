//! Proof-request building.
//!
//! A request is built from an already-resolved trusted header hash — fetched
//! from the contract in loop mode, supplied by the caller in manual mode —
//! a trusted height and a target height.  Building is pure: no transport is
//! touched, and the payload bytes are a function of the inputs alone.

use vstd::prelude::*;

use crate::bytes32::{parses_as_bytes32, strip_hex_prefix, strip_prefix_exec, Bytes32, HeaderHash};
use crate::codec::{
    abi_encode_packed_skip, abi_encode_packed_step, encode_skip_call, encode_step_call,
    skip_call_data, skip_input_bytes, step_call_data, step_input_bytes,
};
use crate::hex::{all_hex_digits, hex_bytes, hex_decode};

verus! {

/// The operator's immutable configuration: the destination contract, the
/// chain it lives on, and the proving network's function identifier for each
/// request shape.
pub struct BridgeConfig {
    /// The destination contract's 20-byte address.
    pub address: Vec<u8>,
    /// The destination chain's numeric identifier.
    pub chain_id: u32,
    /// The proving network's identifier of the step function.
    pub step_function_id: Bytes32,
    /// The proving network's identifier of the skip function.
    pub skip_function_id: Bytes32,
}

impl BridgeConfig {
    /// A well-formed configuration: a 20-byte address and 32-byte function
    /// identifiers.
    pub open spec fn wf(&self) -> bool {
        &&& self.address@.len() == 20
        &&& self.step_function_id.wf()
        &&& self.skip_function_id.wf()
    }

    /// Builds a configuration from hex-encoded settings, each with an
    /// optional `0x` prefix; `None` exactly when the address is not 20
    /// hex-encoded bytes or a function identifier is not 32.
    pub fn from_hex_parts(
        address_hex: &Vec<u8>,
        chain_id: u32,
        step_id_hex: &Vec<u8>,
        skip_id_hex: &Vec<u8>,
    ) -> (r: Option<BridgeConfig>)
        ensures
            r is Some <==> (parses_as_address(address_hex@) && parses_as_bytes32(step_id_hex@)
                && parses_as_bytes32(skip_id_hex@)),
            r matches Some(c) ==> {
                &&& c.wf()
                &&& c.address@ == hex_bytes(strip_hex_prefix(address_hex@))
                &&& c.chain_id == chain_id
                &&& c.step_function_id@ == hex_bytes(strip_hex_prefix(step_id_hex@))
                &&& c.skip_function_id@ == hex_bytes(strip_hex_prefix(skip_id_hex@))
            },
    {
        let address = match parse_address(address_hex) {
            Some(a) => a,
            None => {
                return None;
            },
        };
        let step_function_id = match Bytes32::from_hex(step_id_hex) {
            Some(id) => id,
            None => {
                return None;
            },
        };
        let skip_function_id = match Bytes32::from_hex(skip_id_hex) {
            Some(id) => id,
            None => {
                return None;
            },
        };
        Some(BridgeConfig { address, chain_id, step_function_id, skip_function_id })
    }
}

/// Whether `s`, its optional `0x` prefix aside, is the lower-case
/// hexadecimal encoding of exactly 20 bytes.
pub open spec fn parses_as_address(s: Seq<u8>) -> bool {
    &&& strip_hex_prefix(s).len() == 40
    &&& all_hex_digits(strip_hex_prefix(s))
}

/// Parses a 40-digit lower-case hexadecimal string, an optional `0x` prefix
/// allowed, into 20 address bytes.
fn parse_address(input: &Vec<u8>) -> (r: Option<Vec<u8>>)
    ensures
        r is Some <==> parses_as_address(input@),
        r matches Some(a) ==> a@.len() == 20 && a@ == hex_bytes(strip_hex_prefix(input@)),
{
    let stripped = strip_prefix_exec(input);
    match hex_decode(&stripped) {
        Some(decoded) => {
            if decoded.len() == 20 {
                Some(decoded)
            } else {
                None
            }
        },
        None => None,
    }
}

/// A proof request: a step advances the light client by exactly one block, a
/// skip by more than one.
#[derive(PartialEq, Eq, Structural, Clone, Copy, Debug)]
pub enum ProofRequest {
    /// Advance from the trusted height by exactly one block.
    Step { trusted_height: u64 },
    /// Advance from the trusted height to the target height, more than one
    /// block ahead.
    Skip { trusted_height: u64, target_height: u64 },
}

/// The error of a request that cannot be built: the trusted height does not
/// precede the target height.  A caller error, never a network error.
#[derive(PartialEq, Eq, Structural, Clone, Copy, Debug)]
pub enum BuildError {
    /// `trusted_height >= target_height`.
    HeightsOutOfOrder,
}

/// A built proof request: the request shape with both submission payloads
/// and the function identifier to submit under.
#[derive(Debug)]
pub struct BuiltRequest {
    /// The request's shape and heights.
    pub request: ProofRequest,
    /// The trusted header hash the request builds on.
    pub trusted_header_hash: HeaderHash,
    /// The packed public input handed to the proving network.
    pub input: Vec<u8>,
    /// The destination contract's call payload.
    pub call_data: Vec<u8>,
    /// The proving network's function identifier for this shape.
    pub function_id: Bytes32,
}

impl BuiltRequest {
    /// What a correctly built request holds for the given inputs: a step
    /// exactly when the target is one block ahead, a skip otherwise, with
    /// both payloads and the function identifier fixed by that choice.
    pub open spec fn built_from(
        &self,
        config: BridgeConfig,
        trusted_height: u64,
        trusted_header_hash: Seq<u8>,
        target_height: u64,
    ) -> bool {
        &&& self.trusted_header_hash@ == trusted_header_hash
        &&& if target_height == trusted_height + 1 {
            &&& self.request == ProofRequest::Step { trusted_height }
            &&& self.input@ == step_input_bytes(trusted_height, trusted_header_hash)
            &&& self.call_data@ == step_call_data(trusted_height)
            &&& self.function_id@ == config.step_function_id@
        } else {
            &&& self.request == ProofRequest::Skip { trusted_height, target_height }
            &&& self.input@ == skip_input_bytes(trusted_height, trusted_header_hash, target_height)
            &&& self.call_data@ == skip_call_data(trusted_height, target_height)
            &&& self.function_id@ == config.skip_function_id@
        }
    }
}

/// A built request's shape always matches its height difference: it is a
/// step, carrying the trusted height, exactly when the target is one block
/// ahead, and a skip, carrying both heights, exactly when the target is more
/// than one block ahead.  No other shape can be issued.
pub proof fn lemma_request_shape(
    b: BuiltRequest,
    config: BridgeConfig,
    trusted_height: u64,
    trusted_header_hash: Seq<u8>,
    target_height: u64,
)
    requires
        trusted_height < target_height,
        b.built_from(config, trusted_height, trusted_header_hash, target_height),
    ensures
        b.request matches ProofRequest::Step { trusted_height: t } ==> t == trusted_height
            && target_height == trusted_height + 1,
        b.request matches ProofRequest::Skip { trusted_height: t, target_height: g } ==> t
            == trusted_height && g == target_height && target_height > trusted_height + 1,
{
}

/// Builds the proof request for an already-resolved trusted header hash and
/// a pair of heights.
///
/// Fails exactly when the trusted height does not precede the target height.
/// Otherwise the request is a step exactly when the target is one block
/// ahead, a skip otherwise; the packed input, the call payload and the
/// function identifier are each pinned to the inputs, so the same inputs
/// always yield byte-identical payloads.
pub fn build_request(
    config: &BridgeConfig,
    trusted_height: u64,
    trusted_header_hash: HeaderHash,
    target_height: u64,
) -> (r: Result<BuiltRequest, BuildError>)
    requires
        config.wf(),
        trusted_header_hash.wf(),
    ensures
        r is Ok <==> trusted_height < target_height,
        r matches Ok(b) ==> b.built_from(*config, trusted_height, trusted_header_hash@,
            target_height),
        r matches Ok(b) ==> (b.request is Step <==> target_height == trusted_height + 1),
{
    if trusted_height >= target_height {
        return Err(BuildError::HeightsOutOfOrder);
    }
    if target_height - trusted_height == 1 {
        let input = abi_encode_packed_step(trusted_height, &trusted_header_hash);
        let call_data = encode_step_call(trusted_height);
        Ok(
            BuiltRequest {
                request: ProofRequest::Step { trusted_height },
                trusted_header_hash,
                input,
                call_data,
                function_id: config.step_function_id.duplicate(),
            },
        )
    } else {
        let input = abi_encode_packed_skip(trusted_height, &trusted_header_hash, target_height);
        let call_data = encode_skip_call(trusted_height, target_height);
        Ok(
            BuiltRequest {
                request: ProofRequest::Skip { trusted_height, target_height },
                trusted_header_hash,
                input,
                call_data,
                function_id: config.skip_function_id.duplicate(),
            },
        )
    }
}

} // verus!

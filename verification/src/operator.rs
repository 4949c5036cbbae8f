//! The operator's two modes.
//!
//! Loop mode is a cyclic state machine: check consistency, select a target,
//! build a request, submit, sleep, and start over — terminal only on a fatal
//! consistency mismatch.  Each phase names the one read or action the
//! surrounding process must perform; the process hands the outcome back as
//! an event and `loop_step` decides the next phase.  No state is carried
//! across cycles beyond what the next cycle re-reads, so a failed cycle is
//! retried implicitly by the next one.
//!
//! Manual mode is a one-shot path: the caller supplies the trusted hash and
//! both heights, validation and building happen here, and only the
//! submission itself is left to the surrounding process.

use vstd::prelude::*;

use crate::builder::{build_request, BridgeConfig, BuiltRequest};
use crate::bytes32::HeaderHash;
use crate::checker::{check_consistency, ConsistencyVerdict};
use crate::codec::copy_range;
use crate::selector::{max_target, select_target_block};

verus! {

/// The fixed interval, in minutes, that the `Sleep` phase waits out between
/// two cycles of the polling loop.
pub const LOOP_DELAY_MINUTES: u64 = 240;

/// A phase of the polling loop.  Each phase other than `Sleep` and `Halted`
/// names the read or action the surrounding process owes before the next
/// step.
pub enum LoopPhase {
    /// Read the contract's synced height.
    FetchHeight,
    /// Fetch the source chain's header hash and the contract's stored hash
    /// at the current height.
    CheckConsistency { current_height: u64 },
    /// Fetch the source chain's head height and the contract's maximum skip
    /// distance.
    SelectTarget { current_height: u64 },
    /// Fetch the contract's stored header hash at the trusted height.
    FetchTrustedHash { trusted_height: u64, target_height: u64 },
    /// Submit the built request to the proving network.
    Submit { request: BuiltRequest },
    /// Wait out the fixed inter-cycle interval.
    Sleep,
    /// Fatal consistency mismatch: the process must halt, not retry.
    Halted,
}

/// The outcome of the read or action a phase asked for.
pub enum LoopEvent {
    /// The contract's synced height.
    SyncedHeight { height: u64 },
    /// The source chain's header hash and the contract's stored hash at the
    /// current height.
    HeaderHashes { chain_hash: HeaderHash, stored_hash: HeaderHash },
    /// The source chain's head height and the contract's maximum skip
    /// distance.
    ChainStatus { head_height: u64, max_skip: u64 },
    /// The contract's stored header hash at the trusted height.
    TrustedHash { hash: HeaderHash },
    /// Whether the proving network accepted the submission.
    SubmitOutcome { accepted: bool },
    /// The inter-cycle interval has passed.
    WokeUp,
    /// The read or submission failed in transport; the cycle is abandoned.
    TransportFailed,
}

impl LoopPhase {
    /// The phase invariant: a trusted height always precedes its target.
    pub open spec fn wf(&self) -> bool {
        match self {
            LoopPhase::FetchTrustedHash { trusted_height, target_height } => *trusted_height
                < *target_height,
            _ => true,
        }
    }
}

impl LoopEvent {
    /// The event invariant: a fetched hash holds 32 bytes.
    pub open spec fn wf(&self) -> bool {
        match self {
            LoopEvent::TrustedHash { hash } => hash.wf(),
            _ => true,
        }
    }
}

/// Whether `event` answers what `phase` asked for.  `TransportFailed` can
/// answer any read or submission; a halted operator takes no event.
pub open spec fn event_fits(phase: LoopPhase, event: LoopEvent) -> bool {
    match phase {
        LoopPhase::FetchHeight => (event matches LoopEvent::SyncedHeight { .. }) || (
        event matches LoopEvent::TransportFailed),
        LoopPhase::CheckConsistency { .. } => (event matches LoopEvent::HeaderHashes { .. }) || (
        event matches LoopEvent::TransportFailed),
        LoopPhase::SelectTarget { .. } => (event matches LoopEvent::ChainStatus { .. }) || (
        event matches LoopEvent::TransportFailed),
        LoopPhase::FetchTrustedHash { .. } => (event matches LoopEvent::TrustedHash { .. }) || (
        event matches LoopEvent::TransportFailed),
        LoopPhase::Submit { .. } => (event matches LoopEvent::SubmitOutcome { .. }) || (
        event matches LoopEvent::TransportFailed),
        LoopPhase::Sleep => event matches LoopEvent::WokeUp,
        LoopPhase::Halted => true,
    }
}

/// One step of the polling loop: from the phase just finished and the event
/// it produced to the next phase.
///
/// The cycle runs fetch-height, consistency check, target selection, request
/// building, submission, sleep, and around again.  A consistency mismatch is
/// fatal: the machine moves to `Halted` and never leaves it.  A no-op
/// selection, a submission outcome of either kind, and a transport failure
/// each end the cycle in `Sleep`: the next cycle re-reads everything, so no
/// retry counter is kept.
pub fn loop_step(config: &BridgeConfig, phase: LoopPhase, event: LoopEvent) -> (r: LoopPhase)
    requires
        config.wf(),
        phase.wf(),
        event.wf(),
        event_fits(phase, event),
    ensures
        r.wf(),
        phase matches LoopPhase::FetchHeight ==> event matches LoopEvent::SyncedHeight { height }
            ==> r == (LoopPhase::CheckConsistency { current_height: height }),
        phase matches LoopPhase::CheckConsistency { current_height } ==> event matches
            LoopEvent::HeaderHashes { chain_hash, stored_hash } ==> if chain_hash@ == stored_hash@ {
            r == (LoopPhase::SelectTarget { current_height })
        } else {
            r is Halted
        },
        phase matches LoopPhase::SelectTarget { current_height } ==> event matches
            LoopEvent::ChainStatus { head_height, max_skip } ==> if current_height < head_height
            && max_skip > 0 {
            r == (LoopPhase::FetchTrustedHash {
                trusted_height: current_height,
                target_height: max_target(current_height, head_height, max_skip) as u64,
            })
        } else {
            r is Sleep
        },
        phase matches LoopPhase::FetchTrustedHash { trusted_height, target_height } ==> event
            matches LoopEvent::TrustedHash { hash } ==> (r matches LoopPhase::Submit { request }
            && request.built_from(*config, trusted_height, hash@, target_height)),
        phase matches LoopPhase::Submit { .. } ==> event matches LoopEvent::SubmitOutcome { .. }
            ==> r is Sleep,
        phase matches LoopPhase::Sleep ==> r is FetchHeight,
        !(phase matches LoopPhase::Halted) ==> (event matches LoopEvent::TransportFailed ==> r
            is Sleep),
        phase matches LoopPhase::Halted ==> r is Halted,
{
    match (phase, event) {
        (LoopPhase::Halted, _) => LoopPhase::Halted,
        (_, LoopEvent::TransportFailed) => LoopPhase::Sleep,
        (LoopPhase::FetchHeight, LoopEvent::SyncedHeight { height }) => LoopPhase::CheckConsistency {
            current_height: height,
        },
        (
            LoopPhase::CheckConsistency { current_height },
            LoopEvent::HeaderHashes { chain_hash, stored_hash },
        ) => {
            match check_consistency(&chain_hash, &stored_hash) {
                ConsistencyVerdict::Consistent => LoopPhase::SelectTarget { current_height },
                ConsistencyVerdict::Mismatch => LoopPhase::Halted,
            }
        },
        (
            LoopPhase::SelectTarget { current_height },
            LoopEvent::ChainStatus { head_height, max_skip },
        ) => {
            match select_target_block(current_height, head_height, max_skip) {
                Some(target_height) => LoopPhase::FetchTrustedHash {
                    trusted_height: current_height,
                    target_height,
                },
                None => LoopPhase::Sleep,
            }
        },
        (
            LoopPhase::FetchTrustedHash { trusted_height, target_height },
            LoopEvent::TrustedHash { hash },
        ) => {
            match build_request(config, trusted_height, hash, target_height) {
                Ok(request) => LoopPhase::Submit { request },
                Err(_) => LoopPhase::Sleep,
            }
        },
        (LoopPhase::Submit { .. }, LoopEvent::SubmitOutcome { .. }) => LoopPhase::Sleep,
        (LoopPhase::Sleep, LoopEvent::WokeUp) => LoopPhase::FetchHeight,
        _ => LoopPhase::Sleep,
    }
}

/// The outcome of a manual submission attempt's preparation.
pub enum ManualOutcome {
    /// The heights were out of order; nothing may be submitted.  A caller
    /// error: control returns normally.
    Rejected,
    /// The request to submit.
    Prepared { request: BuiltRequest },
}

/// Prepares a one-shot manual submission from a caller-supplied trusted
/// hash and pair of heights.
///
/// Rejects exactly when the trusted height does not precede the target
/// height; no request exists then and nothing may reach the proving
/// network.  Otherwise the prepared request is built as in loop mode, from
/// the caller's hash.
pub fn prepare_manual_request(
    config: &BridgeConfig,
    trusted_header_hash: HeaderHash,
    trusted_height: u64,
    target_height: u64,
) -> (r: ManualOutcome)
    requires
        config.wf(),
        trusted_header_hash.wf(),
    ensures
        r is Rejected <==> trusted_height >= target_height,
        r matches ManualOutcome::Prepared { request } ==> request.built_from(*config,
            trusted_height, trusted_header_hash@, target_height),
{
    match build_request(config, trusted_height, trusted_header_hash, target_height) {
        Ok(request) => ManualOutcome::Prepared { request },
        Err(_) => ManualOutcome::Rejected,
    }
}

/// The stable text opening a framed request identifier.
pub open spec fn marker_start() -> Seq<u8> {
    // "request____start"
    seq![114u8, 101, 113, 117, 101, 115, 116, 95, 95, 95, 95, 115, 116, 97, 114, 116]
}

/// The stable text closing a framed request identifier.
pub open spec fn marker_end() -> Seq<u8> {
    // "request____end"
    seq![114u8, 101, 113, 117, 101, 115, 116, 95, 95, 95, 95, 101, 110, 100]
}

/// Frames a request identifier in the stable sentinel markers, so external
/// tooling can extract it from log output without parsing the logs.
pub fn frame_request_id(request_id: &Vec<u8>) -> (r: Vec<u8>)
    ensures
        r@ == marker_start() + request_id@ + marker_end(),
{
    let mut r = vec![114u8, 101, 113, 117, 101, 115, 116, 95, 95, 95, 95, 115, 116, 97, 114, 116];
    proof {
        assert(r@ =~= marker_start());
    }
    let mut id = copy_range(request_id, 0, request_id.len());
    proof {
        assert(id@ =~= request_id@);
    }
    r.append(&mut id);
    let mut end = vec![114u8, 101, 113, 117, 101, 115, 116, 95, 95, 95, 95, 101, 110, 100];
    proof {
        assert(end@ =~= marker_end());
    }
    r.append(&mut end);
    r
}

} // verus!

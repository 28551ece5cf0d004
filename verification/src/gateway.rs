//! Gateway response handling: classification of the envelope's outcome
//! codes, and the per-call routing that grants `SessionExpired` exactly one
//! token rotation and one transparent replay before giving up on the
//! session.

use vstd::prelude::*;

use crate::machine::CallFailure;
use crate::strutil::{spec_starts_with, starts_with};

verus! {

/// What one gateway exchange meant, read off the envelope's first outcome
/// code (or the transport layer).
#[derive(Clone, Copy, Debug, PartialEq, Eq, Structural)]
pub enum GatewayOutcome {
    Success,
    /// The signing token went stale; worth one rotation and one replay.
    SessionExpired,
    RateLimited,
    /// Inventory gone for now; transient during a flash sale.
    SoldOut,
    /// Signature or parameter mismatch; replaying cannot help.
    MalformedRequest,
    /// Timeout or connection trouble before an envelope arrived.
    TransportError,
    /// An unrecognised code; treated as transient.
    Unknown,
}

/// Whether the logical call already spent its one token rotation.
#[derive(Clone, Copy, Debug, PartialEq, Eq, Structural)]
pub enum CallPhase {
    First,
    Retried,
}

/// What one gateway exchange delivered to the orchestrator, once routing
/// is done with it.
pub enum CallResult {
    /// The business call went through; the driver extracts the payload.
    Granted,
    Failed { failure: CallFailure },
}

/// The router's verdict on one exchange of a logical call.
pub enum Directive {
    /// Rotate the signing token and replay the same call once.
    RotateAndRetry,
    /// Hand this result to the orchestrator; the logical call is over.
    Deliver { result: CallResult },
}

/// Outcome-code prefixes the gateway is known to answer with.
pub open spec fn spec_classify(code: Seq<char>) -> GatewayOutcome {
    if spec_starts_with(code, "SUCCESS"@) {
        GatewayOutcome::Success
    } else if spec_starts_with(code, "FAIL_SYS_SESSION_EXPIRED"@) {
        GatewayOutcome::SessionExpired
    } else if spec_starts_with(code, "FAIL_SYS_TRAFFIC_LIMIT"@) {
        GatewayOutcome::RateLimited
    } else if spec_starts_with(code, "FAIL_BIZ_SOLD_OUT"@) || spec_starts_with(
        code,
        "FAIL_BIZ_EXHAUSTED"@,
    ) {
        GatewayOutcome::SoldOut
    } else if spec_starts_with(code, "FAIL_SYS_ILLEGAL_ACCESS"@) {
        GatewayOutcome::MalformedRequest
    } else {
        GatewayOutcome::Unknown
    }
}

/// Classify an envelope's outcome codes by their leading code; an empty
/// list is an unrecognised (transient) answer.
pub open spec fn spec_classify_codes(codes: Seq<Seq<char>>) -> GatewayOutcome {
    if codes.len() == 0 {
        GatewayOutcome::Unknown
    } else {
        spec_classify(codes[0])
    }
}

pub fn classify_code(code: &str) -> (r: GatewayOutcome)
    ensures
        r == spec_classify(code@),
{
    if starts_with(code, "SUCCESS") {
        GatewayOutcome::Success
    } else if starts_with(code, "FAIL_SYS_SESSION_EXPIRED") {
        GatewayOutcome::SessionExpired
    } else if starts_with(code, "FAIL_SYS_TRAFFIC_LIMIT") {
        GatewayOutcome::RateLimited
    } else if starts_with(code, "FAIL_BIZ_SOLD_OUT") || starts_with(code, "FAIL_BIZ_EXHAUSTED") {
        GatewayOutcome::SoldOut
    } else if starts_with(code, "FAIL_SYS_ILLEGAL_ACCESS") {
        GatewayOutcome::MalformedRequest
    } else {
        GatewayOutcome::Unknown
    }
}

pub fn classify_codes(codes: &Vec<String>) -> (r: GatewayOutcome)
    ensures
        r == spec_classify_codes(codes@.map_values(|s: String| s@)),
{
    if codes.len() == 0 {
        GatewayOutcome::Unknown
    } else {
        classify_code(codes[0].as_str())
    }
}

/// The per-call policy: `SessionExpired` on the first exchange buys one
/// rotation and one replay; on the replayed exchange it ends the session.
/// Everything else is delivered at once, `MalformedRequest` as fatal, the
/// transient family as retry-worthy.
pub open spec fn spec_route(phase: CallPhase, outcome: GatewayOutcome) -> Directive {
    match outcome {
        GatewayOutcome::Success => Directive::Deliver { result: CallResult::Granted },
        GatewayOutcome::SessionExpired => if phase is First {
            Directive::RotateAndRetry
        } else {
            Directive::Deliver {
                result: CallResult::Failed { failure: CallFailure::SessionInvalid },
            }
        },
        GatewayOutcome::MalformedRequest => Directive::Deliver {
            result: CallResult::Failed { failure: CallFailure::Fatal },
        },
        _ => Directive::Deliver { result: CallResult::Failed { failure: CallFailure::Transient } },
    }
}

pub fn route(phase: CallPhase, outcome: GatewayOutcome) -> (r: Directive)
    ensures
        r == spec_route(phase, outcome),
{
    match outcome {
        GatewayOutcome::Success => Directive::Deliver { result: CallResult::Granted },
        GatewayOutcome::SessionExpired => match phase {
            CallPhase::First => Directive::RotateAndRetry,
            CallPhase::Retried => Directive::Deliver {
                result: CallResult::Failed { failure: CallFailure::SessionInvalid },
            },
        },
        GatewayOutcome::MalformedRequest => Directive::Deliver {
            result: CallResult::Failed { failure: CallFailure::Fatal },
        },
        _ => Directive::Deliver { result: CallResult::Failed { failure: CallFailure::Transient } },
    }
}

/// At most one rotation and one replay per logical call: a rotation is
/// directed only on the first exchange, and a second consecutive
/// `SessionExpired` surfaces as `SessionInvalid` instead of looping.
pub proof fn lemma_one_rotation_per_call(phase: CallPhase, outcome: GatewayOutcome)
    ensures
        spec_route(phase, outcome) is RotateAndRetry <==> (phase is First
            && outcome is SessionExpired),
        spec_route(CallPhase::Retried, GatewayOutcome::SessionExpired) == (Directive::Deliver {
            result: CallResult::Failed { failure: CallFailure::SessionInvalid },
        }),
{
}

} // verus!

//! The gateway's response envelope: a JSON object carrying an ordered list
//! of outcome codes under `ret` and an endpoint-specific payload under
//! `data` (an opaque order token for order creation, an order reference
//! for order submission). The JSON work is delegated to serde_json behind
//! one trusted boundary; what each body yields is named as a function of
//! the body text alone, so the contracts here pin the envelope to the
//! text.

use vstd::prelude::*;

verus! {

/// Whether a text parses as a JSON document; parsing is a function of the
/// text alone.
pub uninterp spec fn json_wf(s: Seq<char>) -> bool;

/// Whether the JSON body carries a `ret` array whose elements are all
/// strings.
pub uninterp spec fn envelope_has_ret(s: Seq<char>) -> bool;

/// The outcome codes the body's `ret` array holds, in the order the
/// gateway sent them. Meaningful when `envelope_has_ret(s)`.
pub uninterp spec fn envelope_ret_codes(s: Seq<char>) -> Seq<Seq<char>>;

/// The `orderToken` string under the body's `data` member, if there is
/// one.
pub uninterp spec fn envelope_order_token(s: Seq<char>) -> Option<Seq<char>>;

/// The `orderId` string under the body's `data` member, if there is one.
pub uninterp spec fn envelope_order_ref(s: Seq<char>) -> Option<Seq<char>>;

/// Why a response body yielded no envelope.
#[derive(Debug)]
pub enum EnvelopeError {
    /// The body is not JSON at all.
    NotJson,
    /// The body is JSON but carries no `ret` array of strings.
    MissingOutcome,
}

/// One parsed response, reduced to the plain values the core reads: the
/// outcome codes, and the payload fields of the two order endpoints.
pub struct GatewayEnvelope {
    pub outcome_codes: Vec<String>,
    pub order_token: Option<String>,
    pub order_ref: Option<String>,
}

/// The character sequences behind an optional string.
pub open spec fn spec_opt_str(o: Option<String>) -> Option<Seq<char>> {
    match o {
        Some(s) => Some(s@),
        None => None,
    }
}

/// Relies on serde_json::from_str::<Value> and Value::{get, as_array,
/// as_str}: what a body parses to is a function of the text alone. The
/// body parses once and moves the `ret` strings and the two `data` fields
/// out as plain values.
#[verifier::external_body]
fn envelope_from_body(s: &str) -> (r: Result<GatewayEnvelope, EnvelopeError>)
    ensures
        match r {
            Ok(env) => json_wf(s@) && envelope_has_ret(s@) && env.outcome_codes@.map_values(
                |c: String| c@,
            ) == envelope_ret_codes(s@) && spec_opt_str(env.order_token) == envelope_order_token(s@)
                && spec_opt_str(env.order_ref) == envelope_order_ref(s@),
            Err(e) => !(json_wf(s@) && envelope_has_ret(s@)) && (e is NotJson <==> !json_wf(s@)),
        },
{
    let v: serde_json::Value = match serde_json::from_str(s) {
        Ok(v) => v,
        Err(_) => return Err(EnvelopeError::NotJson),
    };
    let codes: Option<Vec<String>> = v.get("ret").and_then(|r| r.as_array()).and_then(
        |a| a.iter().map(|c| c.as_str().map(str::to_string)).collect(),
    );
    let Some(outcome_codes) = codes else {
        return Err(EnvelopeError::MissingOutcome);
    };
    let grab = |k| v.get("data").and_then(|d| d.get(k)).and_then(|t| t.as_str()).map(str::to_string);
    Ok(GatewayEnvelope { outcome_codes, order_token: grab("orderToken"), order_ref: grab("orderId") })
}

/// Parse a response body into an envelope. The gateway reports
/// application errors inside 200-status bodies, so the body is parsed
/// regardless of HTTP status. An envelope is owed exactly when the body
/// is JSON with a `ret` array of strings; a non-JSON body is exactly
/// `NotJson`, and the envelope's codes and payload fields are exactly
/// those of the body text.
pub fn parse_envelope(body: &str) -> (r: Result<GatewayEnvelope, EnvelopeError>)
    ensures
        r is Ok <==> json_wf(body@) && envelope_has_ret(body@),
        r matches Err(e) ==> (e is NotJson <==> !json_wf(body@)),
        r matches Ok(env) ==> env.outcome_codes@.map_values(|c: String| c@) == envelope_ret_codes(
            body@,
        ) && spec_opt_str(env.order_token) == envelope_order_token(body@) && spec_opt_str(
            env.order_ref,
        ) == envelope_order_ref(body@),
{
    envelope_from_body(body)
}

} // verus!

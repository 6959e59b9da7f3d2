use vstd::prelude::*;

use crate::data::{ChainConfig, ForkChoiceOutcome, ForkChoiceState, PayloadAttributesV3, Hash256};
use crate::error::EngineError;
use crate::handler::{
    ForkChoiceUpdatedV3, HandlerStep, already_canonical_response, applied_response,
    syncing_response,
};
use crate::payload::{BuildPayloadArgs, payload_gate};
use crate::response::{ForkChoiceResponse, is_syncing_response, is_valid_response_with};

verus! {

/// Law: when the fork-choice application finds the requested head already
/// canonical, the handler only looks the canonical head up and answers
/// `VALID` naming it, with no payload identifier — and the answer does not
/// depend on the hashes the request carried.
pub proof fn lemma_already_canonical_uses_canonical_head(
    req1: ForkChoiceUpdatedV3,
    req2: ForkChoiceUpdatedV3,
    step1: HandlerStep,
    step2: HandlerStep,
    canonical_head: Hash256,
    out1: Result<ForkChoiceResponse, EngineError>,
    out2: Result<ForkChoiceResponse, EngineError>,
)
    requires
        call_ensures(
            ForkChoiceUpdatedV3::initial_step,
            (&req1, ForkChoiceOutcome::AlreadyCanonical),
            step1,
        ),
        call_ensures(
            ForkChoiceUpdatedV3::initial_step,
            (&req2, ForkChoiceOutcome::AlreadyCanonical),
            step2,
        ),
        call_ensures(already_canonical_response, (Some(canonical_head),), out1),
        call_ensures(already_canonical_response, (Some(canonical_head),), out2),
    ensures
        step1 == HandlerStep::LookUpCanonicalHead,
        step2 == HandlerStep::LookUpCanonicalHead,
        out1 matches Ok(resp) && is_valid_response_with(resp, canonical_head) && resp.payload_id
            is None,
        out1 == out2,
{
}

/// Law: a syncing outcome aims synchronization at the requested head and is
/// answered with a bare `SYNCING` status that never carries a payload
/// identifier.
pub proof fn lemma_syncing_answered_without_payload(
    req: ForkChoiceUpdatedV3,
    step: HandlerStep,
    resp: ForkChoiceResponse,
)
    requires
        call_ensures(ForkChoiceUpdatedV3::initial_step, (&req, ForkChoiceOutcome::Syncing), step),
        call_ensures(syncing_response, (), resp),
    ensures
        step matches HandlerStep::TriggerSync { sync_head } && sync_head
            == req.fork_choice_state.head_block_hash,
        is_syncing_response(resp),
        resp.payload_id is None,
{
}

/// Law: an invalid fork-choice state ends the request with a terminal error
/// carrying the engine's reason; no response value exists on that path.
pub proof fn lemma_invalid_outcome_is_terminal(
    req: ForkChoiceUpdatedV3,
    reason: String,
    step: HandlerStep,
)
    requires
        call_ensures(
            ForkChoiceUpdatedV3::initial_step,
            (&req, ForkChoiceOutcome::Invalid { reason }),
            step,
        ),
    ensures
        step matches HandlerStep::Reject { error } && error
            matches EngineError::InvalidForkChoiceState(m) && m == reason,
{
}

/// Law: when the fork choice took effect and the request carried no
/// attributes, the answer is `VALID` naming the requested head, with no
/// payload identifier.
pub proof fn lemma_applied_without_attributes(
    req: ForkChoiceUpdatedV3,
    att: Result<Option<&PayloadAttributesV3>, EngineError>,
    resp: ForkChoiceResponse,
)
    requires
        req.payload_attributes matches Ok(None),
        call_ensures(ForkChoiceUpdatedV3::attributes_or_error, (&req,), att),
        call_ensures(applied_response, (&req.fork_choice_state,), resp),
    ensures
        att matches Ok(p) && p is None,
        is_valid_response_with(resp, req.fork_choice_state.head_block_hash),
        resp.payload_id is None,
{
}

/// Law: no attribute error can surface from classifying the application
/// outcome itself — a rejection at that point always reports the invalid
/// fork-choice state. Attribute problems are raised only by the later gate,
/// after the fork-choice state change has taken effect.
pub proof fn lemma_attribute_errors_come_after_apply(
    req: ForkChoiceUpdatedV3,
    outcome: ForkChoiceOutcome,
    step: HandlerStep,
)
    requires
        call_ensures(ForkChoiceUpdatedV3::initial_step, (&req, outcome), step),
    ensures
        step is Reject ==> outcome is Invalid,
        step matches HandlerStep::Reject { error } ==> !(error is InvalidPayloadAttributes),
{
}

/// Law: well-formed attributes whose timestamp does not strictly increase
/// over the head block's never pass the payload gate; under an active fork
/// the failure is precisely the invalid-timestamp attribute error.
pub proof fn lemma_stale_timestamp_rejected(
    state: ForkChoiceState,
    attrs: PayloadAttributesV3,
    config: ChainConfig,
    head_timestamp: u64,
    r: Result<(BuildPayloadArgs, u64), EngineError>,
)
    requires
        call_ensures(payload_gate, (&state, &attrs, &config, head_timestamp), r),
        attrs.timestamp <= head_timestamp,
    ensures
        r is Err,
        config.spec_is_cancun_activated(attrs.timestamp) ==> (r matches Err(e) && e
            matches EngineError::InvalidPayloadAttributes(m) && m@ == "invalid timestamp"@),
{
}

/// Law: the derived payload identifier is a pure function of the requested
/// head hash, timestamp, fee recipient, randomness seed, withdrawals and
/// beacon root — two gate passes over identical inputs yield identical
/// identifiers, whatever else differs between the two requests.
pub proof fn lemma_payload_id_deterministic(
    state1: ForkChoiceState,
    attrs1: PayloadAttributesV3,
    config1: ChainConfig,
    head_timestamp1: u64,
    r1: Result<(BuildPayloadArgs, u64), EngineError>,
    state2: ForkChoiceState,
    attrs2: PayloadAttributesV3,
    config2: ChainConfig,
    head_timestamp2: u64,
    r2: Result<(BuildPayloadArgs, u64), EngineError>,
)
    requires
        call_ensures(payload_gate, (&state1, &attrs1, &config1, head_timestamp1), r1),
        call_ensures(payload_gate, (&state2, &attrs2, &config2, head_timestamp2), r2),
        state1.head_block_hash == state2.head_block_hash,
        attrs1.timestamp == attrs2.timestamp,
        attrs1.suggested_fee_recipient == attrs2.suggested_fee_recipient,
        attrs1.prev_randao == attrs2.prev_randao,
        attrs1.withdrawals@ == attrs2.withdrawals@,
        attrs1.parent_beacon_block_root == attrs2.parent_beacon_block_root,
    ensures
        r1 matches Ok(b1) ==> r2 matches Ok(b2) ==> b1.1 == b2.1,
{
}

} // verus!

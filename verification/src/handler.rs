use vstd::prelude::*;

use crate::data::{ForkChoiceOutcome, ForkChoiceState, Hash256, PayloadAttributesV3};
use crate::error::EngineError;
use crate::response::{
    ForkChoiceResponse, PayloadStatus, is_syncing_response, is_valid_response_with,
};

verus! {

/// A decoded fork-choice-update request: the fork-choice state the caller
/// wants applied, and the separately-fallible payload attributes. A failed
/// attribute decode is carried as a value, not an abort, because the fork
/// choice must be applied before that failure is surfaced.
#[derive(PartialEq, Eq, Debug)]
pub struct ForkChoiceUpdatedV3 {
    pub fork_choice_state: ForkChoiceState,
    pub payload_attributes: Result<Option<PayloadAttributesV3>, String>,
}

/// What the handler must do next, decided from the outcome of the
/// fork-choice application. Exactly one step per outcome; only `Reject`
/// ends the request without a response.
#[derive(Clone, PartialEq, Eq, Debug)]
pub enum HandlerStep {
    /// Look the current canonical head up in storage and answer `VALID`
    /// with it.
    LookUpCanonicalHead,
    /// Start synchronizing toward `sync_head` and answer `SYNCING`.
    TriggerSync { sync_head: Hash256 },
    /// End the request with this terminal error.
    Reject { error: EngineError },
    /// The fork choice took effect on a head block with this timestamp;
    /// answer `VALID` and, if attributes came along, run the payload gate.
    BuildFromAttributes { head_timestamp: u64 },
}

impl ForkChoiceUpdatedV3 {
    /// The decoder's shape rule: a request carries exactly two positional
    /// parameters, and anything else is malformed before any side effect.
    pub fn check_params_shape(params_len: Option<usize>) -> (r: Result<(), EngineError>)
        ensures
            r is Ok <==> params_len == Some(2usize),
            params_len is None ==> (r matches Err(e) && e matches EngineError::BadParams(m) && m@
                == "No params provided"@),
            (params_len matches Some(n) && n != 2) ==> (r matches Err(e)
                && e matches EngineError::BadParams(m) && m@ == "Expected 2 params"@),
    {
        match params_len {
            None => Err(EngineError::BadParams("No params provided".to_owned())),
            Some(n) => {
                if n != 2 {
                    Err(EngineError::BadParams("Expected 2 params".to_owned()))
                } else {
                    Ok(())
                }
            },
        }
    }

    /// Assembles a request from the two decoded parameters. A fork-choice
    /// state that failed to decode is fatal to the whole request; a failed
    /// attribute decode is kept as a value for the orchestrator to surface
    /// later.
    pub fn parse(
        fork_choice_state: Result<ForkChoiceState, String>,
        payload_attributes: Result<Option<PayloadAttributesV3>, String>,
    ) -> (r: Result<ForkChoiceUpdatedV3, EngineError>)
        ensures
            fork_choice_state matches Ok(s) ==> (r matches Ok(req) && req.fork_choice_state == s
                && req.payload_attributes == payload_attributes),
            fork_choice_state matches Err(e) ==> (r matches Err(err)
                && err matches EngineError::BadParams(m) && m == e),
    {
        match fork_choice_state {
            Ok(s) => Ok(ForkChoiceUpdatedV3 { fork_choice_state: s, payload_attributes }),
            Err(e) => Err(EngineError::BadParams(e)),
        }
    }

    /// Classifies the outcome of the fork-choice application into the one
    /// step the handler takes next. An invalid state becomes a terminal
    /// `InvalidForkChoiceState` error carrying the engine's reason; a
    /// syncing outcome aims synchronization at the requested head.
    pub fn initial_step(&self, outcome: ForkChoiceOutcome) -> (r: HandlerStep)
        ensures
            outcome is AlreadyCanonical <==> r is LookUpCanonicalHead,
            outcome is Syncing <==> r is TriggerSync,
            outcome is Invalid <==> r is Reject,
            outcome is Applied <==> r is BuildFromAttributes,
            r matches HandlerStep::TriggerSync { sync_head } ==> sync_head
                == self.fork_choice_state.head_block_hash,
            outcome matches ForkChoiceOutcome::Invalid { reason } ==> (r
                matches HandlerStep::Reject { error }
                && error matches EngineError::InvalidForkChoiceState(m) && m == reason),
            outcome matches ForkChoiceOutcome::Applied { head_timestamp } ==> (r
                matches HandlerStep::BuildFromAttributes { head_timestamp: t } && t
                == head_timestamp),
    {
        match outcome {
            ForkChoiceOutcome::Applied { head_timestamp } => HandlerStep::BuildFromAttributes {
                head_timestamp,
            },
            ForkChoiceOutcome::AlreadyCanonical => HandlerStep::LookUpCanonicalHead,
            ForkChoiceOutcome::Syncing => HandlerStep::TriggerSync {
                sync_head: self.fork_choice_state.head_block_hash,
            },
            ForkChoiceOutcome::Invalid { reason } => HandlerStep::Reject {
                error: EngineError::InvalidForkChoiceState(reason),
            },
        }
    }

    /// Surfaces the deferred attribute-decode result, once the fork choice
    /// has been applied: a decode failure now becomes the terminal
    /// `InvalidPayloadAttributes` error; otherwise the attributes, if any,
    /// are handed to the payload gate.
    pub fn attributes_or_error(&self) -> (r: Result<Option<&PayloadAttributesV3>, EngineError>)
        ensures
            self.payload_attributes is Ok <==> r is Ok,
            self.payload_attributes matches Ok(Some(a)) ==> (r matches Ok(Some(p)) && *p == a),
            self.payload_attributes matches Ok(None) ==> (r matches Ok(p) && p is None),
            self.payload_attributes matches Err(e) ==> (r matches Err(err)
                && err matches EngineError::InvalidPayloadAttributes(m) && m == e),
    {
        match &self.payload_attributes {
            Err(e) => Err(EngineError::InvalidPayloadAttributes(e.clone())),
            Ok(None) => Ok(None),
            Ok(Some(a)) => Ok(Some(a)),
        }
    }

    /// Hands the request back as the two positional parameters of the
    /// remote call it stands for, refusing a request whose attributes never
    /// decoded.
    pub fn to_request_parts(&self) -> (r: Result<
        (&ForkChoiceState, &Option<PayloadAttributesV3>),
        &String,
    >)
        ensures
            self.payload_attributes matches Ok(a) ==> (r matches Ok(p) && *p.0
                == self.fork_choice_state && *p.1 == a),
            self.payload_attributes matches Err(e) ==> (r matches Err(m) && *m == e),
    {
        match &self.payload_attributes {
            Ok(a) => Ok((&self.fork_choice_state, a)),
            Err(e) => Err(e),
        }
    }

    /// The fixed name under which this request is dispatched.
    pub fn method_name() -> (r: &'static str)
        ensures
            r@ == "engine_forkchoiceUpdatedV3"@,
    {
        "engine_forkchoiceUpdatedV3"
    }
}

/// Answers an already-canonical outcome: `VALID` naming the chain's current
/// canonical head — a fresh lookup, not the requested head. The lookup is
/// owed to succeed; a missing head is a storage-consistency fault.
pub fn already_canonical_response(canonical_head: Option<Hash256>) -> (r: Result<
    ForkChoiceResponse,
    EngineError,
>)
    ensures
        canonical_head matches Some(h) ==> (r matches Ok(resp) && is_valid_response_with(resp, h)
            && resp.payload_id is None),
        canonical_head is None ==> (r matches Err(e) && e matches EngineError::Internal(m) && m@
            == "Missing latest canonical block"@),
{
    match canonical_head {
        Some(h) => Ok(ForkChoiceResponse::from(PayloadStatus::valid_with_hash(h))),
        None => Err(EngineError::Internal("Missing latest canonical block".to_owned())),
    }
}

/// Answers a syncing outcome: a bare `SYNCING`, with no hash, no validation
/// error, and never a payload identifier.
pub fn syncing_response() -> (r: ForkChoiceResponse)
    ensures
        is_syncing_response(r),
{
    ForkChoiceResponse::from(PayloadStatus::syncing())
}

/// The provisional answer once the fork choice took effect: `VALID` naming
/// the requested head, with no payload identifier yet.
pub fn applied_response(state: &ForkChoiceState) -> (r: ForkChoiceResponse)
    ensures
        is_valid_response_with(r, state.head_block_hash),
        r.payload_id is None,
{
    ForkChoiceResponse::from(PayloadStatus::valid_with_hash(state.head_block_hash))
}

/// What the payload-construction engine reported when a build failed: an
/// execution-level failure of the payload itself, or anything else — the
/// parent block is guaranteed present by then, so anything else reflects a
/// storage or internal fault.
#[derive(Clone, PartialEq, Eq, Debug)]
pub enum BuildFailure {
    Evm { message: String },
    Other { message: String },
}

/// Classifies a failed build: an execution failure is surfaced to the caller
/// as the reason the block could not be built; everything else is internal.
pub fn classify_build_failure(failure: BuildFailure) -> (r: EngineError)
    ensures
        failure matches BuildFailure::Evm { message } ==> (r matches EngineError::VmError(m) && m
            == message),
        failure matches BuildFailure::Other { message } ==> (r matches EngineError::Internal(m)
            && m == message),
{
    match failure {
        BuildFailure::Evm { message } => EngineError::VmError(message),
        BuildFailure::Other { message } => EngineError::Internal(message),
    }
}

} // verus!

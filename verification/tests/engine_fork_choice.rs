use fork_choice::data::{
    Address, ChainConfig, ForkChoiceOutcome, ForkChoiceState, Hash256, PayloadAttributesV3,
    Withdrawal,
};
use fork_choice::error::EngineError;
use fork_choice::handler::{
    already_canonical_response, applied_response, classify_build_failure, syncing_response,
    BuildFailure, ForkChoiceUpdatedV3, HandlerStep,
};
use fork_choice::payload::payload_gate;
use fork_choice::response::{ForkChoiceResponse, PayloadStatus, PayloadValidationStatus};
use fork_choice::sync::sync_start_command;

fn hash(b: u8) -> Hash256 {
    Hash256::repeated(b)
}

fn state(head: u8, safe: u8, finalized: u8) -> ForkChoiceState {
    ForkChoiceState {
        head_block_hash: hash(head),
        safe_block_hash: hash(safe),
        finalized_block_hash: hash(finalized),
    }
}

fn attributes(timestamp: u64) -> PayloadAttributesV3 {
    PayloadAttributesV3 {
        timestamp,
        suggested_fee_recipient: Address { bytes: [0x11; 20] },
        prev_randao: hash(0x22),
        withdrawals: vec![Withdrawal {
            index: 1,
            validator_index: 7,
            address: Address { bytes: [0x33; 20] },
            amount: 1_000_000,
        }],
        parent_beacon_block_root: hash(0x44),
    }
}

fn request(head: u8, attrs: Result<Option<PayloadAttributesV3>, String>) -> ForkChoiceUpdatedV3 {
    ForkChoiceUpdatedV3 {
        fork_choice_state: state(head, head, head),
        payload_attributes: attrs,
    }
}

#[test]
fn shape_rule_missing_params() {
    let r = ForkChoiceUpdatedV3::check_params_shape(None);
    assert_eq!(r, Err(EngineError::BadParams("No params provided".to_string())));
}

#[test]
fn shape_rule_wrong_count() {
    for n in [0usize, 1, 3, 4] {
        let r = ForkChoiceUpdatedV3::check_params_shape(Some(n));
        assert_eq!(r, Err(EngineError::BadParams("Expected 2 params".to_string())));
    }
}

#[test]
fn shape_rule_two_params() {
    assert_eq!(ForkChoiceUpdatedV3::check_params_shape(Some(2)), Ok(()));
}

#[test]
fn parse_bad_state_is_fatal() {
    let r = ForkChoiceUpdatedV3::parse(Err("bad hash".to_string()), Ok(None));
    assert_eq!(r, Err(EngineError::BadParams("bad hash".to_string())));
}

#[test]
fn parse_carries_attribute_failure() {
    let r = ForkChoiceUpdatedV3::parse(
        Ok(state(0xAA, 0xAA, 0x99)),
        Err("missing field".to_string()),
    )
    .unwrap();
    assert_eq!(r.fork_choice_state, state(0xAA, 0xAA, 0x99));
    assert_eq!(r.payload_attributes, Err("missing field".to_string()));
}

#[test]
fn already_canonical_scenario() {
    // head 0xAA, safe 0xAA, finalized 0x99, no attributes; the chain's
    // canonical head is already 0xAA.
    let req = ForkChoiceUpdatedV3 {
        fork_choice_state: state(0xAA, 0xAA, 0x99),
        payload_attributes: Ok(None),
    };
    let step = req.initial_step(ForkChoiceOutcome::AlreadyCanonical);
    assert_eq!(step, HandlerStep::LookUpCanonicalHead);
    let resp = already_canonical_response(Some(hash(0xAA))).unwrap();
    assert_eq!(resp.payload_status.status, PayloadValidationStatus::Valid);
    assert_eq!(resp.payload_status.latest_valid_hash, Some(hash(0xAA)));
    assert_eq!(resp.payload_status.validation_error, None);
    assert_eq!(resp.payload_id, None);
}

#[test]
fn already_canonical_ignores_requested_hashes() {
    let r1 = already_canonical_response(Some(hash(0x01))).unwrap();
    let r2 = already_canonical_response(Some(hash(0x01))).unwrap();
    assert_eq!(r1, r2);
    assert_eq!(r1.payload_status.latest_valid_hash, Some(hash(0x01)));
}

#[test]
fn already_canonical_missing_head_is_internal() {
    let r = already_canonical_response(None);
    assert_eq!(
        r,
        Err(EngineError::Internal("Missing latest canonical block".to_string()))
    );
}

#[test]
fn syncing_scenario() {
    // The requested head 0xBB is unknown locally; the previous canonical
    // head is 0xAA at height 5.
    let req = request(0xBB, Ok(None));
    let step = req.initial_step(ForkChoiceOutcome::Syncing);
    assert_eq!(step, HandlerStep::TriggerSync { sync_head: hash(0xBB) });
    let cmd = sync_start_command(Some(5), Some(hash(0xAA)), hash(0xBB)).unwrap();
    assert_eq!(cmd.current_head, hash(0xAA));
    assert_eq!(cmd.sync_head, hash(0xBB));
    let resp = syncing_response();
    assert_eq!(resp.payload_status.status, PayloadValidationStatus::Syncing);
    assert_eq!(resp.payload_status.latest_valid_hash, None);
    assert_eq!(resp.payload_status.validation_error, None);
    assert_eq!(resp.payload_id, None);
}

#[test]
fn syncing_with_corrupt_storage_is_internal() {
    let missing_number = sync_start_command(None, None, hash(0xBB));
    assert_eq!(
        missing_number,
        Err(EngineError::Internal("Missing latest canonical block".to_string()))
    );
    let missing_hash = sync_start_command(Some(5), None, hash(0xBB));
    assert_eq!(
        missing_hash,
        Err(EngineError::Internal("Missing latest canonical block".to_string()))
    );
}

#[test]
fn invalid_outcome_is_a_terminal_error() {
    let req = request(0xBB, Ok(None));
    let step = req.initial_step(ForkChoiceOutcome::Invalid {
        reason: "Pre merge block can't be a fork choice update.".to_string(),
    });
    assert_eq!(
        step,
        HandlerStep::Reject {
            error: EngineError::InvalidForkChoiceState(
                "Pre merge block can't be a fork choice update.".to_string()
            )
        }
    );
}

#[test]
fn applied_without_attributes_is_valid_with_requested_head() {
    let req = request(0xCC, Ok(None));
    let step = req.initial_step(ForkChoiceOutcome::Applied { head_timestamp: 10 });
    assert_eq!(step, HandlerStep::BuildFromAttributes { head_timestamp: 10 });
    assert_eq!(req.attributes_or_error().unwrap(), None);
    let resp = applied_response(&req.fork_choice_state);
    assert_eq!(resp.payload_status.status, PayloadValidationStatus::Valid);
    assert_eq!(resp.payload_status.latest_valid_hash, Some(hash(0xCC)));
    assert_eq!(resp.payload_status.validation_error, None);
    assert_eq!(resp.payload_id, None);
}

#[test]
fn undecodable_attributes_fail_only_after_apply() {
    // The attribute-decode failure is carried through parsing, survives the
    // outcome classification, and only surfaces once the fork choice has
    // been applied.
    let req = request(0xCC, Err("attributes: invalid type".to_string()));
    let step = req.initial_step(ForkChoiceOutcome::Applied { head_timestamp: 10 });
    assert_eq!(step, HandlerStep::BuildFromAttributes { head_timestamp: 10 });
    let e = req.attributes_or_error().unwrap_err();
    assert_eq!(
        e,
        EngineError::InvalidPayloadAttributes("attributes: invalid type".to_string())
    );
}

#[test]
fn stale_timestamp_scenario() {
    // Attributes whose timestamp equals the head block timestamp are
    // rejected with the invalid-timestamp error, after the fork choice
    // itself has already been applied.
    let req = request(0xCC, Ok(Some(attributes(100))));
    let step = req.initial_step(ForkChoiceOutcome::Applied { head_timestamp: 100 });
    assert_eq!(step, HandlerStep::BuildFromAttributes { head_timestamp: 100 });
    let attrs = req.attributes_or_error().unwrap().unwrap().clone();
    let cfg = ChainConfig { cancun_time: Some(0) };
    let r = payload_gate(&req.fork_choice_state, &attrs, &cfg, 100);
    assert_eq!(
        r.unwrap_err(),
        EngineError::InvalidPayloadAttributes("invalid timestamp".to_string())
    );
}

#[test]
fn pre_cancun_timestamp_is_unsupported() {
    let st = state(0xCC, 0xCC, 0xCC);
    let cfg = ChainConfig { cancun_time: Some(1_000) };
    let r = payload_gate(&st, &attributes(999), &cfg, 10);
    assert_eq!(
        r.unwrap_err(),
        EngineError::UnsupportedFork("forkChoiceV3 used to build pre-Cancun payload".to_string())
    );
    let never = ChainConfig { cancun_time: None };
    let r2 = payload_gate(&st, &attributes(999), &never, 10);
    assert_eq!(
        r2.unwrap_err(),
        EngineError::UnsupportedFork("forkChoiceV3 used to build pre-Cancun payload".to_string())
    );
}

#[test]
fn cancun_activation_boundary() {
    let cfg = ChainConfig { cancun_time: Some(500) };
    assert!(!cfg.is_cancun_activated(499));
    assert!(cfg.is_cancun_activated(500));
    assert!(cfg.is_cancun_activated(501));
}

#[test]
fn gate_builds_args_from_state_and_attributes() {
    let st = state(0xCC, 0xBB, 0xAA);
    let attrs = attributes(200);
    let cfg = ChainConfig { cancun_time: Some(0) };
    let (args, _id) = payload_gate(&st, &attrs, &cfg, 199).unwrap();
    assert_eq!(args.parent, hash(0xCC));
    assert_eq!(args.timestamp, 200);
    assert_eq!(args.fee_recipient, attrs.suggested_fee_recipient);
    assert_eq!(args.random, attrs.prev_randao);
    assert_eq!(args.withdrawals, attrs.withdrawals);
    assert_eq!(args.beacon_root, Some(attrs.parent_beacon_block_root));
    assert_eq!(args.version, 3);
}

#[test]
fn payload_id_is_deterministic() {
    let st = state(0xCC, 0xBB, 0xAA);
    let cfg = ChainConfig { cancun_time: Some(0) };
    let (_, id1) = payload_gate(&st, &attributes(200), &cfg, 199).unwrap();
    let (_, id2) = payload_gate(&st, &attributes(200), &cfg, 150).unwrap();
    assert_eq!(id1, id2);
}

#[test]
fn payload_id_depends_on_its_inputs() {
    let st = state(0xCC, 0xBB, 0xAA);
    let other_head = state(0xDD, 0xBB, 0xAA);
    let cfg = ChainConfig { cancun_time: Some(0) };
    let (_, id) = payload_gate(&st, &attributes(200), &cfg, 199).unwrap();
    let (_, id_other_time) = payload_gate(&st, &attributes(201), &cfg, 199).unwrap();
    let (_, id_other_head) = payload_gate(&other_head, &attributes(200), &cfg, 199).unwrap();
    assert_ne!(id, id_other_time);
    assert_ne!(id, id_other_head);
}

#[test]
fn build_failures_are_classified() {
    let evm = classify_build_failure(BuildFailure::Evm { message: "revert".to_string() });
    assert_eq!(evm, EngineError::VmError("revert".to_string()));
    let other = classify_build_failure(BuildFailure::Other { message: "db".to_string() });
    assert_eq!(other, EngineError::Internal("db".to_string()));
}

#[test]
fn set_id_keeps_the_status() {
    let mut resp = applied_response(&state(0xCC, 0xCC, 0xCC).clone());
    resp.set_id(0x0300_0000_0000_0001);
    assert_eq!(resp.payload_id, Some(0x0300_0000_0000_0001));
    assert_eq!(resp.payload_status.status, PayloadValidationStatus::Valid);
    assert_eq!(resp.payload_status.latest_valid_hash, Some(hash(0xCC)));
}

#[test]
fn response_from_status_starts_no_build() {
    let resp = ForkChoiceResponse::from(PayloadStatus::syncing());
    assert_eq!(resp.payload_id, None);
    let resp2 = ForkChoiceResponse::from(PayloadStatus::valid_with_hash(hash(0x05)));
    assert_eq!(resp2.payload_status.latest_valid_hash, Some(hash(0x05)));
    assert_eq!(resp2.payload_id, None);
}

#[test]
fn request_parts_refuse_undecoded_attributes() {
    let ok = request(0xAA, Ok(Some(attributes(5))));
    let (st, attrs) = ok.to_request_parts().unwrap();
    assert_eq!(*st, ok.fork_choice_state);
    assert_eq!(*attrs, Some(attributes(5)));
    let bad = request(0xAA, Err("boom".to_string()));
    assert_eq!(bad.to_request_parts().unwrap_err(), &"boom".to_string());
}

#[test]
fn method_name_is_fixed() {
    assert_eq!(ForkChoiceUpdatedV3::method_name(), "engine_forkchoiceUpdatedV3");
}

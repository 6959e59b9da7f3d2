use vstd::prelude::*;

use crate::data::{Address, ChainConfig, ForkChoiceState, Hash256, PayloadAttributesV3, Withdrawal};
use crate::error::EngineError;
use ethrex_common::types::Withdrawal as EthrexWithdrawal;
use ethrex_common::{H160 as EthrexH160, H256 as EthrexH256};

verus! {

/// Everything the payload-construction engine needs to build a candidate
/// block: derived from the requested head and the payload attributes, plus
/// the fixed protocol-version tag of this handler.
#[derive(Clone, PartialEq, Eq, Debug)]
pub struct BuildPayloadArgs {
    pub parent: Hash256,
    pub timestamp: u64,
    pub fee_recipient: Address,
    pub random: Hash256,
    pub withdrawals: Vec<Withdrawal>,
    pub beacon_root: Option<Hash256>,
    pub version: u8,
}

/// The 8-byte payload identifier that the payload-construction engine derives
/// from build arguments: a keccak-based digest of exactly these components, so
/// a function of them alone.
pub uninterp spec fn payload_id_of(
    parent: Hash256,
    timestamp: u64,
    fee_recipient: Address,
    random: Hash256,
    withdrawals: Seq<Withdrawal>,
    beacon_root: Option<Hash256>,
    version: u8,
) -> u64;

/// Relies on `ethrex_blockchain::payload::BuildPayloadArgs::id`: it hashes
/// parent, timestamp, randomness, fee recipient, withdrawals and beacon root,
/// then stamps the version byte, reading nothing else for versions below 4;
/// its error branch is unreachable, as the digest slice it converts always
/// holds exactly 8 bytes.
#[verifier::external_body]
fn derive_payload_id(args: &BuildPayloadArgs) -> (r: u64)
    ensures
        r == payload_id_of(
            args.parent,
            args.timestamp,
            args.fee_recipient,
            args.random,
            args.withdrawals@,
            args.beacon_root,
            args.version,
        ),
{
    let withdrawals: Vec<EthrexWithdrawal> = args.withdrawals.iter().map(|w| EthrexWithdrawal {
        index: w.index, validator_index: w.validator_index,
        address: EthrexH160(w.address.bytes), amount: w.amount,
    }).collect();
    let ethrex_args = ethrex_blockchain::payload::BuildPayloadArgs {
        parent: EthrexH256(args.parent.bytes), timestamp: args.timestamp,
        fee_recipient: EthrexH160(args.fee_recipient.bytes), random: EthrexH256(args.random.bytes),
        withdrawals: Some(withdrawals), beacon_root: args.beacon_root.map(|h| EthrexH256(h.bytes)),
        slot_number: None, version: args.version, elasticity_multiplier: 2, gas_ceil: 0,
    };
    ethrex_args.id().unwrap_or(0)
}

/// Copies a withdrawal list element by element.
fn copy_withdrawals(v: &Vec<Withdrawal>) -> (r: Vec<Withdrawal>)
    ensures
        r@ == v@,
{
    let mut r: Vec<Withdrawal> = Vec::new();
    let mut i: usize = 0;
    while i < v.len()
        invariant
            i <= v.len(),
            r@ == v@.subrange(0, i as int),
        decreases v.len() - i,
    {
        r.push(v[i]);
        proof {
            assert(r@ =~= v@.subrange(0, i as int + 1));
        }
        i = i + 1;
    }
    proof {
        assert(r@ =~= v@);
    }
    r
}

/// The payload gate: invoked only after a fork-choice application came back
/// `Applied`, and only when well-formed attributes are present. It checks the
/// fork-activation and timestamp-ordering preconditions, and on success hands
/// back the build arguments together with their derived payload identifier.
///
/// Success is owed exactly when Cancun is active at the requested timestamp
/// and the timestamp strictly increases over the head block's; each failing
/// precondition maps to its own error.
pub fn payload_gate(
    state: &ForkChoiceState,
    attrs: &PayloadAttributesV3,
    config: &ChainConfig,
    head_timestamp: u64,
) -> (r: Result<(BuildPayloadArgs, u64), EngineError>)
    ensures
        r is Ok <==> config.spec_is_cancun_activated(attrs.timestamp) && attrs.timestamp
            > head_timestamp,
        r matches Ok(build) ==> {
            &&& build.0.parent == state.head_block_hash
            &&& build.0.timestamp == attrs.timestamp
            &&& build.0.fee_recipient == attrs.suggested_fee_recipient
            &&& build.0.random == attrs.prev_randao
            &&& build.0.withdrawals@ == attrs.withdrawals@
            &&& build.0.beacon_root == Some(attrs.parent_beacon_block_root)
            &&& build.0.version == 3u8
            &&& build.1 == spec_payload_id(*state, *attrs)
        },
        !config.spec_is_cancun_activated(attrs.timestamp) ==> (r matches Err(e)
            && e matches EngineError::UnsupportedFork(m)
            && m@ == "forkChoiceV3 used to build pre-Cancun payload"@),
        config.spec_is_cancun_activated(attrs.timestamp) && attrs.timestamp <= head_timestamp ==> (
        r matches Err(e) && e matches EngineError::InvalidPayloadAttributes(m) && m@
            == "invalid timestamp"@),
{
    if !config.is_cancun_activated(attrs.timestamp) {
        return Err(EngineError::UnsupportedFork(
            "forkChoiceV3 used to build pre-Cancun payload".to_owned(),
        ));
    }
    if attrs.timestamp <= head_timestamp {
        return Err(EngineError::InvalidPayloadAttributes("invalid timestamp".to_owned()));
    }
    let args = BuildPayloadArgs {
        parent: state.head_block_hash,
        timestamp: attrs.timestamp,
        fee_recipient: attrs.suggested_fee_recipient,
        random: attrs.prev_randao,
        withdrawals: copy_withdrawals(&attrs.withdrawals),
        beacon_root: Some(attrs.parent_beacon_block_root),
        version: 3,
    };
    let id = derive_payload_id(&args);
    Ok((args, id))
}

/// The payload identifier owed for a given request: the engine's digest of
/// the requested head hash and the attribute fields, under this handler's
/// fixed protocol version.
pub open spec fn spec_payload_id(state: ForkChoiceState, attrs: PayloadAttributesV3) -> u64 {
    payload_id_of(
        state.head_block_hash,
        attrs.timestamp,
        attrs.suggested_fee_recipient,
        attrs.prev_randao,
        attrs.withdrawals@,
        Some(attrs.parent_beacon_block_root),
        3u8,
    )
}

} // verus!

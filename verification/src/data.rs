use vstd::prelude::*;

verus! {

/// A 256-bit word: a block hash, a randomness seed, or a beacon-chain root.
#[derive(Clone, Copy, PartialEq, Eq, Debug)]
pub struct Hash256 {
    pub bytes: [u8; 32],
}

impl Hash256 {
    /// A word whose 32 bytes all hold `b`; convenient for fixed test vectors.
    pub fn repeated(b: u8) -> (r: Hash256)
        ensures
            forall|i: int| 0 <= i < 32 ==> r.bytes[i] == b,
    {
        Hash256 { bytes: [b; 32] }
    }
}

/// A 160-bit account address, as used for the fee recipient of a payload.
#[derive(Clone, Copy, PartialEq, Eq, Debug)]
pub struct Address {
    pub bytes: [u8; 20],
}

/// A single validator withdrawal carried inside payload attributes.
#[derive(Clone, Copy, PartialEq, Eq, Debug)]
pub struct Withdrawal {
    pub index: u64,
    pub validator_index: u64,
    pub address: Address,
    pub amount: u64,
}

/// The fork-choice state sent by the consensus client: the block hashes it
/// wants as the new head, safe, and finalized blocks. The three may coincide.
#[derive(Clone, Copy, PartialEq, Eq, Debug)]
pub struct ForkChoiceState {
    pub head_block_hash: Hash256,
    pub safe_block_hash: Hash256,
    pub finalized_block_hash: Hash256,
}

/// Attributes of a payload the caller wants built on top of the new head.
#[derive(Clone, PartialEq, Eq, Debug)]
pub struct PayloadAttributesV3 {
    pub timestamp: u64,
    pub suggested_fee_recipient: Address,
    pub prev_randao: Hash256,
    pub withdrawals: Vec<Withdrawal>,
    pub parent_beacon_block_root: Hash256,
}

/// The slice of the chain configuration that the payload gate reads: the
/// timestamp at which the Cancun fork activates, if it activates at all.
#[derive(Clone, Copy, PartialEq, Eq, Debug)]
pub struct ChainConfig {
    pub cancun_time: Option<u64>,
}

impl ChainConfig {
    /// Cancun is active at `block_timestamp` when an activation time is
    /// configured and has been reached.
    pub open spec fn spec_is_cancun_activated(self, block_timestamp: u64) -> bool {
        self.cancun_time matches Some(t) && t <= block_timestamp
    }

    pub fn is_cancun_activated(&self, block_timestamp: u64) -> (r: bool)
        ensures
            r == self.spec_is_cancun_activated(block_timestamp),
    {
        match self.cancun_time {
            Some(t) => t <= block_timestamp,
            None => false,
        }
    }
}

/// The classified result of applying a fork-choice state to the chain,
/// as reported by the fork-choice application engine. Exactly one variant
/// is produced per application.
#[derive(Clone, PartialEq, Eq, Debug)]
pub enum ForkChoiceOutcome {
    /// The head/safe/finalized pointers were updated; the new head block has
    /// this timestamp.
    Applied { head_timestamp: u64 },
    /// The requested head was already the canonical head; nothing changed.
    AlreadyCanonical,
    /// The requested head is not known locally; the node must synchronize.
    Syncing,
    /// The state was rejected for the given reason.
    Invalid { reason: String },
}

} // verus!

use vstd::prelude::*;

verus! {

/// The terminal errors a fork-choice-update request can end with.
///
/// Every variant carries a message for the caller. `Internal` marks a
/// storage-consistency or serialization fault that well-formed input can
/// never cause; the others are structured errors the caller can act on.
#[derive(Clone, PartialEq, Eq, Debug)]
pub enum EngineError {
    /// The request itself was malformed: wrong parameter count, or an
    /// undecodable fork-choice state.
    BadParams(String),
    /// The fork-choice application engine rejected the state.
    InvalidForkChoiceState(String),
    /// The payload attributes were undecodable, or their timestamp does not
    /// strictly increase over the head block's.
    InvalidPayloadAttributes(String),
    /// The attributes ask for a payload of a protocol version whose fork is
    /// not active at the requested timestamp.
    UnsupportedFork(String),
    /// The payload-construction engine failed while executing the payload;
    /// surfaced to the caller as the reason the block could not be built.
    VmError(String),
    /// A storage or serialization fault: a bug or corruption signal.
    Internal(String),
}

} // verus!

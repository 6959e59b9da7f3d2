use vstd::prelude::*;

use crate::data::Hash256;

verus! {

/// The status vocabulary of a payload-status response.
#[derive(Clone, Copy, PartialEq, Eq, Debug)]
pub enum PayloadValidationStatus {
    Valid,
    Invalid,
    Syncing,
}

/// The payload-status part of a fork-choice response: a status, the latest
/// valid hash (present for `Valid`), and a validation error (present for
/// `Invalid`).
#[derive(Clone, PartialEq, Eq, Debug)]
pub struct PayloadStatus {
    pub status: PayloadValidationStatus,
    pub latest_valid_hash: Option<Hash256>,
    pub validation_error: Option<String>,
}

impl PayloadStatus {
    /// A `Valid` status naming `hash` as the latest valid hash.
    pub fn valid_with_hash(hash: Hash256) -> (r: PayloadStatus)
        ensures
            r.status is Valid,
            r.latest_valid_hash == Some(hash),
            r.validation_error is None,
    {
        PayloadStatus {
            status: PayloadValidationStatus::Valid,
            latest_valid_hash: Some(hash),
            validation_error: None,
        }
    }

    /// A bare `Syncing` status: no hash, no validation error.
    pub fn syncing() -> (r: PayloadStatus)
        ensures
            r.status is Syncing,
            r.latest_valid_hash is None,
            r.validation_error is None,
    {
        PayloadStatus {
            status: PayloadValidationStatus::Syncing,
            latest_valid_hash: None,
            validation_error: None,
        }
    }
}

/// The full response to a fork-choice update: a payload status, plus the
/// identifier of the payload whose construction was started, if any.
#[derive(Clone, PartialEq, Eq, Debug)]
pub struct ForkChoiceResponse {
    pub payload_status: PayloadStatus,
    pub payload_id: Option<u64>,
}

impl From<PayloadStatus> for ForkChoiceResponse {
    /// Wraps a bare payload status into a response that starts no build.
    fn from(status: PayloadStatus) -> (r: ForkChoiceResponse) {
        ForkChoiceResponse { payload_status: status, payload_id: None }
    }
}

impl vstd::std_specs::convert::FromSpecImpl<PayloadStatus> for ForkChoiceResponse {
    open spec fn obeys_from_spec() -> bool {
        true
    }

    open spec fn from_spec(status: PayloadStatus) -> ForkChoiceResponse {
        ForkChoiceResponse { payload_status: status, payload_id: None }
    }
}

impl ForkChoiceResponse {
    /// Records the identifier of the payload build this request started.
    /// The payload status is left untouched.
    pub fn set_id(&mut self, id: u64)
        ensures
            final(self).payload_status == old(self).payload_status,
            final(self).payload_id == Some(id),
    {
        self.payload_id = Some(id);
    }
}

/// The response is `VALID`, names `hash` as the latest valid hash, and
/// carries no validation error.
pub open spec fn is_valid_response_with(r: ForkChoiceResponse, hash: Hash256) -> bool {
    &&& r.payload_status.status is Valid
    &&& r.payload_status.latest_valid_hash == Some(hash)
    &&& r.payload_status.validation_error is None
}

/// The response is `SYNCING`: no hash, no validation error, and no payload
/// identifier.
pub open spec fn is_syncing_response(r: ForkChoiceResponse) -> bool {
    &&& r.payload_status.status is Syncing
    &&& r.payload_status.latest_valid_hash is None
    &&& r.payload_status.validation_error is None
    &&& r.payload_id is None
}

} // verus!

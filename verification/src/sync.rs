use vstd::prelude::*;

use crate::data::Hash256;
use crate::error::EngineError;

verus! {

/// A request to the synchronization subsystem: fetch and validate blocks
/// from the current canonical head toward the requested head. Started
/// detached from the request that caused it and never awaited by it.
#[derive(Clone, Copy, PartialEq, Eq, Debug)]
pub struct SyncCommand {
    pub current_head: Hash256,
    pub sync_head: Hash256,
}

/// Decides the synchronization start point from what storage reported: the
/// latest canonical block number and its hash. Both are owed to exist; if
/// either is missing the chain store is corrupted and the request ends with
/// an internal fault instead of starting a sync.
pub fn sync_start_command(
    latest_block_number: Option<u64>,
    latest_canonical_hash: Option<Hash256>,
    sync_head: Hash256,
) -> (r: Result<SyncCommand, EngineError>)
    ensures
        r is Ok <==> latest_block_number is Some && latest_canonical_hash is Some,
        r matches Ok(c) ==> (latest_canonical_hash matches Some(h) && c.current_head == h
            && c.sync_head == sync_head),
        r matches Err(e) ==> (e matches EngineError::Internal(m) && m@
            == "Missing latest canonical block"@),
{
    match (latest_block_number, latest_canonical_hash) {
        (Some(_), Some(h)) => Ok(SyncCommand { current_head: h, sync_head }),
        _ => Err(EngineError::Internal("Missing latest canonical block".to_owned())),
    }
}

} // verus!

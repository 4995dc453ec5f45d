//! The event envelope and the actions a handler can decide on.

use vstd::prelude::*;
use crate::hasher::BlockHeader;

verus! {

/// One event received from the host: a tagged union of the governance and
/// block events this module cares about, plus a catch-all for the open set
/// of event kinds it ignores.
pub enum Envelope {
    ProposalCreated { proposal_id: String, tier: String, author: String, block_height: u64 },
    ProposalVoted { proposal_id: String, voter: String, vote: String, block_height: u64 },
    ProposalMerged { proposal_id: String, merged_at: u64, block_height: u64 },
    NewBlock { block_hash: Vec<u8>, height: u64 },
    EconomicNodeRegistered { node_id: String, block_height: u64 },
    EconomicNodeVeto { node_id: String, block_height: u64 },
    Other,
}

/// A full block record as the host hands it out on query: the header that is
/// hashed, and the raw bytes of each transaction.
pub struct Block {
    pub header: BlockHeader,
    pub transactions: Vec<Vec<u8>>,
}

/// What the webhook notifier decides for one event. The caller runs the
/// outside half: it performs `Deliver` as a detached HTTP POST it never
/// waits on, and answers `QueryBlock` by asking the host and handing the
/// result back to `handle_block_response`.
pub enum Action {
    /// Nothing to send for this event.
    Skip,
    /// POST `body` (a complete JSON document) to `url`, fire and forget.
    Deliver { url: String, body: Vec<u8> },
    /// Ask the host for the block with this hash, then hand the answer back.
    QueryBlock { block_hash: Vec<u8>, height: u64 },
}

} // verus!

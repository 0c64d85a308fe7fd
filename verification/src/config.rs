//! The options that the crawler is started with.

use crate::header::BlockNumber;
use vstd::prelude::*;

verus! {

/// The crawler's configuration.
#[derive(Clone, Debug, PartialEq, Eq)]
pub struct Serve {
    /// RPC endpoint of the relay chain node.
    pub node_uri: String,
    /// RPC endpoint of the parachain node.
    pub para_node_uri: String,
    /// Height at which the relay chain replica starts.
    pub genesis_block: BlockNumber,
    /// Whether relay chain headers are grabbed.
    pub grab_headers: bool,
    /// Whether parachain headers are grabbed.
    pub grab_para_headers: bool,
    /// Whether storage changes are grabbed.
    pub grab_storage_changes: bool,
    /// Seconds to sleep between two iterations.
    pub interval: u64,
    /// How far the finalized relay head must be ahead of the next header
    /// before headers are grabbed, so that a justification can be had.
    pub justification_interval: BlockNumber,
    /// Largest number of blocks that one verify pass covers.
    pub check_batch: BlockNumber,
    /// Largest number of blocks whose storage changes one request fetches.
    pub grab_storage_changes_batch: BlockNumber,
}

} // verus!

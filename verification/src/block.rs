//! The parts of a block that the metrics read.

use vstd::prelude::*;

verus! {

/// Identifier of a block: the 32 bytes of its hash, in the node's byte order.
#[derive(Clone, Copy, Debug, PartialEq, Eq, Hash)]
pub struct BlockHash {
    pub bytes: [u8; 32],
}

/// Position of a block in the chain; the genesis block is at height 0.
pub type BlockHeight = u64;

/// What a node reports of one block, reduced to the fields the metrics use.
#[derive(Clone, Copy, Debug, PartialEq, Eq)]
pub struct BlockHeader {
    /// Hash of the block that this block builds on.
    pub prev_blockhash: BlockHash,
    /// Timestamp chosen by the miner, in seconds since the Unix epoch.
    pub time: u32,
    /// Number of transactions in the block body.
    pub tx_count: u64,
}

impl BlockHeader {
    /// A block that follows the consensus rules holds at least its coinbase
    /// transaction.
    pub open spec fn has_coinbase(self) -> bool {
        self.tx_count >= 1
    }
}

} // verus!

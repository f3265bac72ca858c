//! A model of the node's chain state, and what the metrics amount to on it.
//!
//! The model exists in proofs only. It says what an honest node answers; the
//! laws below say what the metrics then return, whatever connector carried
//! the calls.

use vstd::prelude::*;
use crate::block::{BlockHash, BlockHeader, BlockHeight};
use crate::connector::{Answer, Reply, Request};
use crate::error::{RpcError, RpcErrorKind};
use crate::metrics::{TimeToMine, TransactionCount};
use crate::span::seconds_delta;

verus! {

/// The chain state of a node: its best chain, lowest block first, and the
/// blocks whose data it holds.
pub struct Node {
    pub chain: Seq<BlockHash>,
    pub blocks: Map<BlockHash, BlockHeader>,
}

/// Whether a call failed because the node lacks what was asked for.
pub open spec fn not_found(answer: Answer) -> bool {
    answer matches Err(error) && error.kind == RpcErrorKind::NotFound
}

impl Node {
    /// The height of the last block of the best chain.
    pub open spec fn tip(self) -> int {
        self.chain.len() - 1
    }

    /// Whether the node has the block at `height` of its best chain.
    pub open spec fn has(self, height: int) -> bool {
        0 <= height <= self.tip() && self.blocks.dom().contains(self.chain[height])
    }

    /// The block at `height` of the best chain.
    pub open spec fn block(self, height: int) -> BlockHeader
        recommends
            self.has(height),
    {
        self.blocks[self.chain[height]]
    }

    /// Whether the block at `height` names the block below it as the one it
    /// builds on.
    pub open spec fn linked(self, height: int) -> bool {
        self.block(height).prev_blockhash == self.chain[height - 1]
    }

    /// Whether `answer` is what the node says to `request`. A question about
    /// something the node lacks fails as not found; nothing is said here of a
    /// summary of the unspent outputs.
    pub open spec fn answers(self, request: Request, answer: Answer) -> bool {
        match request {
            Request::BlockCount => self.chain.len() > 0 ==> answer == Ok::<Reply, RpcError>(
                Reply::BlockCount(self.tip() as u64),
            ),
            Request::BlockHash { height } => if height <= self.tip() {
                answer == Ok::<Reply, RpcError>(Reply::BlockHash(self.chain[height as int]))
            } else {
                not_found(answer)
            },
            Request::Block { hash } => if self.blocks.dom().contains(hash) {
                answer == Ok::<Reply, RpcError>(Reply::Block(self.blocks[hash]))
            } else {
                not_found(answer)
            },
            Request::UtxoSetSummary { .. } => true,
        }
    }

    /// Whether every answer that `connector` may give is the node's.
    pub open spec fn serves<C: Fn(Request) -> Answer>(self, connector: C) -> bool {
        forall|request: Request, answer: Answer| #[trigger]
            connector.ensures((request,), answer) ==> self.answers(request, answer)
    }
}

/// Whether `connector` gives one answer to one question, as a node does whose
/// chain state does not change.
pub open spec fn steady<C: Fn(Request) -> Answer>(connector: C) -> bool {
    forall|request: Request, first: Answer, second: Answer|
        #![trigger connector.ensures((request,), first), connector.ensures((request,), second)]
        connector.ensures((request,), first) && connector.ensures((request,), second) ==> first
            == second
}

/// Where the node has the block at `height` and the block below it, the
/// mining time is the timestamp of the one minus the timestamp of the other,
/// with its sign.
pub proof fn lemma_time_to_mine_is_timestamp_gap<C: Fn(Request) -> Answer>(
    node: Node,
    connector: C,
    height: BlockHeight,
    result: Result<chrono::TimeDelta, RpcError>,
)
    requires
        node.serves(connector),
        height > 0,
        node.has(height as int),
        node.has(height - 1),
        node.linked(height as int),
        TimeToMine::Hash.settles(connector, Request::BlockHash { height }, result),
    ensures
        result == Ok::<chrono::TimeDelta, RpcError>(
            seconds_delta((node.block(height as int).time - node.block(height - 1).time) as i64),
        ),
{
    reveal_with_fuel(TimeToMine::settles, 4);
}

/// Where the node has the block at `height`, the transaction count is the
/// number of transactions in that block, and so at least 1 where the block
/// holds its coinbase transaction.
pub proof fn lemma_number_of_transactions_is_block_count<C: Fn(Request) -> Answer>(
    node: Node,
    connector: C,
    height: BlockHeight,
    result: Result<u64, RpcError>,
)
    requires
        node.serves(connector),
        node.has(height as int),
        TransactionCount::Hash.settles(connector, Request::BlockHash { height }, result),
    ensures
        result == Ok::<u64, RpcError>(node.block(height as int).tx_count),
        node.block(height as int).has_coinbase() ==> result->Ok_0 >= 1,
{
    reveal_with_fuel(TransactionCount::settles, 3);
}

/// While the chain state does not change, asking twice for the mining time
/// of one height gives one result.
pub proof fn lemma_time_to_mine_is_repeatable<C: Fn(Request) -> Answer>(
    connector: C,
    height: BlockHeight,
    first: Result<chrono::TimeDelta, RpcError>,
    second: Result<chrono::TimeDelta, RpcError>,
)
    requires
        steady(connector),
        TimeToMine::Hash.settles(connector, Request::BlockHash { height }, first),
        TimeToMine::Hash.settles(connector, Request::BlockHash { height }, second),
    ensures
        first == second,
{
    reveal_with_fuel(TimeToMine::settles, 4);
}

/// While the chain state does not change, asking twice for the transaction
/// count of one height gives one result.
pub proof fn lemma_number_of_transactions_is_repeatable<C: Fn(Request) -> Answer>(
    connector: C,
    height: BlockHeight,
    first: Result<u64, RpcError>,
    second: Result<u64, RpcError>,
)
    requires
        steady(connector),
        TransactionCount::Hash.settles(connector, Request::BlockHash { height }, first),
        TransactionCount::Hash.settles(connector, Request::BlockHash { height }, second),
    ensures
        first == second,
{
    reveal_with_fuel(TransactionCount::settles, 3);
}

/// Above the node's tip both metrics fail, and the failure is of the
/// not-found kind.
pub proof fn lemma_above_tip_is_not_found<C: Fn(Request) -> Answer>(
    node: Node,
    connector: C,
    height: BlockHeight,
    mining_time: Result<chrono::TimeDelta, RpcError>,
    count: Result<u64, RpcError>,
)
    requires
        node.serves(connector),
        height > node.tip(),
        TimeToMine::Hash.settles(connector, Request::BlockHash { height }, mining_time),
        TransactionCount::Hash.settles(connector, Request::BlockHash { height }, count),
    ensures
        mining_time matches Err(error) && error.kind == RpcErrorKind::NotFound,
        count matches Err(error) && error.kind == RpcErrorKind::NotFound,
{
    reveal_with_fuel(TimeToMine::settles, 4);
    reveal_with_fuel(TransactionCount::settles, 3);
}

/// The first block of the chain builds on no block that the node has, so its
/// mining time fails as not found.
pub proof fn lemma_genesis_has_no_mining_time<C: Fn(Request) -> Answer>(
    node: Node,
    connector: C,
    result: Result<chrono::TimeDelta, RpcError>,
)
    requires
        node.serves(connector),
        node.has(0),
        !node.blocks.dom().contains(node.block(0).prev_blockhash),
        TimeToMine::Hash.settles(connector, Request::BlockHash { height: 0 }, result),
    ensures
        result matches Err(error) && error.kind == RpcErrorKind::NotFound,
{
    reveal_with_fuel(TimeToMine::settles, 4);
}

} // verus!

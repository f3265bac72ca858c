//! The two block metrics: the time a block took to mine, and the number of
//! transactions in it.
//!
//! Each metric is a short conversation with the node. What to ask next, and
//! what the answers amount to, is decided by a step function on a small state;
//! the functions [`time_to_mine`] and [`number_of_transactions`] hold the
//! conversation through a connector that makes the calls.

use vstd::prelude::*;
use crate::block::BlockHeight;
use crate::connector::{Answer, Reply, Request};
use crate::error::{RpcError, RpcErrorKind};
use crate::span::{gap_seconds, seconds_delta, time_between};

verus! {

/// Where a conversation stands after an answer: another question is due, or
/// the metric is settled.
#[derive(Debug, PartialEq, Eq)]
pub enum Progress<S, T> {
    Ask(S, Request),
    Done(Result<T, RpcError>),
}

/// The failure reported when an answer does not fit the question.
pub open spec fn unexpected_reply() -> RpcError {
    RpcError { kind: RpcErrorKind::Malformed, detail: None }
}

fn unexpected() -> (error: RpcError)
    ensures
        error == unexpected_reply(),
{
    RpcError { kind: RpcErrorKind::Malformed, detail: None }
}

/// What the mining-time conversation waits for.
#[derive(Clone, Copy, Debug, PartialEq, Eq)]
pub enum TimeToMine {
    /// The hash of the block at the height asked for.
    Hash,
    /// The block itself.
    Block,
    /// The block before it; `time` is the timestamp of the block itself.
    Parent { time: u32 },
}

impl TimeToMine {
    /// Number of calls that are at most still to be made.
    pub open spec fn calls_left(self) -> nat {
        match self {
            TimeToMine::Hash => 3,
            TimeToMine::Block => 2,
            TimeToMine::Parent { .. } => 1,
        }
    }

    /// The question that the state waits on was answered by `answer`: what
    /// follows. A failed call ends the conversation with that failure.
    pub open spec fn next(self, answer: Answer) -> Progress<TimeToMine, chrono::TimeDelta> {
        match answer {
            Err(error) => Progress::Done(Err(error)),
            Ok(reply) => match (self, reply) {
                (TimeToMine::Hash, Reply::BlockHash(hash)) => Progress::Ask(
                    TimeToMine::Block,
                    Request::Block { hash },
                ),
                (TimeToMine::Block, Reply::Block(block)) => Progress::Ask(
                    TimeToMine::Parent { time: block.time },
                    Request::Block { hash: block.prev_blockhash },
                ),
                (TimeToMine::Parent { time }, Reply::Block(parent)) => Progress::Done(
                    Ok(seconds_delta(gap_seconds(time, parent.time) as i64)),
                ),
                _ => Progress::Done(Err(unexpected_reply())),
            },
        }
    }

    /// Opens the conversation about the block at `height`.
    pub fn begin(height: BlockHeight) -> (start: (TimeToMine, Request))
        ensures
            start == (TimeToMine::Hash, Request::BlockHash { height }),
    {
        (TimeToMine::Hash, Request::BlockHash { height })
    }

    /// Takes the answer to the pending question and says what follows.
    pub fn advance(self, answer: Answer) -> (progress: Progress<TimeToMine, chrono::TimeDelta>)
        ensures
            progress == self.next(answer),
            progress matches Progress::Ask(state, _) ==> state.calls_left() < self.calls_left(),
    {
        match answer {
            Err(error) => Progress::Done(Err(error)),
            Ok(reply) => match (self, reply) {
                (TimeToMine::Hash, Reply::BlockHash(hash)) => Progress::Ask(
                    TimeToMine::Block,
                    Request::Block { hash },
                ),
                (TimeToMine::Block, Reply::Block(block)) => Progress::Ask(
                    TimeToMine::Parent { time: block.time },
                    Request::Block { hash: block.prev_blockhash },
                ),
                (TimeToMine::Parent { time }, Reply::Block(parent)) => Progress::Done(
                    Ok(time_between(time, parent.time)),
                ),
                _ => Progress::Done(Err(unexpected())),
            },
        }
    }

    /// Whether a conversation that waits in `self` on the answer to `request`
    /// can end in `result`, given what `connector` may answer.
    pub open spec fn settles<C: Fn(Request) -> Answer>(
        self,
        connector: C,
        request: Request,
        result: Result<chrono::TimeDelta, RpcError>,
    ) -> bool
        decreases self.calls_left(),
    {
        exists|answer: Answer| #[trigger]
            connector.ensures((request,), answer) && match self.next(answer) {
                Progress::Done(end) => end == result,
                Progress::Ask(state, question) => state.calls_left() < self.calls_left()
                    && state.settles(connector, question, result),
            }
    }
}

/// What the transaction-count conversation waits for.
#[derive(Clone, Copy, Debug, PartialEq, Eq)]
pub enum TransactionCount {
    /// The hash of the block at the height asked for.
    Hash,
    /// The block itself.
    Block,
}

impl TransactionCount {
    /// Number of calls that are at most still to be made.
    pub open spec fn calls_left(self) -> nat {
        match self {
            TransactionCount::Hash => 2,
            TransactionCount::Block => 1,
        }
    }

    /// The question that the state waits on was answered by `answer`: what
    /// follows. A failed call ends the conversation with that failure.
    pub open spec fn next(self, answer: Answer) -> Progress<TransactionCount, u64> {
        match answer {
            Err(error) => Progress::Done(Err(error)),
            Ok(reply) => match (self, reply) {
                (TransactionCount::Hash, Reply::BlockHash(hash)) => Progress::Ask(
                    TransactionCount::Block,
                    Request::Block { hash },
                ),
                (TransactionCount::Block, Reply::Block(block)) => Progress::Done(
                    Ok(block.tx_count),
                ),
                _ => Progress::Done(Err(unexpected_reply())),
            },
        }
    }

    /// Opens the conversation about the block at `height`.
    pub fn begin(height: BlockHeight) -> (start: (TransactionCount, Request))
        ensures
            start == (TransactionCount::Hash, Request::BlockHash { height }),
    {
        (TransactionCount::Hash, Request::BlockHash { height })
    }

    /// Takes the answer to the pending question and says what follows.
    pub fn advance(self, answer: Answer) -> (progress: Progress<TransactionCount, u64>)
        ensures
            progress == self.next(answer),
            progress matches Progress::Ask(state, _) ==> state.calls_left() < self.calls_left(),
    {
        match answer {
            Err(error) => Progress::Done(Err(error)),
            Ok(reply) => match (self, reply) {
                (TransactionCount::Hash, Reply::BlockHash(hash)) => Progress::Ask(
                    TransactionCount::Block,
                    Request::Block { hash },
                ),
                (TransactionCount::Block, Reply::Block(block)) => Progress::Done(
                    Ok(block.tx_count),
                ),
                _ => Progress::Done(Err(unexpected())),
            },
        }
    }

    /// Whether a conversation that waits in `self` on the answer to `request`
    /// can end in `result`, given what `connector` may answer.
    pub open spec fn settles<C: Fn(Request) -> Answer>(
        self,
        connector: C,
        request: Request,
        result: Result<u64, RpcError>,
    ) -> bool
        decreases self.calls_left(),
    {
        exists|answer: Answer| #[trigger]
            connector.ensures((request,), answer) && match self.next(answer) {
                Progress::Done(end) => end == result,
                Progress::Ask(state, question) => state.calls_left() < self.calls_left()
                    && state.settles(connector, question, result),
            }
    }
}

/// The time between the block at `height` and the block before it: the
/// difference of their timestamps, negative where the later block carries the
/// smaller one. The first call that fails ends the computation with its
/// failure; no call is repeated.
pub fn time_to_mine<C: Fn(Request) -> Answer>(connector: C, height: BlockHeight) -> (result: Result<
    chrono::TimeDelta,
    RpcError,
>)
    requires
        forall|request: Request| connector.requires((request,)),
    ensures
        TimeToMine::Hash.settles(connector, Request::BlockHash { height }, result),
{
    let (mut state, mut request) = TimeToMine::begin(height);
    loop
        invariant
            forall|request: Request| connector.requires((request,)),
            forall|result: Result<chrono::TimeDelta, RpcError>|
                state.settles(connector, request, result) ==> TimeToMine::Hash.settles(
                    connector,
                    Request::BlockHash { height },
                    result,
                ),
        decreases state.calls_left(),
    {
        let ghost waiting = state;
        let ghost asked = request;
        let answer = connector(request);
        let ghost heard = answer;
        match state.advance(answer) {
            Progress::Done(result) => {
                assert(waiting.settles(connector, asked, result));
                return result;
            },
            Progress::Ask(following, question) => {
                assert forall|result: Result<chrono::TimeDelta, RpcError>|
                    following.settles(connector, question, result) implies waiting.settles(
                    connector,
                    asked,
                    result,
                ) by {
                    assert(connector.ensures((asked,), heard));
                }
                state = following;
                request = question;
            },
        }
    }
}

/// The number of transactions in the block at `height`, as the node reports
/// the block. The first call that fails ends the computation with its
/// failure; no call is repeated.
pub fn number_of_transactions<C: Fn(Request) -> Answer>(connector: C, height: BlockHeight) -> (result:
    Result<u64, RpcError>)
    requires
        forall|request: Request| connector.requires((request,)),
    ensures
        TransactionCount::Hash.settles(connector, Request::BlockHash { height }, result),
{
    let (mut state, mut request) = TransactionCount::begin(height);
    loop
        invariant
            forall|request: Request| connector.requires((request,)),
            forall|result: Result<u64, RpcError>|
                state.settles(connector, request, result) ==> TransactionCount::Hash.settles(
                    connector,
                    Request::BlockHash { height },
                    result,
                ),
        decreases state.calls_left(),
    {
        let ghost waiting = state;
        let ghost asked = request;
        let answer = connector(request);
        let ghost heard = answer;
        match state.advance(answer) {
            Progress::Done(result) => {
                assert(waiting.settles(connector, asked, result));
                return result;
            },
            Progress::Ask(following, question) => {
                assert forall|result: Result<u64, RpcError>|
                    following.settles(connector, question, result) implies waiting.settles(
                    connector,
                    asked,
                    result,
                ) by {
                    assert(connector.ensures((asked,), heard));
                }
                state = following;
                request = question;
            },
        }
    }
}

} // verus!

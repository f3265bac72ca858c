//! The calls the library makes to a node, the answers it reads, and the rules
//! that hold of every call: its deadline, and how a failure is classed.

use vstd::prelude::*;
use crate::block::{BlockHash, BlockHeader, BlockHeight};
use crate::config::{ConnectionConfig, UTXO_SET_SCAN_TIMEOUT_SECS};
use crate::error::{RpcError, RpcErrorKind};

verus! {

/// A read-only question to the node.
#[derive(Clone, Copy, Debug, PartialEq, Eq)]
pub enum Request {
    /// The height of the chain tip.
    BlockCount,
    /// The hash of the block at a height of the best chain.
    BlockHash { height: BlockHeight },
    /// The block with a given hash.
    Block { hash: BlockHash },
    /// A summary of the set of unspent outputs, which scans the whole chain
    /// state and so carries a deadline of its own.
    UtxoSetSummary { timeout_secs: u64 },
}

/// What the node reports of the set of unspent outputs. The library reads
/// none of it; it is handed on as it came.
#[derive(Clone, Copy, Debug, PartialEq, Eq)]
pub struct UtxoSetSummary {
    /// Height of the block at which the set was summed up.
    pub height: BlockHeight,
    /// Hash of that block.
    pub best_block: BlockHash,
    /// Number of unspent outputs.
    pub tx_outs: u64,
    /// Sum of their values, in satoshi.
    pub total_amount: u64,
}

/// The node's answer to a question.
#[derive(Clone, Copy, Debug, PartialEq, Eq)]
pub enum Reply {
    BlockCount(BlockHeight),
    BlockHash(BlockHash),
    Block(BlockHeader),
    UtxoSetSummary(UtxoSetSummary),
}

/// What came back from one call: the answer, or the failure of the call.
pub type Answer = Result<Reply, RpcError>;

impl Request {
    /// The summary of unspent outputs with the deadline the library grants it.
    pub fn utxo_set_summary() -> (request: Request)
        ensures
            request == (Request::UtxoSetSummary { timeout_secs: UTXO_SET_SCAN_TIMEOUT_SECS }),
    {
        Request::UtxoSetSummary { timeout_secs: UTXO_SET_SCAN_TIMEOUT_SECS }
    }

    /// Seconds the call may run on a connection whose default is
    /// `default_secs`: the call's own deadline where it has one, however
    /// short the default is.
    pub open spec fn deadline(self, default_secs: nat) -> nat {
        match self {
            Request::UtxoSetSummary { timeout_secs } => timeout_secs as nat,
            _ => default_secs,
        }
    }

    /// Seconds the call is allowed to run on the given connection.
    pub fn timeout_secs(&self, config: &ConnectionConfig) -> (secs: u64)
        ensures
            secs == self.deadline(config@.timeout_secs),
            self matches Request::UtxoSetSummary { timeout_secs } ==> secs == timeout_secs,
    {
        match self {
            Request::UtxoSetSummary { timeout_secs } => *timeout_secs,
            _ => config.timeout_secs(),
        }
    }
}

/// Error code of a node for a parameter out of range, such as a height above
/// the tip.
pub const NODE_INVALID_PARAMETER: i32 = -8;

/// Error code of a node for a block hash it does not know.
pub const NODE_INVALID_ADDRESS_OR_KEY: i32 = -5;

/// Error code of a node for other failures, among them a block whose data it
/// has pruned.
pub const NODE_MISC_ERROR: i32 = -1;

/// How a call failed, as the transport observed it.
#[derive(Clone, Copy, Debug, PartialEq, Eq)]
pub enum Failure {
    /// The node answered with an error object.
    Node { code: i32 },
    /// The node answered with an HTTP error status and no error object.
    Http { status: u16 },
    /// The deadline passed.
    TimedOut,
    /// The connection could not be made or broke.
    Disconnected,
    /// The answer could not be decoded.
    Undecodable,
}

/// The class of a failed call.
pub open spec fn failure_kind(request: Request, failure: Failure) -> RpcErrorKind {
    match failure {
        Failure::Node { code } => match request {
            Request::BlockHash { .. } if code == NODE_INVALID_PARAMETER => RpcErrorKind::NotFound,
            Request::Block { .. } if code == NODE_INVALID_ADDRESS_OR_KEY || code
                == NODE_MISC_ERROR => RpcErrorKind::NotFound,
            _ => RpcErrorKind::Rejected,
        },
        Failure::Http { status } => if status == 401 || status == 403 {
            RpcErrorKind::Auth
        } else {
            RpcErrorKind::Rejected
        },
        Failure::TimedOut => RpcErrorKind::Timeout,
        Failure::Disconnected => RpcErrorKind::Network,
        Failure::Undecodable => RpcErrorKind::Malformed,
    }
}

/// Classes a failed call and keeps what the transport said of it.
pub fn classify(request: &Request, failure: Failure, detail: String) -> (error: RpcError)
    ensures
        error == (RpcError { kind: failure_kind(*request, failure), detail: Some(detail) }),
{
    let kind = match failure {
        Failure::Node { code } => match request {
            Request::BlockHash { .. } => if code == NODE_INVALID_PARAMETER {
                RpcErrorKind::NotFound
            } else {
                RpcErrorKind::Rejected
            },
            Request::Block { .. } => if code == NODE_INVALID_ADDRESS_OR_KEY || code
                == NODE_MISC_ERROR {
                RpcErrorKind::NotFound
            } else {
                RpcErrorKind::Rejected
            },
            _ => RpcErrorKind::Rejected,
        },
        Failure::Http { status } => if status == 401 || status == 403 {
            RpcErrorKind::Auth
        } else {
            RpcErrorKind::Rejected
        },
        Failure::TimedOut => RpcErrorKind::Timeout,
        Failure::Disconnected => RpcErrorKind::Network,
        Failure::Undecodable => RpcErrorKind::Malformed,
    };
    RpcError { kind, detail: Some(detail) }
}

} // verus!

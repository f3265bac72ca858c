//! The closed set of failures that the library reports.

use vstd::prelude::*;

verus! {

/// One of the settings a connection needs.
#[derive(Clone, Copy, Debug, PartialEq, Eq)]
pub enum Setting {
    Url,
    User,
    Password,
}

/// A required setting is absent. Raised before any call is made.
#[derive(Clone, Copy, Debug, PartialEq, Eq)]
pub enum ConfigurationError {
    Missing(Setting),
}

/// The transport to the node could not be built, for instance because the
/// endpoint URL does not parse.
#[derive(Clone, Debug, PartialEq, Eq)]
pub struct ConnectionError {
    pub detail: String,
}

/// Why a single call to the node failed.
#[derive(Clone, Copy, Debug, PartialEq, Eq)]
pub enum RpcErrorKind {
    /// The node does not have the block that was asked for.
    NotFound,
    /// The call's deadline passed before the node answered.
    Timeout,
    /// The node refused the credentials.
    Auth,
    /// The answer could not be read as an answer to the question asked.
    Malformed,
    /// The connection failed for another reason.
    Network,
    /// The node refused the call for another reason.
    Rejected,
}

/// A failed call. It is final: the library never repeats a call.
#[derive(Clone, Debug, PartialEq, Eq)]
pub struct RpcError {
    pub kind: RpcErrorKind,
    /// What the transport or the node said, where it said anything.
    pub detail: Option<String>,
}

/// Any failure of a run.
#[derive(Clone, Debug, PartialEq, Eq)]
pub enum Error {
    Configuration(ConfigurationError),
    Connection(ConnectionError),
    Rpc(RpcError),
}

impl Error {
    /// Whether the failure concerns the whole run rather than one call.
    pub open spec fn fatal(self) -> bool {
        !(self is Rpc)
    }

    /// Tells a misconfiguration or a connection that cannot be built, after
    /// which no call can succeed, from the failure of a single call.
    pub fn is_fatal(&self) -> (fatal: bool)
        ensures
            fatal == self.fatal(),
    {
        match self {
            Error::Configuration(_) => true,
            Error::Connection(_) => true,
            Error::Rpc(_) => false,
        }
    }
}

} // verus!

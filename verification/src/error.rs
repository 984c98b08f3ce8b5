//! Error kinds of the market engine.
//!
//! Every operation fails atomically: an `Err` result leaves the state it was
//! given untouched, and the caller decides retry policy.

use vstd::prelude::*;

verus! {

#[derive(Clone, Copy, Debug, PartialEq, Eq, Structural)]
pub enum Error {
    /// The caller is not the permitted principal for a privileged operation.
    Unauthorized,
    /// A requested timestamp precedes the matching last-updated mark; the
    /// engine never silently clamps or reorders time.
    TemporalOrder,
    /// An operation needs a collaborator handle that has not been registered
    /// yet; distinct from `Unauthorized`.
    CollaboratorNotRegistered,
    /// An external rate, balance or supply query failed; the whole operation
    /// aborts with no partial commit.
    CollaboratorQuery,
    /// Market creation was not funded with exactly the required initial
    /// deposit of the stable asset.
    InitialFundsNotDeposited { required: u128 },
    /// An asynchronous acknowledgment arrived with an unknown request id.
    InvalidReplyId,
    /// An asynchronous acknowledgment carried data that could not be read.
    InvalidReplyData,
    /// A token receive hook arrived without the expected redeem request.
    MissingRedeemStableHook,
}

} // verus!

//! The error kinds that the engine's operations return.

use vstd::prelude::*;

verus! {

/// Every failure of a governance call, tagged by its cause. Errors are always
/// returned to the caller, never swallowed, and nothing is retried by the
/// engine itself.
#[derive(Clone, Copy, PartialEq, Eq, Structural, Debug)]
pub enum Error {
    /// The caller is not a registered voter.
    Unauthorized,
    /// No proposal with the given id exists.
    NotFound,
    /// A mutating call was made against a proposal that is no longer open.
    AlreadyResolved,
    /// The action was attempted at or after the proposal's deadline.
    Expired,
    /// Close was attempted before the proposal's deadline.
    NotExpired,
    /// Execute was called on a proposal whose status is not `Passed`.
    WrongStatus,
    /// A proposal was submitted with no actions to govern.
    EmptyProposal,
    /// A registry or threshold invariant was violated at construction.
    InvalidConfiguration,
    /// The dispatch adapter reported failure; the proposal stays `Passed` and
    /// execution may be retried.
    DispatchFailed,
}

} // verus!

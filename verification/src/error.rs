use crate::abi::Operation;
use vstd::prelude::*;

verus! {

/// Why an operation on a foreign handle did not yield a value.
#[derive(Clone, Copy, Debug, PartialEq, Eq, Structural)]
pub enum BridgeError {
    /// The table entry for the operation is unset on this handle, so the
    /// operation could not be attempted.
    MissingOperation(Operation),
    /// The handle reported itself invalid, or not usable on this thread,
    /// before the operation ran.
    InvalidHandle,
    /// The operation ran and gave back a null handle or a null string.
    NullResult(Operation),
    /// The answer does not have the shape that the operation's table entry
    /// declares.
    UnexpectedReply(Operation),
    /// `exit` was asked of a context that this wrapper has not entered.
    NotEntered,
    /// The wrapper cannot count one more entered scope.
    ScopeOverflow,
    /// The foreign side did not enter, or did not leave, the scope.
    ScopeRefused,
    /// The context is released while scopes entered through it are open.
    ScopeStillEntered,
    /// A value was to be created while no context is entered.
    NotInContext,
    /// A native callback reported a failure.
    CallbackFailed,
}

} // verus!

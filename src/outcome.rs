use vstd::prelude::*;

verus! {

/// A failure of an operation on the stack.
#[derive(Clone, Copy, Debug, PartialEq, Eq, Structural)]
pub enum BleError {
    /// The engine or an application is not in a state that allows the
    /// operation, or a pending request was abandoned before its event came.
    InvalidState,
    /// The native call refused the operation at once, with this error code.
    Rejected(i32),
    /// The completion event reported this non-success status.
    Failed(u32),
}

/// What a successful completion carries.
#[derive(Clone, Copy, Debug, PartialEq, Eq, Structural)]
pub enum Completion {
    /// The operation completed; it yields no value.
    Done,
    /// An application was registered on this GATT interface.
    Interface(u8),
    /// A service was created with this handle.
    Service(u16),
}

/// The result a one-shot sink receives.
pub type Outcome = Result<Completion, BleError>;

/// The status that the stack reports for success.
pub const STATUS_OK: u32 = 0;

/// The outcome of a completion event with `status`, yielding `value` on success.
pub open spec fn status_outcome(status: u32, value: Completion) -> Outcome {
    if status == STATUS_OK {
        Ok(value)
    } else {
        Err(BleError::Failed(status))
    }
}

/// Maps a completion status to an outcome.
pub fn outcome_of_status(status: u32, value: Completion) -> (r: Outcome)
    ensures
        r == status_outcome(status, value),
{
    if status == STATUS_OK {
        Ok(value)
    } else {
        Err(BleError::Failed(status))
    }
}

} // verus!

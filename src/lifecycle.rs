use vstd::prelude::*;
use crate::outcome::BleError;

verus! {

/// The phases of the engine's one binding to the native stack.
#[derive(Clone, Copy, Debug, PartialEq, Eq, Structural)]
pub enum LifecycleState {
    Uninitialized,
    Initializing,
    Ready,
}

/// Admits at most one engine: a construction begins only from
/// `Uninitialized`, and a ready engine is never reset.
pub struct InstanceGuard {
    state: LifecycleState,
}

/// The state and result of an attempt to begin construction from `s`.
pub open spec fn begin_step(s: LifecycleState) -> (LifecycleState, Result<(), BleError>) {
    if s == LifecycleState::Uninitialized {
        (LifecycleState::Initializing, Ok(()))
    } else {
        (s, Err(BleError::InvalidState))
    }
}

/// The state and result once the native initialisation reported `native`.
pub open spec fn finish_step(native: Result<(), i32>) -> (LifecycleState, Result<(), BleError>) {
    match native {
        Ok(()) => (LifecycleState::Ready, Ok(())),
        Err(code) => (LifecycleState::Uninitialized, Err(BleError::Rejected(code))),
    }
}

impl View for InstanceGuard {
    type V = LifecycleState;

    closed spec fn view(&self) -> LifecycleState {
        self.state
    }
}

impl InstanceGuard {
    /// A guard with no engine constructed.
    pub fn new() -> (g: Self)
        ensures
            g@ == LifecycleState::Uninitialized,
    {
        InstanceGuard { state: LifecycleState::Uninitialized }
    }

    /// The current phase.
    pub fn state(&self) -> (s: LifecycleState)
        ensures
            s == self@,
    {
        self.state
    }

    /// Claims the right to construct the engine. Fails with `InvalidState`,
    /// changing nothing, once a construction has begun.
    pub fn try_begin(&mut self) -> (r: Result<(), BleError>)
        ensures
            (final(self)@, r) == begin_step(old(self)@),
    {
        if self.state == LifecycleState::Uninitialized {
            self.state = LifecycleState::Initializing;
            Ok(())
        } else {
            Err(BleError::InvalidState)
        }
    }

    /// Ends the construction that `try_begin` admitted: ready when the native
    /// initialisation succeeded, else back to uninitialised with its error.
    pub fn finish(&mut self, native: Result<(), i32>) -> (r: Result<(), BleError>)
        requires
            old(self)@ == LifecycleState::Initializing,
        ensures
            (final(self)@, r) == finish_step(native),
    {
        match native {
            Ok(()) => {
                self.state = LifecycleState::Ready;
                Ok(())
            },
            Err(code) => {
                self.state = LifecycleState::Uninitialized;
                Err(BleError::Rejected(code))
            },
        }
    }
}

} // verus!

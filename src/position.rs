use vstd::prelude::*;

use crate::error::GridError;

verus! {

/// The two states of a switching device.
#[derive(Debug, Clone, Copy, PartialEq, Eq, Structural)]
pub enum SwitchState {
    Open,
    Closed,
}

/// What `open` does to a switch in state `s`: the new state and the outcome.
pub open spec fn open_step(s: SwitchState) -> (SwitchState, Result<(), GridError>) {
    match s {
        SwitchState::Open => (s, Err(GridError::AlreadyOpen)),
        SwitchState::Closed => (SwitchState::Open, Ok(())),
    }
}

/// What `close` does to a switch in state `s`: the new state and the outcome.
pub open spec fn close_step(s: SwitchState) -> (SwitchState, Result<(), GridError>) {
    match s {
        SwitchState::Closed => (s, Err(GridError::AlreadyClosed)),
        SwitchState::Open => (SwitchState::Closed, Ok(())),
    }
}

/// Open/closed position of a switching component; starts open.
#[derive(Debug)]
pub struct SwitchgearPosition {
    state: SwitchState,
}

impl View for SwitchgearPosition {
    type V = SwitchState;

    closed spec fn view(&self) -> SwitchState {
        self.state
    }
}

impl SwitchgearPosition {
    pub fn new() -> (r: SwitchgearPosition)
        ensures
            r@ == SwitchState::Open,
    {
        SwitchgearPosition { state: SwitchState::Open }
    }

    pub fn state(&self) -> (r: SwitchState)
        ensures
            r == self@,
    {
        self.state
    }

    /// Closed to open; refused with `AlreadyOpen` when open.
    pub fn open(&mut self) -> (r: Result<(), GridError>)
        ensures
            (final(self)@, r) == open_step(old(self)@),
    {
        match self.state {
            SwitchState::Open => Err(GridError::AlreadyOpen),
            SwitchState::Closed => {
                self.state = SwitchState::Open;
                Ok(())
            },
        }
    }

    /// Open to closed; refused with `AlreadyClosed` when closed.
    pub fn close(&mut self) -> (r: Result<(), GridError>)
        ensures
            (final(self)@, r) == close_step(old(self)@),
    {
        match self.state {
            SwitchState::Closed => Err(GridError::AlreadyClosed),
            SwitchState::Open => {
                self.state = SwitchState::Closed;
                Ok(())
            },
        }
    }
}

} // verus!

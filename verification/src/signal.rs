//! What a runtime signals after an instruction, and what follows from it.
use crate::error::DebugError;
use evm::ExitReason;
use vstd::prelude::*;

verus! {

/// What a runtime reports after it was asked to execute one instruction.
#[derive(Debug)]
pub enum Signal {
    /// The instruction is done and the machine can go on.
    Continue,
    /// The machine has exited, for the given reason.
    Exit(ExitReason),
    /// The machine stopped inside the instruction and waits for its caller.
    Trap,
}

impl Signal {
    /// How a run ends on this signal: with the machine's exit reason, or
    /// with a fault where the machine waits for its caller. `None` where the
    /// run goes on.
    pub fn conclusion(self) -> (end: Option<Result<ExitReason, DebugError>>)
        ensures
            match self {
                Signal::Continue => end is None,
                Signal::Exit(reason) => end == Some(Ok::<ExitReason, DebugError>(reason)),
                Signal::Trap => end == Some(
                    Err::<ExitReason, DebugError>(DebugError::UnsupportedSuspend),
                ),
            },
    {
        match self {
            Signal::Continue => None,
            Signal::Exit(reason) => Some(Ok(reason)),
            Signal::Trap => Some(Err(DebugError::UnsupportedSuspend)),
        }
    }
}

} // verus!

//! The faults that end a debugging run.
use crate::text::{decimal, decimal_text};
use vstd::prelude::*;
use vstd::string::StringExecFns;

verus! {

/// A fault of the debugger itself. How the program under inspection ends,
/// be it by success, revert or error, is no fault: it is the run's result.
#[derive(Clone, Copy, Debug, PartialEq, Eq, Structural)]
pub enum DebugError {
    /// The literal bytes of a push opcode would reach beyond the end of
    /// the code.
    OperandOverrun { push_size: u8 },
    /// The runtime stopped in the middle of an instruction and waits for its
    /// caller to resolve a call or a create, which a debugger that steps
    /// synchronously cannot do.
    UnsupportedSuspend,
}

/// The message a fault is reported with.
pub open spec fn message_text(error: DebugError) -> Seq<char> {
    match error {
        DebugError::OperandOverrun { push_size } => "PUSH"@ + decimal_text(push_size as nat)
            + " exceeds codesize?"@,
        DebugError::UnsupportedSuspend => "Trap is Infallible"@,
    }
}

impl DebugError {
    /// The message the fault is reported with.
    pub fn message(&self) -> (text: String)
        ensures
            text@ == message_text(*self),
    {
        match self {
            DebugError::OperandOverrun { push_size } => {
                let mut text = String::from_str("PUSH");
                let size = decimal(*push_size as usize);
                text.append(size.as_str());
                text.append(" exceeds codesize?");
                text
            },
            DebugError::UnsupportedSuspend => String::from_str("Trap is Infallible"),
        }
    }
}

} // verus!

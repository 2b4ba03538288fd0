//! A step debugger for the SputnikVM runtime.
//!
//! The debugger drives an `evm::Runtime` one instruction at a time and keeps,
//! for every instruction, a snapshot of what the machine looked like just
//! before it executed: program counter, operand stack (top first), memory,
//! the decoded opcode and the literal bytes that follow a push opcode.
pub mod debugger;
pub mod engine;
pub mod error;
pub mod opcode;
pub mod render;
pub mod runtime;
pub mod signal;
pub mod step;
pub mod text;

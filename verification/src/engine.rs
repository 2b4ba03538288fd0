//! The calls into the `evm` runtime.
//!
//! A runtime is opaque to the verifier. What it shows of itself has names
//! here: the machine inside a runtime, and of a machine the position, the
//! next instruction, the stack and the memory. Each call that reads a
//! machine is trusted to hand out what the name stands for.
use crate::step::{words, Word};
use evm::{ExitReason, Machine, Memory, Runtime, Stack};
use vstd::prelude::*;

verus! {

/// `evm::Runtime`, a machine together with its execution context.
#[verifier::external_type_specification]
#[verifier::external_body]
pub struct ExRuntime(Runtime);

/// `evm::Machine`, the core interpreter state.
#[verifier::external_type_specification]
#[verifier::external_body]
pub struct ExMachine(Machine);

/// `evm::Stack`, the operand stack of a machine.
#[verifier::external_type_specification]
#[verifier::external_body]
pub struct ExStack(Stack);

/// `evm::Memory`, the linear memory of a machine.
#[verifier::external_type_specification]
#[verifier::external_body]
pub struct ExMemory(Memory);

/// `evm::ExitReason`, why a machine stopped.
#[verifier::external_type_specification]
#[verifier::external_body]
pub struct ExExitReason(ExitReason);

/// The words that a stack holds, bottom first, each as its 32 bytes.
pub uninterp spec fn stack_words(stack: Stack) -> Seq<Seq<u8>>;

/// The bytes that a memory holds.
pub uninterp spec fn memory_bytes(memory: Memory) -> Seq<u8>;

/// The machine inside a runtime.
pub uninterp spec fn runtime_machine(runtime: Runtime) -> Machine;

/// The program counter of a machine, `None` once the machine has exited.
pub uninterp spec fn machine_position_of(machine: Machine) -> Option<usize>;

/// The byte of the instruction that a machine is about to execute, `None`
/// where the machine has exited or its program counter lies beyond its code.
pub uninterp spec fn machine_next_of(machine: Machine) -> Option<u8>;

/// The words on the stack of a machine, bottom first, each as its 32 bytes.
pub uninterp spec fn machine_stack_of(machine: Machine) -> Seq<Seq<u8>>;

/// The bytes in the memory of a machine.
pub uninterp spec fn machine_memory_of(machine: Machine) -> Seq<u8>;

/// `Runtime::machine` hands out the machine inside a runtime.
///
/// Trusted: it is the runtime's machine.
pub assume_specification[ Runtime::machine ](runtime: &Runtime) -> (machine: &Machine)
    ensures
        *machine == runtime_machine(*runtime),
;

/// `Machine::stack` hands out the operand stack of a machine.
///
/// Trusted: it holds the words on the machine's stack.
pub assume_specification[ Machine::stack ](machine: &Machine) -> (stack: &Stack)
    ensures
        stack_words(*stack) == machine_stack_of(*machine),
;

/// `Machine::memory` hands out the memory of a machine.
///
/// Trusted: it holds the bytes in the machine's memory.
pub assume_specification[ Machine::memory ](machine: &Machine) -> (memory: &Memory)
    ensures
        memory_bytes(*memory) == machine_memory_of(*machine),
;

/// `Memory::data` hands out all the bytes of a memory.
///
/// Trusted: they are the bytes that the memory holds.
pub assume_specification[ Memory::data ](memory: &Memory) -> (data: &Vec<u8>)
    ensures
        data@ == memory_bytes(*memory),
;

/// Calls `Machine::position`, which holds the program counter while the
/// machine runs and the exit reason afterwards. The exit reason is left out.
///
/// Trusted: the result is the machine's position.
#[verifier::external_body]
pub(crate) fn machine_position(machine: &Machine) -> (position: Option<usize>)
    ensures
        position == machine_position_of(*machine),
{
    match machine.position() {
        Ok(position) => Some(*position),
        Err(_) => None,
    }
}

/// Calls `Machine::inspect`, which hands out the next opcode and the stack
/// where there is an instruction at the program counter. The opcode is
/// given as its byte.
///
/// Trusted: the byte is that of the machine's next instruction, the stack
/// is the machine's own, and nothing is handed out exactly where the machine
/// has no next instruction.
#[verifier::external_body]
pub(crate) fn machine_inspect(machine: &Machine) -> (next: Option<(u8, &Stack)>)
    ensures
        match next {
            Some((byte, stack)) => {
                &&& machine_next_of(*machine) == Some(byte)
                &&& stack_words(*stack) == machine_stack_of(*machine)
            },
            None => machine_next_of(*machine) is None,
        },
{
    machine.inspect().map(|(opcode, stack)| (opcode.0, stack))
}

/// Calls `Stack::data`, which hands out the words of a stack, bottom first.
/// Each word is given as its 32 bytes.
///
/// Trusted: they are the words that the stack holds, in its own order.
#[verifier::external_body]
pub(crate) fn stack_data(stack: &Stack) -> (data: Vec<Word>)
    ensures
        words(data@) == stack_words(*stack),
{
    stack.data().iter().map(|word| word.0).collect()
}

} // verus!

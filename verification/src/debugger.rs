//! The debugger: a runtime that is stepped one instruction at a time while
//! every step is recorded.
use crate::engine::{machine_inspect, machine_position, memory_bytes, stack_data, stack_words};
use crate::engine::{machine_memory_of, machine_next_of, machine_position_of, machine_stack_of};
use crate::error::DebugError;
use crate::runtime::ForgeRuntime;
use crate::signal::Signal;
use crate::step::{captured, DebugStep, MachineState, MachineStateView, StepView};
use evm::{ExitReason, Handler, Machine, Memory, Stack};
use vstd::prelude::*;

verus! {

/// The state of a machine, put together from what the machine hands out:
/// its position, its memory, and the stack that comes with its next
/// instruction or, where it has no instruction to execute, its own stack
/// `raw`.
fn machine_state(
    position: Option<usize>,
    next: Option<(u8, &Stack)>,
    raw: &Stack,
    memory: &Memory,
) -> (state: MachineState)
    ensures
        state.position == position,
        match next {
            Some((byte, stack)) => {
                &&& state.instruction == Some(byte)
                &&& state@.stack == stack_words(*stack)
            },
            None => {
                &&& state.instruction is None
                &&& state@.stack == stack_words(*raw)
            },
        },
        state@.memory == memory_bytes(*memory),
{
    let memory = memory.data().clone();
    match next {
        Some((byte, stack)) => MachineState {
            position,
            instruction: Some(byte),
            stack: stack_data(stack),
            memory,
        },
        None => MachineState { position, instruction: None, stack: stack_data(raw), memory },
    }
}

/// What a step records of `machine`: its position, its next instruction,
/// its stack and its memory.
pub open spec fn machine_view(machine: Machine) -> MachineStateView {
    MachineStateView {
        position: machine_position_of(machine),
        instruction: machine_next_of(machine),
        stack: machine_stack_of(machine),
        memory: machine_memory_of(machine),
    }
}

/// A runtime under inspection and the steps recorded of it so far.
pub struct Debugger<'a, 'b> {
    pub runtime: &'a mut ForgeRuntime<'b>,
    /// The recorded steps, in the order of execution.
    pub steps: Vec<DebugStep>,
    /// How many times the runtime had been stepped when the debugger took
    /// hold of it.
    pub executed_before: Ghost<nat>,
}

impl<'a, 'b> Debugger<'a, 'b> {
    /// The code that the runtime executes.
    pub open spec fn code(&self) -> Seq<u8> {
        self.runtime.code@
    }

    /// How many times the debugger has had the runtime step.
    pub open spec fn executed(&self) -> int {
        self.runtime.executed@ - self.executed_before@
    }

    /// The step that the runtime is about to take, as it is to be recorded,
    /// or the fault where its push opcode reaches beyond the code.
    pub open spec fn next_step(&self) -> Result<StepView, DebugError> {
        captured(machine_view(self.runtime.machine_inside()), self.code())
    }

    /// There is one recorded step for each time the debugger has had the
    /// runtime step, and every step agrees with the code.
    pub open spec fn well_formed(&self) -> bool {
        &&& self.steps@.len() == self.executed()
        &&& forall|i: int|
            0 <= i < self.steps@.len() ==> (#[trigger] self.steps@[i])@.agrees_with(self.code())
    }

    /// A debugger of `runtime` that has recorded nothing yet.
    pub fn new_with_runtime(runtime: &'a mut ForgeRuntime<'b>) -> (debugger: Self)
        ensures
            debugger.steps@.len() == 0,
            debugger.executed() == 0,
            *debugger.runtime == *old(runtime),
            *final(debugger.runtime) == *final(runtime),
            debugger.well_formed(),
    {
        let ghost executed_before = runtime.executed@;
        Self { runtime, steps: Vec::new(), executed_before: Ghost(executed_before) }
    }

    /// Records the step that the runtime is about to take, then has the
    /// runtime take it, once, and hands back the runtime's answer.
    ///
    /// At a push opcode whose literal bytes reach beyond the code nothing is
    /// recorded and the runtime is left as it is.
    pub fn debug_step<H: Handler>(&mut self, handler: &mut H) -> (result: Result<
        Signal,
        DebugError,
    >)
        ensures
            final(self).runtime.code == old(self).runtime.code,
            final(self).executed_before == old(self).executed_before,
            match old(self).next_step() {
                Ok(step) => {
                    &&& result is Ok
                    &&& final(self).steps@.len() == old(self).steps@.len() + 1
                    &&& final(self).steps@.drop_last() == old(self).steps@
                    &&& final(self).steps@.last()@ == step
                    &&& final(self).executed() == old(self).executed() + 1
                },
                Err(error) => {
                    &&& result == Err::<Signal, DebugError>(error)
                    &&& final(self).steps@ == old(self).steps@
                    &&& final(self).executed() == old(self).executed()
                    &&& final(self).runtime.runtime() == old(self).runtime.runtime()
                },
            },
            old(self).well_formed() ==> final(self).well_formed(),
    {
        let machine = self.runtime.inner.machine();
        let state = machine_state(
            machine_position(machine),
            machine_inspect(machine),
            machine.stack(),
            machine.memory(),
        );
        let step = match DebugStep::capture(&state, self.runtime.code.as_slice()) {
            Ok(step) => step,
            Err(error) => {
                return Err(error);
            },
        };
        self.steps.push(step);
        let signal = self.runtime.step(handler);
        Ok(signal)
    }

    /// Steps the runtime until it stops, recording every step, the one that
    /// stops it included.
    ///
    /// The run ends with the machine's exit reason, or with a fault: at a
    /// push opcode whose literal bytes reach beyond the code, before that
    /// step is recorded or taken, and at an instruction in which the
    /// machine traps. The steps recorded up to then stay in `steps`.
    pub fn debug_run<H: Handler>(&mut self, handler: &mut H) -> (result: Result<
        ExitReason,
        DebugError,
    >)
        ensures
            final(self).runtime.code == old(self).runtime.code,
            final(self).executed_before == old(self).executed_before,
            old(self).steps@.is_prefix_of(final(self).steps@),
            final(self).steps@.len() - old(self).steps@.len() == final(self).executed() - old(
                self,
            ).executed(),
            match old(self).next_step() {
                Ok(step) => {
                    &&& final(self).steps@.len() > old(self).steps@.len()
                    &&& (final(self).steps@[old(self).steps@.len() as int])@ == step
                },
                Err(error) => {
                    &&& result == Err::<ExitReason, DebugError>(error)
                    &&& final(self).steps@ == old(self).steps@
                    &&& final(self).runtime.runtime() == old(self).runtime.runtime()
                },
            },
            forall|i: int|
                old(self).steps@.len() <= i < final(self).steps@.len() ==> (
                #[trigger] final(self).steps@[i])@.agrees_with(old(self).code()),
            result matches Err(error) ==> {
                ||| error is UnsupportedSuspend
                ||| error is OperandOverrun && final(self).next_step() == Err::<
                    StepView,
                    DebugError,
                >(error)
            },
            old(self).well_formed() ==> final(self).well_formed(),
    {
        let ghost code = self.code();
        let ghost start = self.steps@;
        let ghost executed = self.executed();
        let ghost first = self.next_step();
        let ghost runtime = self.runtime.runtime();
        loop
            invariant
                self.runtime.code == old(self).runtime.code,
                self.executed_before == old(self).executed_before,
                code == old(self).code(),
                start == old(self).steps@,
                executed == old(self).executed(),
                first == old(self).next_step(),
                start.is_prefix_of(self.steps@),
                self.steps@.len() - start.len() == self.executed() - executed,
                runtime == old(self).runtime.runtime(),
                self.steps@.len() == start.len() ==> self.runtime.runtime() == runtime,
                self.steps@.len() > start.len() ==> first == Ok::<StepView, DebugError>(
                    self.steps@[start.len() as int]@,
                ),
                old(self).well_formed() ==> self.well_formed(),
                forall|i: int|
                    start.len() <= i < self.steps@.len() ==> (
                    #[trigger] self.steps@[i])@.agrees_with(code),
            // Every round adds a step, and a vector has room for no more
            // than `usize::MAX` of them.
            decreases usize::MAX - self.steps.len(),
        {
            let ghost before = self.steps@;
            let stepped = self.debug_step(handler);
            match stepped {
                Ok(signal) => {
                    assert forall|i: int| start.len() <= i < self.steps@.len() implies (
                    #[trigger] self.steps@[i])@.agrees_with(code) by {
                        if i < before.len() {
                            assert(self.steps@[i] == self.steps@.drop_last()[i]);
                        }
                    }
                    if let Some(end) = signal.conclusion() {
                        return end;
                    }
                },
                Err(error) => {
                    return Err(error);
                },
            }
        }
    }
}

} // verus!

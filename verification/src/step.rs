//! One recorded step: what the machine looked like before an instruction.
use crate::error::DebugError;
use crate::opcode::{push_size_of, OpCode, INVALID};
use vstd::prelude::*;
use vstd::slice::{slice_subrange, slice_to_vec};

verus! {

/// A 256-bit machine word, most significant byte first.
pub type Word = [u8; 32];

/// The bytes of each word of a stack.
pub open spec fn words(stack: Seq<Word>) -> Seq<Seq<u8>> {
    stack.map_values(|word: Word| word@)
}

/// What a machine shows of itself before it executes an instruction.
#[derive(Clone, Debug)]
pub struct MachineState {
    /// The program counter, `None` once the machine has exited.
    pub position: Option<usize>,
    /// The byte of the instruction at the program counter, `None` where the
    /// machine has exited or has run past the end of its code.
    pub instruction: Option<u8>,
    /// The operand stack as the machine keeps it: bottom first.
    pub stack: Vec<Word>,
    /// The whole memory.
    pub memory: Vec<u8>,
}

/// The mathematical content of a [`MachineState`].
#[verifier::ext_equal]
pub struct MachineStateView {
    pub position: Option<usize>,
    pub instruction: Option<u8>,
    pub stack: Seq<Seq<u8>>,
    pub memory: Seq<u8>,
}

impl View for MachineState {
    type V = MachineStateView;

    open spec fn view(&self) -> MachineStateView {
        MachineStateView {
            position: self.position,
            instruction: self.instruction,
            stack: words(self.stack@),
            memory: self.memory@,
        }
    }
}

/// The snapshot taken before one instruction.
#[derive(Clone, Debug)]
pub struct DebugStep {
    /// The program counter.
    pub pc: usize,
    /// The operand stack, top of the stack first.
    pub stack: Vec<Word>,
    /// The whole memory.
    pub memory: Vec<u8>,
    /// The instruction about to execute.
    pub op: OpCode,
    /// The literal bytes of a push instruction.
    pub push_bytes: Option<Vec<u8>>,
}

/// The mathematical content of a [`DebugStep`].
#[verifier::ext_equal]
pub struct StepView {
    pub pc: nat,
    pub stack: Seq<Seq<u8>>,
    pub memory: Seq<u8>,
    pub op: u8,
    pub push_bytes: Option<Seq<u8>>,
}

impl View for DebugStep {
    type V = StepView;

    open spec fn view(&self) -> StepView {
        StepView {
            pc: self.pc as nat,
            stack: words(self.stack@),
            memory: self.memory@,
            op: self.op.0,
            push_bytes: match self.push_bytes {
                Some(bytes) => Some(bytes@),
                None => None,
            },
        }
    }
}

/// The `size` bytes that follow the opcode at position `pc` in `code`.
pub open spec fn push_literal(code: Seq<u8>, pc: nat, size: u8) -> Seq<u8> {
    code.subrange(pc as int + 1, pc as int + 1 + size as int)
}

impl StepView {
    /// A push opcode comes with as many literal bytes as it pushes, and no
    /// other opcode comes with any.
    pub open spec fn well_formed(self) -> bool {
        match push_size_of(self.op) {
            Some(size) => self.push_bytes matches Some(bytes) && bytes.len() == size,
            None => self.push_bytes is None,
        }
    }

    /// The step agrees with the code it was taken from: a push opcode comes
    /// with exactly the bytes that follow it in the code, and no other opcode
    /// comes with any.
    pub open spec fn agrees_with(self, code: Seq<u8>) -> bool {
        match push_size_of(self.op) {
            Some(size) => {
                &&& self.pc + 1 + size <= code.len()
                &&& self.push_bytes == Some(push_literal(code, self.pc, size))
            },
            None => self.push_bytes is None,
        }
    }
}

impl MachineStateView {
    /// The position a step is recorded at: the machine's own, or 0 for a
    /// machine that cannot tell its position.
    pub open spec fn pc(self) -> nat {
        match self.position {
            Some(position) => position as nat,
            None => 0,
        }
    }

    /// The opcode a step is recorded with: the one the machine is about to
    /// execute, or the invalid opcode where it has none to decode.
    pub open spec fn op(self) -> u8 {
        match self.instruction {
            Some(byte) => byte,
            None => INVALID,
        }
    }
}

/// The step that a machine in `state`, running `code`, is recorded as.
///
/// The recorded stack is the machine's stack in reverse, so that the top
/// comes first. A push opcode whose literal bytes do not all lie inside the
/// code is a fault.
pub open spec fn captured(state: MachineStateView, code: Seq<u8>) -> Result<StepView, DebugError> {
    let push_bytes = match push_size_of(state.op()) {
        Some(size) => Some(push_literal(code, state.pc(), size)),
        None => None,
    };
    match push_size_of(state.op()) {
        Some(size) if state.pc() + 1 + size > code.len() => Err(
            DebugError::OperandOverrun { push_size: size },
        ),
        _ => Ok(
            StepView {
                pc: state.pc(),
                stack: state.stack.reverse(),
                memory: state.memory,
                op: state.op(),
                push_bytes,
            },
        ),
    }
}

/// The mathematical content of a sequence of steps.
pub open spec fn trace_of(steps: Seq<DebugStep>) -> Seq<StepView> {
    steps.map_values(|step: DebugStep| step@)
}

/// A copy of `raw` in reverse order.
pub fn reversed(raw: &Vec<Word>) -> (stack: Vec<Word>)
    ensures
        stack@ == raw@.reverse(),
{
    let mut stack: Vec<Word> = Vec::new();
    let mut left: usize = raw.len();
    while left > 0
        invariant
            left <= raw.len(),
            stack@ == raw@.reverse().subrange(0, raw.len() - left),
        decreases left,
    {
        left = left - 1;
        stack.push(raw[left]);
    }
    stack
}

impl DebugStep {
    /// Records the step of a machine in `state` that runs `code`.
    pub fn capture(state: &MachineState, code: &[u8]) -> (result: Result<DebugStep, DebugError>)
        ensures
            match captured(state@, code@) {
                Ok(step) => result matches Ok(recorded) && recorded@ == step,
                Err(error) => result == Err::<DebugStep, DebugError>(error),
            },
    {
        let pc = match state.position {
            Some(position) => position,
            None => 0,
        };
        let op = match state.instruction {
            Some(byte) => OpCode(byte),
            None => OpCode::invalid(),
        };
        let mut push_bytes: Option<Vec<u8>> = None;
        if let Some(size) = op.push_size() {
            // An end that does not fit in a `usize` lies beyond any code.
            let code_len = code.len();
            match pc.checked_add(1 + size as usize) {
                Some(end) => {
                    if end <= code_len {
                        push_bytes = Some(slice_to_vec(slice_subrange(code, pc + 1, end)));
                    } else {
                        return Err(DebugError::OperandOverrun { push_size: size });
                    }
                },
                None => {
                    return Err(DebugError::OperandOverrun { push_size: size });
                },
            }
        }
        Ok(
            DebugStep {
                pc,
                stack: reversed(&state.stack),
                memory: state.memory.clone(),
                op,
                push_bytes,
            },
        )
    }
}

/// A step recorded at a push opcode holds as many literal bytes as the
/// opcode pushes, and they are the bytes that follow the opcode in the
/// code. A step recorded at any other opcode holds none.
pub proof fn lemma_push_bytes_from_code(state: MachineStateView, code: Seq<u8>)
    ensures
        captured(state, code) matches Ok(step) ==> {
            &&& step.well_formed()
            &&& step.agrees_with(code)
            &&& step.push_bytes is Some <==> push_size_of(step.op) is Some
            &&& push_size_of(step.op) matches Some(size) ==> {
                &&& step.push_bytes->0.len() == size
                &&& forall|k: int|
                    0 <= k < size ==> #[trigger] step.push_bytes->0[k] == code[step.pc + 1 + k]
            }
        },
{
}

/// A step that agrees with some code is well formed.
pub proof fn lemma_agreeing_step_is_well_formed(step: StepView, code: Seq<u8>)
    requires
        step.agrees_with(code),
    ensures
        step.well_formed(),
{
}

/// Recording fails exactly where a push opcode's literal bytes would end
/// beyond the code, and the fault names the size of that push.
pub proof fn lemma_overrun_iff_beyond_code(state: MachineStateView, code: Seq<u8>)
    ensures
        captured(state, code) is Err <==> (push_size_of(state.op()) matches Some(size)
            && state.pc() + 1 + size > code.len()),
        captured(state, code) matches Err(error) ==> push_size_of(state.op()) == Some(
            error->push_size,
        ),
{
}

/// A recorded stack is the machine's stack read from the top: its first
/// word is the machine's last, and reversing it once more gives the
/// machine's stack back.
pub proof fn lemma_stack_top_first(state: MachineStateView, code: Seq<u8>)
    ensures
        captured(state, code) matches Ok(step) ==> {
            &&& step.stack.len() == state.stack.len()
            &&& forall|i: int|
                0 <= i < step.stack.len() ==> #[trigger] step.stack[i]
                    == state.stack[state.stack.len() - 1 - i]
            &&& step.stack.reverse() == state.stack
        },
{
}

/// Position, opcode and memory of a recorded step are the machine's own,
/// with position 0 for a machine that cannot tell its position and the
/// invalid opcode for one that has no instruction to decode.
pub proof fn lemma_step_mirrors_machine(state: MachineStateView, code: Seq<u8>)
    ensures
        captured(state, code) matches Ok(step) ==> {
            &&& step.memory == state.memory
            &&& step.pc == state.pc()
            &&& step.op == state.op()
            &&& state.position is None ==> step.pc == 0
            &&& state.instruction is None ==> step.op == INVALID && step.push_bytes is None
        },
{
}

} // verus!

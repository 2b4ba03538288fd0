//! Steps and traces as text.
use crate::opcode::display_text;
use crate::step::{trace_of, words, DebugStep, StepView};
use crate::text::{decimal, decimal_text, hex_encode, hex_text};
use vstd::prelude::*;
use vstd::string::StringExecFns;

verus! {

/// The text of an opcode together with its literal bytes: the opcode's own
/// text, followed for a push by `(0x..)` with the bytes in hexadecimal.
pub open spec fn pretty_opcode_text(op: u8, push_bytes: Option<Seq<u8>>) -> Seq<char> {
    match push_bytes {
        Some(bytes) => display_text(op) + "(0x"@ + hex_text(bytes) + ")"@,
        None => display_text(op),
    }
}

/// One line of a stack listing: the word in hexadecimal, indented, with a
/// comma behind it.
pub open spec fn stack_line(word: Seq<u8>) -> Seq<char> {
    "    0x"@ + hex_text(word) + ",\n"@
}

/// The lines of a stack listing, one for each word, in order.
pub open spec fn stack_lines(stack: Seq<Seq<u8>>) -> Seq<char>
    decreases stack.len(),
{
    if stack.len() == 0 {
        Seq::empty()
    } else {
        stack_lines(stack.drop_last()) + stack_line(stack.last())
    }
}

/// The listing of a stack: `[]` for an empty one, else one word to a line
/// between square brackets.
pub open spec fn stack_text(stack: Seq<Seq<u8>>) -> Seq<char> {
    if stack.len() == 0 {
        "[]"@
    } else {
        "[\n"@ + stack_lines(stack) + "]"@
    }
}

/// The text of one step: program counter, opcode, stack and memory, each
/// on a line of its own, and an empty line to close.
pub open spec fn step_text(step: StepView) -> Seq<char> {
    "pc: "@ + decimal_text(step.pc) + "\nop: "@ + pretty_opcode_text(step.op, step.push_bytes)
        + "\nstack: "@ + stack_text(step.stack) + "\nmemory: 0x"@ + hex_text(step.memory)
        + "\n\n"@
}

/// The text of a trace: the texts of its steps, one after the other.
pub open spec fn trace_text(trace: Seq<StepView>) -> Seq<char>
    decreases trace.len(),
{
    if trace.len() == 0 {
        Seq::empty()
    } else {
        trace_text(trace.drop_last()) + step_text(trace.last())
    }
}

impl DebugStep {
    /// The opcode as text, with the literal bytes of a push in hexadecimal.
    pub fn pretty_opcode(&self) -> (text: String)
        ensures
            text@ == pretty_opcode_text(self@.op, self@.push_bytes),
    {
        let mut text = self.op.to_string();
        if let Some(push_bytes) = &self.push_bytes {
            let literal = hex_encode(push_bytes.as_slice());
            text.append("(0x");
            text.append(literal.as_str());
            text.append(")");
        }
        text
    }

    /// The listing of the recorded stack.
    fn stack_listing(&self) -> (text: String)
        ensures
            text@ == stack_text(self@.stack),
    {
        if self.stack.len() == 0 {
            return String::from_str("[]");
        }
        let mut text = String::from_str("[\n");
        let ghost stack = words(self.stack@);
        let mut done: usize = 0;
        while done < self.stack.len()
            invariant
                done <= self.stack.len(),
                stack == words(self.stack@),
                text@ == "[\n"@ + stack_lines(stack.subrange(0, done as int)),
            decreases self.stack.len() - done,
        {
            let word = hex_encode(self.stack[done].as_slice());
            text.append("    0x");
            text.append(word.as_str());
            text.append(",\n");
            proof {
                let shown = stack.subrange(0, done + 1);
                assert(shown.drop_last() =~= stack.subrange(0, done as int));
            }
            done = done + 1;
        }
        assert(stack.subrange(0, done as int) =~= stack);
        text.append("]");
        text
    }

    /// The step as text: program counter, opcode, stack and memory.
    pub fn to_string(&self) -> (text: String)
        ensures
            text@ == step_text(self@),
    {
        let mut text = String::from_str("pc: ");
        text.append(decimal(self.pc).as_str());
        text.append("\nop: ");
        text.append(self.pretty_opcode().as_str());
        text.append("\nstack: ");
        text.append(self.stack_listing().as_str());
        text.append("\nmemory: 0x");
        text.append(hex_encode(self.memory.as_slice()).as_str());
        text.append("\n\n");
        text
    }
}

/// The text of a trace: the texts of its steps, in the order in which they
/// were recorded.
pub fn format_trace(steps: &[DebugStep]) -> (text: String)
    ensures
        text@ == trace_text(trace_of(steps@)),
{
    let mut text = String::new();
    let ghost trace = trace_of(steps@);
    let mut done: usize = 0;
    while done < steps.len()
        invariant
            done <= steps.len(),
            trace == trace_of(steps@),
            text@ == trace_text(trace.subrange(0, done as int)),
        decreases steps.len() - done,
    {
        let step = steps[done].to_string();
        text.append(step.as_str());
        proof {
            let shown = trace.subrange(0, done + 1);
            assert(shown.drop_last() =~= trace.subrange(0, done as int));
        }
        done = done + 1;
    }
    assert(trace.subrange(0, done as int) =~= trace);
    text
}

/// The text of a trace depends on nothing but what the steps hold: traces
/// with the same content have the same text.
pub proof fn lemma_trace_text_by_content(first: Seq<DebugStep>, second: Seq<DebugStep>)
    requires
        trace_of(first) == trace_of(second),
    ensures
        trace_text(trace_of(first)) == trace_text(trace_of(second)),
{
}

/// The text of a trace is the text of its earlier steps followed by the
/// text of its later steps.
pub proof fn lemma_trace_text_concat(earlier: Seq<StepView>, later: Seq<StepView>)
    ensures
        trace_text(earlier + later) == trace_text(earlier) + trace_text(later),
    decreases later.len(),
{
    if later.len() > 0 {
        lemma_trace_text_concat(earlier, later.drop_last());
        assert((earlier + later).drop_last() =~= earlier + later.drop_last());
    }
}

} // verus!

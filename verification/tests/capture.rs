use evm_debugger::error::DebugError;
use evm_debugger::opcode::OpCode;
use evm_debugger::step::{reversed, DebugStep, MachineState, Word};

fn word(low: u8) -> Word {
    let mut bytes = [0u8; 32];
    bytes[31] = low;
    bytes
}

fn state(position: Option<usize>, instruction: Option<u8>) -> MachineState {
    MachineState { position, instruction, stack: Vec::new(), memory: Vec::new() }
}

#[test]
fn a_push_takes_the_bytes_that_follow_it() {
    let code = [0x60u8, 0x05, 0x00];
    let step = DebugStep::capture(&state(Some(0), Some(0x60)), &code).unwrap();
    assert_eq!(step.pc, 0);
    assert_eq!(step.op, OpCode(0x60));
    assert_eq!(step.push_bytes, Some(vec![0x05]));
    assert!(step.stack.is_empty());
    assert!(step.memory.is_empty());
}

#[test]
fn a_push_in_the_middle_of_the_code() {
    let code = [0x00u8, 0x62, 0xaa, 0xbb, 0xcc, 0x00, 0x01];
    let step = DebugStep::capture(&state(Some(1), Some(0x62)), &code).unwrap();
    assert_eq!(step.pc, 1);
    assert_eq!(step.push_bytes, Some(vec![0xaa, 0xbb, 0xcc]));
}

#[test]
fn every_push_size_takes_as_many_bytes() {
    let mut code = vec![0u8; 40];
    for (i, byte) in code.iter_mut().enumerate() {
        *byte = i as u8;
    }
    for size in 1..=32usize {
        let opcode = 0x5f + size as u8;
        code[3] = opcode;
        let step = DebugStep::capture(&state(Some(3), Some(opcode)), &code).unwrap();
        let bytes = step.push_bytes.unwrap();
        assert_eq!(bytes.len(), size);
        assert_eq!(bytes, code[4..4 + size].to_vec());
    }
}

#[test]
fn a_push_that_ends_with_the_code_is_recorded() {
    let code = [0x60u8, 0x05];
    let step = DebugStep::capture(&state(Some(0), Some(0x60)), &code).unwrap();
    assert_eq!(step.push_bytes, Some(vec![0x05]));
    let code = [0x00u8, 0x7f].iter().copied().chain(1..=32u8).collect::<Vec<u8>>();
    let step = DebugStep::capture(&state(Some(1), Some(0x7f)), &code).unwrap();
    assert_eq!(step.push_bytes, Some((1..=32u8).collect::<Vec<u8>>()));
}

#[test]
fn a_push_that_ends_beyond_the_code_is_a_fault() {
    let code = [0x60u8];
    let result = DebugStep::capture(&state(Some(0), Some(0x60)), &code);
    assert_eq!(result.unwrap_err(), DebugError::OperandOverrun { push_size: 1 });
    let code = [0x61u8, 0x01];
    let result = DebugStep::capture(&state(Some(0), Some(0x61)), &code);
    assert_eq!(result.unwrap_err(), DebugError::OperandOverrun { push_size: 2 });
    let code = [0x00u8; 33];
    let result = DebugStep::capture(&state(Some(1), Some(0x7f)), &code);
    assert_eq!(result.unwrap_err(), DebugError::OperandOverrun { push_size: 32 });
    let result = DebugStep::capture(&state(Some(0), Some(0x7f)), &code);
    assert!(result.is_ok());
}

#[test]
fn a_push_at_the_largest_position_is_a_fault() {
    let code = [0x60u8, 0x05, 0x00];
    let result = DebugStep::capture(&state(Some(usize::MAX), Some(0x60)), &code);
    assert_eq!(result.unwrap_err(), DebugError::OperandOverrun { push_size: 1 });
    let result = DebugStep::capture(&state(Some(usize::MAX - 1), Some(0x7f)), &code);
    assert_eq!(result.unwrap_err(), DebugError::OperandOverrun { push_size: 32 });
    let result = DebugStep::capture(&state(Some(usize::MAX), Some(0x00)), &code).unwrap();
    assert_eq!(result.pc, usize::MAX);
}

#[test]
fn an_opcode_that_is_no_push_takes_no_bytes() {
    let code = [0x01u8, 0x02, 0x03];
    for opcode in [0x00u8, 0x01, 0x5f, 0x80, 0x9f, 0xfe, 0x0c] {
        let step = DebugStep::capture(&state(Some(2), Some(opcode)), &code).unwrap();
        assert_eq!(step.op, OpCode(opcode));
        assert_eq!(step.push_bytes, None);
        assert_eq!(step.pc, 2);
    }
}

#[test]
fn a_machine_without_an_instruction_is_recorded_as_invalid() {
    let code = [0x60u8, 0x05, 0x00];
    let step = DebugStep::capture(&state(Some(3), None), &code).unwrap();
    assert_eq!(step.pc, 3);
    assert_eq!(step.op, OpCode(0xfe));
    assert_eq!(step.op.name(), "INVALID");
    assert_eq!(step.push_bytes, None);
}

#[test]
fn a_machine_without_a_position_is_recorded_at_zero() {
    let code = [0x60u8, 0x05, 0x00];
    let step = DebugStep::capture(&state(None, None), &code).unwrap();
    assert_eq!(step.pc, 0);
    assert_eq!(step.op, OpCode(0xfe));
    let step = DebugStep::capture(&state(None, Some(0x60)), &code).unwrap();
    assert_eq!(step.pc, 0);
    assert_eq!(step.push_bytes, Some(vec![0x05]));
}

#[test]
fn the_recorded_stack_has_the_top_first() {
    let code = [0x01u8];
    let machine = MachineState {
        position: Some(0),
        instruction: Some(0x01),
        stack: vec![word(1), word(2), word(3)],
        memory: vec![0xde, 0xad],
    };
    let step = DebugStep::capture(&machine, &code).unwrap();
    assert_eq!(step.stack, vec![word(3), word(2), word(1)]);
    assert_eq!(step.stack[0], *machine.stack.last().unwrap());
    assert_eq!(reversed(&step.stack), machine.stack);
    assert_eq!(step.memory, vec![0xde, 0xad]);
    assert_eq!(machine.stack, vec![word(1), word(2), word(3)]);
}

#[test]
fn the_stack_is_reversed_without_an_instruction_too() {
    let machine = MachineState {
        position: None,
        instruction: None,
        stack: vec![word(9), word(8)],
        memory: vec![1, 2, 3],
    };
    let step = DebugStep::capture(&machine, &[]).unwrap();
    assert_eq!(step.stack, vec![word(8), word(9)]);
    assert_eq!(step.memory, vec![1, 2, 3]);
}

#[test]
fn reversing_keeps_every_word() {
    assert_eq!(reversed(&Vec::new()), Vec::<Word>::new());
    assert_eq!(reversed(&vec![word(7)]), vec![word(7)]);
    let raw: Vec<Word> = (0..50u8).map(word).collect();
    let top_first = reversed(&raw);
    assert_eq!(top_first.len(), 50);
    for (i, w) in top_first.iter().enumerate() {
        assert_eq!(*w, word(49 - i as u8));
    }
    assert_eq!(reversed(&top_first), raw);
}

use evm::Opcode;
use evm_debugger::opcode::OpCode;

const ASSIGNED: [(u8, u8); 9] = [
    (0x00, 0x0b),
    (0x10, 0x1d),
    (0x20, 0x20),
    (0x30, 0x48),
    (0x50, 0x5b),
    (0x60, 0xa4),
    (0xf0, 0xf5),
    (0xfa, 0xfa),
    (0xfd, 0xff),
];

fn assigned(byte: u8) -> bool {
    ASSIGNED.iter().any(|(first, last)| *first <= byte && byte <= *last)
}

#[test]
fn every_byte_has_a_name() {
    for byte in 0..=255u8 {
        let name = OpCode(byte).name();
        assert!(!name.is_empty());
        assert_eq!(name == "UNDEFINED", !assigned(byte), "byte {:#04x}", byte);
        assert_eq!(OpCode(byte).is_assigned(), assigned(byte), "byte {:#04x}", byte);
    }
}

#[test]
fn names_are_distinct_for_assigned_bytes() {
    let mut names: Vec<&'static str> =
        (0..=255u8).filter(|byte| assigned(*byte)).map(|byte| OpCode(byte).name()).collect();
    assert_eq!(names.len(), 143);
    names.sort();
    names.dedup();
    assert_eq!(names.len(), 143);
}

#[test]
fn names_follow_the_runtime_constants() {
    assert_eq!(OpCode(Opcode::STOP.0).name(), "STOP");
    assert_eq!(OpCode(Opcode::ADD.0).name(), "ADD");
    assert_eq!(OpCode(Opcode::SIGNEXTEND.0).name(), "SIGNEXTEND");
    assert_eq!(OpCode(Opcode::SAR.0).name(), "SAR");
    assert_eq!(OpCode(Opcode::SHA3.0).name(), "KECCAK256");
    assert_eq!(OpCode(Opcode::ADDRESS.0).name(), "ADDRESS");
    assert_eq!(OpCode(Opcode::BASEFEE.0).name(), "BASEFEE");
    assert_eq!(OpCode(Opcode::POP.0).name(), "POP");
    assert_eq!(OpCode(Opcode::JUMPDEST.0).name(), "JUMPDEST");
    assert_eq!(OpCode(Opcode::PUSH1.0).name(), "PUSH1");
    assert_eq!(OpCode(Opcode::PUSH32.0).name(), "PUSH32");
    assert_eq!(OpCode(Opcode::DUP1.0).name(), "DUP1");
    assert_eq!(OpCode(Opcode::DUP16.0).name(), "DUP16");
    assert_eq!(OpCode(Opcode::SWAP1.0).name(), "SWAP1");
    assert_eq!(OpCode(Opcode::SWAP16.0).name(), "SWAP16");
    assert_eq!(OpCode(Opcode::LOG0.0).name(), "LOG0");
    assert_eq!(OpCode(Opcode::LOG4.0).name(), "LOG4");
    assert_eq!(OpCode(Opcode::CREATE.0).name(), "CREATE");
    assert_eq!(OpCode(Opcode::CREATE2.0).name(), "CREATE2");
    assert_eq!(OpCode(Opcode::STATICCALL.0).name(), "STATICCALL");
    assert_eq!(OpCode(Opcode::REVERT.0).name(), "REVERT");
    assert_eq!(OpCode(Opcode::INVALID.0).name(), "INVALID");
    assert_eq!(OpCode(Opcode::SUICIDE.0).name(), "SELFDESTRUCT");
}

#[test]
fn push_and_family_names_count_upwards() {
    for n in 1..=32u8 {
        assert_eq!(OpCode(0x5f + n).name(), format!("PUSH{}", n));
    }
    for n in 1..=16u8 {
        assert_eq!(OpCode(0x7f + n).name(), format!("DUP{}", n));
        assert_eq!(OpCode(0x8f + n).name(), format!("SWAP{}", n));
    }
    for n in 0..=4u8 {
        assert_eq!(OpCode(0xa0 + n).name(), format!("LOG{}", n));
    }
}

#[test]
fn unassigned_bytes_are_undefined() {
    for byte in [0x0cu8, 0x0f, 0x1e, 0x21, 0x2f, 0x49, 0x4f, 0x5c, 0x5f, 0xa5, 0xef, 0xf6, 0xfb, 0xfc] {
        assert_eq!(OpCode(byte).name(), "UNDEFINED");
        assert!(!OpCode(byte).is_assigned());
    }
}

#[test]
fn display_of_an_undefined_byte_shows_the_byte() {
    assert_eq!(OpCode(0x0c).to_string(), "UNDEFINED(0x0c)");
    assert_eq!(OpCode(0xef).to_string(), "UNDEFINED(0xef)");
    assert_eq!(OpCode(0x5f).to_string(), "UNDEFINED(0x5f)");
}

#[test]
fn display_of_a_defined_byte_is_its_mnemonic() {
    assert_eq!(OpCode(0x01).to_string(), "ADD");
    assert_eq!(OpCode(0x00).to_string(), "STOP");
    assert_eq!(OpCode(0x60).to_string(), "PUSH1");
    assert_eq!(OpCode(0xfe).to_string(), "INVALID");
}

#[test]
fn display_agrees_with_name_on_every_byte() {
    for byte in 0..=255u8 {
        let expected = if assigned(byte) {
            OpCode(byte).name().to_string()
        } else {
            format!("UNDEFINED(0x{:02x})", byte)
        };
        assert_eq!(OpCode(byte).to_string(), expected);
    }
}

#[test]
fn push_size_is_the_number_of_literal_bytes() {
    assert_eq!(OpCode(0x5f).push_size(), None);
    assert_eq!(OpCode(0x60).push_size(), Some(1));
    assert_eq!(OpCode(0x61).push_size(), Some(2));
    assert_eq!(OpCode(0x7f).push_size(), Some(32));
    assert_eq!(OpCode(0x80).push_size(), None);
    assert_eq!(OpCode(0x00).push_size(), None);
    assert_eq!(OpCode(0xff).push_size(), None);
}

#[test]
fn push_size_agrees_with_the_runtime_on_every_byte() {
    for byte in 0..=255u8 {
        assert_eq!(OpCode(byte).push_size(), Opcode(byte).is_push());
        let expected = if (0x60..=0x7f).contains(&byte) { Some(byte - 0x5f) } else { None };
        assert_eq!(OpCode(byte).push_size(), expected);
    }
}

#[test]
fn the_invalid_opcode_is_the_designated_one() {
    assert_eq!(OpCode::invalid(), OpCode(0xfe));
    assert_eq!(OpCode::invalid().0, Opcode::INVALID.0);
    assert_eq!(OpCode::invalid().push_size(), None);
}

//! Opcode bytes, their mnemonics and the length of a push literal.
use crate::text::{decimal_text, hex_text, push_hex_byte};
use vstd::prelude::*;
use vstd::string::StringExecFns;

verus! {

/// The mnemonic of the opcode `byte`. A byte that no instruction is assigned
/// to has the mnemonic `UNDEFINED`.
pub open spec fn mnemonic(byte: u8) -> Seq<char> {
    match byte {
        // Stop and arithmetic.
        0x00 => "STOP"@,
        0x01 => "ADD"@,
        0x02 => "MUL"@,
        0x03 => "SUB"@,
        0x04 => "DIV"@,
        0x05 => "SDIV"@,
        0x06 => "MOD"@,
        0x07 => "SMOD"@,
        0x08 => "ADDMOD"@,
        0x09 => "MULMOD"@,
        0x0a => "EXP"@,
        0x0b => "SIGNEXTEND"@,
        // Comparison and bitwise logic.
        0x10 => "LT"@,
        0x11 => "GT"@,
        0x12 => "SLT"@,
        0x13 => "SGT"@,
        0x14 => "EQ"@,
        0x15 => "ISZERO"@,
        0x16 => "AND"@,
        0x17 => "OR"@,
        0x18 => "XOR"@,
        0x19 => "NOT"@,
        0x1a => "BYTE"@,
        0x1b => "SHL"@,
        0x1c => "SHR"@,
        0x1d => "SAR"@,
        // Hashing.
        0x20 => "KECCAK256"@,
        // Environment and block information.
        0x30 => "ADDRESS"@,
        0x31 => "BALANCE"@,
        0x32 => "ORIGIN"@,
        0x33 => "CALLER"@,
        0x34 => "CALLVALUE"@,
        0x35 => "CALLDATALOAD"@,
        0x36 => "CALLDATASIZE"@,
        0x37 => "CALLDATACOPY"@,
        0x38 => "CODESIZE"@,
        0x39 => "CODECOPY"@,
        0x3a => "GASPRICE"@,
        0x3b => "EXTCODESIZE"@,
        0x3c => "EXTCODECOPY"@,
        0x3d => "RETURNDATASIZE"@,
        0x3e => "RETURNDATACOPY"@,
        0x3f => "EXTCODEHASH"@,
        0x40 => "BLOCKHASH"@,
        0x41 => "COINBASE"@,
        0x42 => "TIMESTAMP"@,
        0x43 => "NUMBER"@,
        0x44 => "DIFFICULTY"@,
        0x45 => "GASLIMIT"@,
        0x46 => "CHAINID"@,
        0x47 => "SELFBALANCE"@,
        0x48 => "BASEFEE"@,
        // Stack, memory, storage and flow.
        0x50 => "POP"@,
        0x51 => "MLOAD"@,
        0x52 => "MSTORE"@,
        0x53 => "MSTORE8"@,
        0x54 => "SLOAD"@,
        0x55 => "SSTORE"@,
        0x56 => "JUMP"@,
        0x57 => "JUMPI"@,
        0x58 => "PC"@,
        0x59 => "MSIZE"@,
        0x5a => "GAS"@,
        0x5b => "JUMPDEST"@,
        // Push.
        0x60 => "PUSH1"@,
        0x61 => "PUSH2"@,
        0x62 => "PUSH3"@,
        0x63 => "PUSH4"@,
        0x64 => "PUSH5"@,
        0x65 => "PUSH6"@,
        0x66 => "PUSH7"@,
        0x67 => "PUSH8"@,
        0x68 => "PUSH9"@,
        0x69 => "PUSH10"@,
        0x6a => "PUSH11"@,
        0x6b => "PUSH12"@,
        0x6c => "PUSH13"@,
        0x6d => "PUSH14"@,
        0x6e => "PUSH15"@,
        0x6f => "PUSH16"@,
        0x70 => "PUSH17"@,
        0x71 => "PUSH18"@,
        0x72 => "PUSH19"@,
        0x73 => "PUSH20"@,
        0x74 => "PUSH21"@,
        0x75 => "PUSH22"@,
        0x76 => "PUSH23"@,
        0x77 => "PUSH24"@,
        0x78 => "PUSH25"@,
        0x79 => "PUSH26"@,
        0x7a => "PUSH27"@,
        0x7b => "PUSH28"@,
        0x7c => "PUSH29"@,
        0x7d => "PUSH30"@,
        0x7e => "PUSH31"@,
        0x7f => "PUSH32"@,
        // Duplicate.
        0x80 => "DUP1"@,
        0x81 => "DUP2"@,
        0x82 => "DUP3"@,
        0x83 => "DUP4"@,
        0x84 => "DUP5"@,
        0x85 => "DUP6"@,
        0x86 => "DUP7"@,
        0x87 => "DUP8"@,
        0x88 => "DUP9"@,
        0x89 => "DUP10"@,
        0x8a => "DUP11"@,
        0x8b => "DUP12"@,
        0x8c => "DUP13"@,
        0x8d => "DUP14"@,
        0x8e => "DUP15"@,
        0x8f => "DUP16"@,
        // Swap.
        0x90 => "SWAP1"@,
        0x91 => "SWAP2"@,
        0x92 => "SWAP3"@,
        0x93 => "SWAP4"@,
        0x94 => "SWAP5"@,
        0x95 => "SWAP6"@,
        0x96 => "SWAP7"@,
        0x97 => "SWAP8"@,
        0x98 => "SWAP9"@,
        0x99 => "SWAP10"@,
        0x9a => "SWAP11"@,
        0x9b => "SWAP12"@,
        0x9c => "SWAP13"@,
        0x9d => "SWAP14"@,
        0x9e => "SWAP15"@,
        0x9f => "SWAP16"@,
        // Log.
        0xa0 => "LOG0"@,
        0xa1 => "LOG1"@,
        0xa2 => "LOG2"@,
        0xa3 => "LOG3"@,
        0xa4 => "LOG4"@,
        // System.
        0xf0 => "CREATE"@,
        0xf1 => "CALL"@,
        0xf2 => "CALLCODE"@,
        0xf3 => "RETURN"@,
        0xf4 => "DELEGATECALL"@,
        0xf5 => "CREATE2"@,
        0xfa => "STATICCALL"@,
        0xfd => "REVERT"@,
        0xfe => "INVALID"@,
        0xff => "SELFDESTRUCT"@,
        _ => "UNDEFINED"@,
    }
}

/// The byte of the designated invalid instruction.
pub const INVALID: u8 = 0xfe;

/// Whether an instruction is assigned to `byte`.
pub open spec fn is_assigned(byte: u8) -> bool {
    ||| byte <= 0x0b
    ||| 0x10 <= byte <= 0x1d
    ||| byte == 0x20
    ||| 0x30 <= byte <= 0x48
    ||| 0x50 <= byte <= 0x5b
    ||| 0x60 <= byte <= 0xa4
    ||| 0xf0 <= byte <= 0xf5
    ||| byte == 0xfa
    ||| 0xfd <= byte
}

/// The text an opcode is shown as: its mnemonic, or for a byte without one
/// `UNDEFINED(0x..)` with the two hexadecimal digits of the byte.
pub open spec fn display_text(byte: u8) -> Seq<char> {
    if mnemonic(byte) == "UNDEFINED"@ {
        "UNDEFINED(0x"@ + hex_text(seq![byte]) + ")"@
    } else {
        mnemonic(byte)
    }
}

/// The number of literal bytes that follow the opcode `byte` in the code:
/// `1..=32` for `PUSH1..=PUSH32`, nothing for every other byte.
pub open spec fn push_size_of(byte: u8) -> Option<u8> {
    if 0x60 <= byte <= 0x7f {
        Some((byte - 0x60 + 1) as u8)
    } else {
        None
    }
}

/// Calls `evm::Opcode::is_push` on the opcode with the given byte.
///
/// Trusted: the result is `Some(byte - 0x60 + 1)` for a byte in `0x60..=0x7f`
/// and `None` for any other byte, as the body of `is_push` computes it.
#[verifier::external_body]
fn evm_is_push(byte: u8) -> (size: Option<u8>)
    ensures
        size == push_size_of(byte),
{
    evm::Opcode(byte).is_push()
}

/// One opcode of the machine, identified by its byte.
#[derive(Clone, Copy, Debug, PartialEq, Eq, Structural)]
pub struct OpCode(pub u8);

impl OpCode {
    /// The opcode that stands for an instruction that cannot be decoded.
    pub fn invalid() -> (op: OpCode)
        ensures
            op.0 == INVALID,
    {
        OpCode(INVALID)
    }

    /// The mnemonic of the opcode, `"UNDEFINED"` where the byte has none.
    pub fn name(&self) -> (name: &'static str)
        ensures
            name@ == mnemonic(self.0),
    {
        match self.0 {
            // Stop and arithmetic.
            0x00 => "STOP",
            0x01 => "ADD",
            0x02 => "MUL",
            0x03 => "SUB",
            0x04 => "DIV",
            0x05 => "SDIV",
            0x06 => "MOD",
            0x07 => "SMOD",
            0x08 => "ADDMOD",
            0x09 => "MULMOD",
            0x0a => "EXP",
            0x0b => "SIGNEXTEND",
            // Comparison and bitwise logic.
            0x10 => "LT",
            0x11 => "GT",
            0x12 => "SLT",
            0x13 => "SGT",
            0x14 => "EQ",
            0x15 => "ISZERO",
            0x16 => "AND",
            0x17 => "OR",
            0x18 => "XOR",
            0x19 => "NOT",
            0x1a => "BYTE",
            0x1b => "SHL",
            0x1c => "SHR",
            0x1d => "SAR",
            // Hashing.
            0x20 => "KECCAK256",
            // Environment and block information.
            0x30 => "ADDRESS",
            0x31 => "BALANCE",
            0x32 => "ORIGIN",
            0x33 => "CALLER",
            0x34 => "CALLVALUE",
            0x35 => "CALLDATALOAD",
            0x36 => "CALLDATASIZE",
            0x37 => "CALLDATACOPY",
            0x38 => "CODESIZE",
            0x39 => "CODECOPY",
            0x3a => "GASPRICE",
            0x3b => "EXTCODESIZE",
            0x3c => "EXTCODECOPY",
            0x3d => "RETURNDATASIZE",
            0x3e => "RETURNDATACOPY",
            0x3f => "EXTCODEHASH",
            0x40 => "BLOCKHASH",
            0x41 => "COINBASE",
            0x42 => "TIMESTAMP",
            0x43 => "NUMBER",
            0x44 => "DIFFICULTY",
            0x45 => "GASLIMIT",
            0x46 => "CHAINID",
            0x47 => "SELFBALANCE",
            0x48 => "BASEFEE",
            // Stack, memory, storage and flow.
            0x50 => "POP",
            0x51 => "MLOAD",
            0x52 => "MSTORE",
            0x53 => "MSTORE8",
            0x54 => "SLOAD",
            0x55 => "SSTORE",
            0x56 => "JUMP",
            0x57 => "JUMPI",
            0x58 => "PC",
            0x59 => "MSIZE",
            0x5a => "GAS",
            0x5b => "JUMPDEST",
            // Push.
            0x60 => "PUSH1",
            0x61 => "PUSH2",
            0x62 => "PUSH3",
            0x63 => "PUSH4",
            0x64 => "PUSH5",
            0x65 => "PUSH6",
            0x66 => "PUSH7",
            0x67 => "PUSH8",
            0x68 => "PUSH9",
            0x69 => "PUSH10",
            0x6a => "PUSH11",
            0x6b => "PUSH12",
            0x6c => "PUSH13",
            0x6d => "PUSH14",
            0x6e => "PUSH15",
            0x6f => "PUSH16",
            0x70 => "PUSH17",
            0x71 => "PUSH18",
            0x72 => "PUSH19",
            0x73 => "PUSH20",
            0x74 => "PUSH21",
            0x75 => "PUSH22",
            0x76 => "PUSH23",
            0x77 => "PUSH24",
            0x78 => "PUSH25",
            0x79 => "PUSH26",
            0x7a => "PUSH27",
            0x7b => "PUSH28",
            0x7c => "PUSH29",
            0x7d => "PUSH30",
            0x7e => "PUSH31",
            0x7f => "PUSH32",
            // Duplicate.
            0x80 => "DUP1",
            0x81 => "DUP2",
            0x82 => "DUP3",
            0x83 => "DUP4",
            0x84 => "DUP5",
            0x85 => "DUP6",
            0x86 => "DUP7",
            0x87 => "DUP8",
            0x88 => "DUP9",
            0x89 => "DUP10",
            0x8a => "DUP11",
            0x8b => "DUP12",
            0x8c => "DUP13",
            0x8d => "DUP14",
            0x8e => "DUP15",
            0x8f => "DUP16",
            // Swap.
            0x90 => "SWAP1",
            0x91 => "SWAP2",
            0x92 => "SWAP3",
            0x93 => "SWAP4",
            0x94 => "SWAP5",
            0x95 => "SWAP6",
            0x96 => "SWAP7",
            0x97 => "SWAP8",
            0x98 => "SWAP9",
            0x99 => "SWAP10",
            0x9a => "SWAP11",
            0x9b => "SWAP12",
            0x9c => "SWAP13",
            0x9d => "SWAP14",
            0x9e => "SWAP15",
            0x9f => "SWAP16",
            // Log.
            0xa0 => "LOG0",
            0xa1 => "LOG1",
            0xa2 => "LOG2",
            0xa3 => "LOG3",
            0xa4 => "LOG4",
            // System.
            0xf0 => "CREATE",
            0xf1 => "CALL",
            0xf2 => "CALLCODE",
            0xf3 => "RETURN",
            0xf4 => "DELEGATECALL",
            0xf5 => "CREATE2",
            0xfa => "STATICCALL",
            0xfd => "REVERT",
            0xfe => "INVALID",
            0xff => "SELFDESTRUCT",
            _ => "UNDEFINED",
        }
    }

    /// Whether an instruction is assigned to the opcode's byte.
    pub fn is_assigned(&self) -> (assigned: bool)
        ensures
            assigned == is_assigned(self.0),
    {
        let byte = self.0;
        byte <= 0x0b
            || (0x10 <= byte && byte <= 0x1d)
            || byte == 0x20
            || (0x30 <= byte && byte <= 0x48)
            || (0x50 <= byte && byte <= 0x5b)
            || (0x60 <= byte && byte <= 0xa4)
            || (0xf0 <= byte && byte <= 0xf5)
            || byte == 0xfa
            || 0xfd <= byte
    }

    /// The text the opcode is shown as: the mnemonic where there is one,
    /// `UNDEFINED(0x..)` with the byte in hexadecimal where there is none.
    pub fn to_string(&self) -> (text: String)
        ensures
            text@ == display_text(self.0),
    {
        proof {
            lemma_undefined_iff_unassigned(self.0);
        }
        if self.is_assigned() {
            String::from_str(self.name())
        } else {
            let mut text = String::from_str("UNDEFINED(0x");
            push_hex_byte(&mut text, self.0);
            text.append(")");
            text
        }
    }

    /// The number of literal bytes a push opcode carries, `None` for an
    /// opcode that is not a push.
    pub fn push_size(self) -> (size: Option<u8>)
        ensures
            size == push_size_of(self.0),
    {
        evm_is_push(self.0)
    }
}

/// The mnemonic of an assigned byte below the push opcodes does not begin
/// with `U`.
proof fn lemma_initial_below_push(byte: u8)
    requires
        is_assigned(byte),
        byte < 0x60,
    ensures
        mnemonic(byte).len() > 0,
        mnemonic(byte)[0] != 'U',
{
    reveal_strlit("STOP");
    reveal_strlit("ADD");
    reveal_strlit("MUL");
    reveal_strlit("SUB");
    reveal_strlit("DIV");
    reveal_strlit("SDIV");
    reveal_strlit("MOD");
    reveal_strlit("SMOD");
    reveal_strlit("ADDMOD");
    reveal_strlit("MULMOD");
    reveal_strlit("EXP");
    reveal_strlit("SIGNEXTEND");
    reveal_strlit("LT");
    reveal_strlit("GT");
    reveal_strlit("SLT");
    reveal_strlit("SGT");
    reveal_strlit("EQ");
    reveal_strlit("ISZERO");
    reveal_strlit("AND");
    reveal_strlit("OR");
    reveal_strlit("XOR");
    reveal_strlit("NOT");
    reveal_strlit("BYTE");
    reveal_strlit("SHL");
    reveal_strlit("SHR");
    reveal_strlit("SAR");
    reveal_strlit("KECCAK256");
    reveal_strlit("ADDRESS");
    reveal_strlit("BALANCE");
    reveal_strlit("ORIGIN");
    reveal_strlit("CALLER");
    reveal_strlit("CALLVALUE");
    reveal_strlit("CALLDATALOAD");
    reveal_strlit("CALLDATASIZE");
    reveal_strlit("CALLDATACOPY");
    reveal_strlit("CODESIZE");
    reveal_strlit("CODECOPY");
    reveal_strlit("GASPRICE");
    reveal_strlit("EXTCODESIZE");
    reveal_strlit("EXTCODECOPY");
    reveal_strlit("RETURNDATASIZE");
    reveal_strlit("RETURNDATACOPY");
    reveal_strlit("EXTCODEHASH");
    reveal_strlit("BLOCKHASH");
    reveal_strlit("COINBASE");
    reveal_strlit("TIMESTAMP");
    reveal_strlit("NUMBER");
    reveal_strlit("DIFFICULTY");
    reveal_strlit("GASLIMIT");
    reveal_strlit("CHAINID");
    reveal_strlit("SELFBALANCE");
    reveal_strlit("BASEFEE");
    reveal_strlit("POP");
    reveal_strlit("MLOAD");
    reveal_strlit("MSTORE");
    reveal_strlit("MSTORE8");
    reveal_strlit("SLOAD");
    reveal_strlit("SSTORE");
    reveal_strlit("JUMP");
    reveal_strlit("JUMPI");
    reveal_strlit("PC");
    reveal_strlit("MSIZE");
    reveal_strlit("GAS");
    reveal_strlit("JUMPDEST");
}

/// The mnemonic of a push, duplicate, swap or log opcode does not begin
/// with `U`.
proof fn lemma_initial_stack_family(byte: u8)
    requires
        0x60 <= byte <= 0xa4,
    ensures
        mnemonic(byte).len() > 0,
        mnemonic(byte)[0] != 'U',
{
    reveal_strlit("PUSH1");
    reveal_strlit("PUSH2");
    reveal_strlit("PUSH3");
    reveal_strlit("PUSH4");
    reveal_strlit("PUSH5");
    reveal_strlit("PUSH6");
    reveal_strlit("PUSH7");
    reveal_strlit("PUSH8");
    reveal_strlit("PUSH9");
    reveal_strlit("PUSH10");
    reveal_strlit("PUSH11");
    reveal_strlit("PUSH12");
    reveal_strlit("PUSH13");
    reveal_strlit("PUSH14");
    reveal_strlit("PUSH15");
    reveal_strlit("PUSH16");
    reveal_strlit("PUSH17");
    reveal_strlit("PUSH18");
    reveal_strlit("PUSH19");
    reveal_strlit("PUSH20");
    reveal_strlit("PUSH21");
    reveal_strlit("PUSH22");
    reveal_strlit("PUSH23");
    reveal_strlit("PUSH24");
    reveal_strlit("PUSH25");
    reveal_strlit("PUSH26");
    reveal_strlit("PUSH27");
    reveal_strlit("PUSH28");
    reveal_strlit("PUSH29");
    reveal_strlit("PUSH30");
    reveal_strlit("PUSH31");
    reveal_strlit("PUSH32");
    reveal_strlit("DUP1");
    reveal_strlit("DUP2");
    reveal_strlit("DUP3");
    reveal_strlit("DUP4");
    reveal_strlit("DUP5");
    reveal_strlit("DUP6");
    reveal_strlit("DUP7");
    reveal_strlit("DUP8");
    reveal_strlit("DUP9");
    reveal_strlit("DUP10");
    reveal_strlit("DUP11");
    reveal_strlit("DUP12");
    reveal_strlit("DUP13");
    reveal_strlit("DUP14");
    reveal_strlit("DUP15");
    reveal_strlit("DUP16");
    reveal_strlit("SWAP1");
    reveal_strlit("SWAP2");
    reveal_strlit("SWAP3");
    reveal_strlit("SWAP4");
    reveal_strlit("SWAP5");
    reveal_strlit("SWAP6");
    reveal_strlit("SWAP7");
    reveal_strlit("SWAP8");
    reveal_strlit("SWAP9");
    reveal_strlit("SWAP10");
    reveal_strlit("SWAP11");
    reveal_strlit("SWAP12");
    reveal_strlit("SWAP13");
    reveal_strlit("SWAP14");
    reveal_strlit("SWAP15");
    reveal_strlit("SWAP16");
    reveal_strlit("LOG0");
    reveal_strlit("LOG1");
    reveal_strlit("LOG2");
    reveal_strlit("LOG3");
    reveal_strlit("LOG4");
}

/// The mnemonic of an assigned system opcode does not begin with `U`.
proof fn lemma_initial_system(byte: u8)
    requires
        is_assigned(byte),
        0xf0 <= byte,
    ensures
        mnemonic(byte).len() > 0,
        mnemonic(byte)[0] != 'U',
{
    reveal_strlit("CREATE");
    reveal_strlit("CALL");
    reveal_strlit("CALLCODE");
    reveal_strlit("RETURN");
    reveal_strlit("DELEGATECALL");
    reveal_strlit("CREATE2");
    reveal_strlit("STATICCALL");
    reveal_strlit("REVERT");
    reveal_strlit("INVALID");
    reveal_strlit("SELFDESTRUCT");
}

/// The mnemonic table is total, and its entry is `UNDEFINED` for exactly the
/// bytes that no instruction is assigned to.
pub proof fn lemma_undefined_iff_unassigned(byte: u8)
    ensures
        mnemonic(byte) == "UNDEFINED"@ <==> !is_assigned(byte),
{
    reveal_strlit("UNDEFINED");
    if is_assigned(byte) {
        if byte < 0x60 {
            lemma_initial_below_push(byte);
        } else if byte <= 0xa4 {
            lemma_initial_stack_family(byte);
        } else {
            lemma_initial_system(byte);
        }
    }
}

/// The mnemonic of a push opcode is `PUSH` followed by the number of literal
/// bytes that it pushes.
pub proof fn lemma_push_mnemonic_counts_bytes(byte: u8)
    ensures
        push_size_of(byte) matches Some(size) ==> mnemonic(byte) == "PUSH"@ + decimal_text(
            size as nat,
        ),
{
    reveal_strlit("PUSH");
    reveal_with_fuel(decimal_text, 2);
    reveal_strlit("PUSH1");
    reveal_strlit("PUSH2");
    reveal_strlit("PUSH3");
    reveal_strlit("PUSH4");
    reveal_strlit("PUSH5");
    reveal_strlit("PUSH6");
    reveal_strlit("PUSH7");
    reveal_strlit("PUSH8");
    reveal_strlit("PUSH9");
    reveal_strlit("PUSH10");
    reveal_strlit("PUSH11");
    reveal_strlit("PUSH12");
    reveal_strlit("PUSH13");
    reveal_strlit("PUSH14");
    reveal_strlit("PUSH15");
    reveal_strlit("PUSH16");
    reveal_strlit("PUSH17");
    reveal_strlit("PUSH18");
    reveal_strlit("PUSH19");
    reveal_strlit("PUSH20");
    reveal_strlit("PUSH21");
    reveal_strlit("PUSH22");
    reveal_strlit("PUSH23");
    reveal_strlit("PUSH24");
    reveal_strlit("PUSH25");
    reveal_strlit("PUSH26");
    reveal_strlit("PUSH27");
    reveal_strlit("PUSH28");
    reveal_strlit("PUSH29");
    reveal_strlit("PUSH30");
    reveal_strlit("PUSH31");
    reveal_strlit("PUSH32");
}

} // verus!

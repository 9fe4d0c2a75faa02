use vstd::prelude::*;

verus! {

/// How an instruction finds its operand.
#[derive(Clone, Copy, Debug, PartialEq, Eq, Structural)]
pub enum AddressingMode {
    Implicit,
    Accumulator,
    Immediate,
    ZeroPage,
    ZeroPageX,
    ZeroPageY,
    Relative,
    Absolute,
    AbsoluteX,
    AbsoluteY,
    Indirect,
    IndirectX,
    IndirectY,
}

impl AddressingMode {
    /// The modes that name a memory location. `Implicit` and `Accumulator`
    /// have no operand in memory, and the offset of a `Relative` branch is
    /// read by the branch itself.
    pub open spec fn resolves(self) -> bool {
        !(self is Implicit || self is Accumulator || self is Relative)
    }

    /// Length in bytes of an instruction in this mode, opcode included.
    pub open spec fn instruction_length(self) -> u8 {
        match self {
            AddressingMode::Implicit | AddressingMode::Accumulator => 1,
            AddressingMode::Absolute
            | AddressingMode::AbsoluteX
            | AddressingMode::AbsoluteY
            | AddressingMode::Indirect => 3,
            _ => 2,
        }
    }

    pub fn has_address(&self) -> (yes: bool)
        ensures
            yes == self.resolves(),
    {
        match self {
            AddressingMode::Implicit
            | AddressingMode::Accumulator
            | AddressingMode::Relative => false,
            _ => true,
        }
    }
}

/// The 56 documented instructions of the 6502.
#[derive(Clone, Copy, Debug, PartialEq, Eq, Structural)]
pub enum Instruction {
    // Load and store
    LDA,
    LDX,
    LDY,
    STA,
    STX,
    STY,
    // Register transfers
    TAX,
    TAY,
    TXA,
    TYA,
    // Stack
    TSX,
    TXS,
    PHA,
    PHP,
    PLA,
    PLP,
    // Logical
    AND,
    EOR,
    ORA,
    BIT,
    // Arithmetic
    ADC,
    SBC,
    CMP,
    CPX,
    CPY,
    // Increments and decrements
    INC,
    INX,
    INY,
    DEC,
    DEX,
    DEY,
    // Shifts
    ASL,
    LSR,
    ROL,
    ROR,
    // Jumps and calls
    JMP,
    JSR,
    RTS,
    // Branches
    BCC,
    BCS,
    BEQ,
    BMI,
    BNE,
    BPL,
    BVC,
    BVS,
    // Status flag changes
    CLC,
    CLD,
    CLI,
    CLV,
    SEC,
    SED,
    SEI,
    // System
    BRK,
    NOP,
    RTI,
}

impl Instruction {
    /// The instructions that work on the byte at an effective address, or
    /// jump to one.
    pub open spec fn uses_address(self) -> bool {
        match self {
            Instruction::LDA
            | Instruction::LDX
            | Instruction::LDY
            | Instruction::STA
            | Instruction::STX
            | Instruction::STY
            | Instruction::AND
            | Instruction::EOR
            | Instruction::ORA
            | Instruction::BIT
            | Instruction::ADC
            | Instruction::SBC
            | Instruction::CMP
            | Instruction::CPX
            | Instruction::CPY
            | Instruction::INC
            | Instruction::DEC
            | Instruction::JMP
            | Instruction::JSR => true,
            _ => false,
        }
    }

    /// The shifts and rotates, which work on the accumulator or on memory.
    pub open spec fn is_shift(self) -> bool {
        self is ASL || self is LSR || self is ROL || self is ROR
    }

    /// The conditional branches.
    pub open spec fn is_branch(self) -> bool {
        match self {
            Instruction::BCC
            | Instruction::BCS
            | Instruction::BEQ
            | Instruction::BMI
            | Instruction::BNE
            | Instruction::BPL
            | Instruction::BVC
            | Instruction::BVS => true,
            _ => false,
        }
    }

    /// The addressing modes in which the interpreter can carry out this
    /// instruction.
    pub open spec fn accepts(self, mode: AddressingMode) -> bool {
        if self.uses_address() {
            mode.resolves()
        } else if self.is_shift() {
            mode is Accumulator || mode.resolves()
        } else if self.is_branch() {
            mode is Relative
        } else {
            mode is Implicit
        }
    }
}

/// One row of the instruction table.
#[derive(Clone, Copy, Debug, PartialEq, Eq, Structural)]
pub struct OpCode {
    pub code: u8,
    pub mnemonic: Instruction,
    /// Length of the instruction in bytes, opcode included.
    pub len: u8,
    /// Base cycle count, without the penalties for page crossings and taken
    /// branches.
    pub cycles: u8,
    pub mode: AddressingMode,
}

impl OpCode {
    pub fn new(code: u8, mnemonic: Instruction, len: u8, cycles: u8, mode: AddressingMode) -> (op:
        OpCode)
        ensures
            op == (OpCode { code, mnemonic, len, cycles, mode }),
    {
        OpCode { code, mnemonic, len, cycles, mode }
    }

    /// This value is the row that the table holds for its opcode byte.
    pub open spec fn in_table(self) -> bool {
        descriptor(self.code) == Some(self)
    }
}

/// A table row, as the table hands it out.
pub open spec fn entry(
    code: u8,
    mnemonic: Instruction,
    len: u8,
    cycles: u8,
    mode: AddressingMode,
) -> Option<OpCode> {
    Some(OpCode { code, mnemonic, len, cycles, mode })
}

/// The instruction table: the row of each of the 151 documented opcode
/// bytes, and `None` for every other byte.
#[verifier::opaque]
pub open spec fn descriptor(code: u8) -> Option<OpCode> {
    match code {
        0x00 => entry(0x00, Instruction::BRK, 1, 7, AddressingMode::Implicit),
        0x01 => entry(0x01, Instruction::ORA, 2, 6, AddressingMode::IndirectX),
        0x05 => entry(0x05, Instruction::ORA, 2, 3, AddressingMode::ZeroPage),
        0x06 => entry(0x06, Instruction::ASL, 2, 5, AddressingMode::ZeroPage),
        0x08 => entry(0x08, Instruction::PHP, 1, 3, AddressingMode::Implicit),
        0x09 => entry(0x09, Instruction::ORA, 2, 2, AddressingMode::Immediate),
        0x0A => entry(0x0A, Instruction::ASL, 1, 2, AddressingMode::Accumulator),
        0x0D => entry(0x0D, Instruction::ORA, 3, 4, AddressingMode::Absolute),
        0x0E => entry(0x0E, Instruction::ASL, 3, 6, AddressingMode::Absolute),
        0x10 => entry(0x10, Instruction::BPL, 2, 2, AddressingMode::Relative),
        0x11 => entry(0x11, Instruction::ORA, 2, 5, AddressingMode::IndirectY),
        0x15 => entry(0x15, Instruction::ORA, 2, 4, AddressingMode::ZeroPageX),
        0x16 => entry(0x16, Instruction::ASL, 2, 6, AddressingMode::ZeroPageX),
        0x18 => entry(0x18, Instruction::CLC, 1, 2, AddressingMode::Implicit),
        0x19 => entry(0x19, Instruction::ORA, 3, 4, AddressingMode::AbsoluteY),
        0x1D => entry(0x1D, Instruction::ORA, 3, 4, AddressingMode::AbsoluteX),
        0x1E => entry(0x1E, Instruction::ASL, 3, 7, AddressingMode::AbsoluteX),
        0x20 => entry(0x20, Instruction::JSR, 3, 6, AddressingMode::Absolute),
        0x21 => entry(0x21, Instruction::AND, 2, 6, AddressingMode::IndirectX),
        0x24 => entry(0x24, Instruction::BIT, 2, 3, AddressingMode::ZeroPage),
        0x25 => entry(0x25, Instruction::AND, 2, 3, AddressingMode::ZeroPage),
        0x26 => entry(0x26, Instruction::ROL, 2, 5, AddressingMode::ZeroPage),
        0x28 => entry(0x28, Instruction::PLP, 1, 4, AddressingMode::Implicit),
        0x29 => entry(0x29, Instruction::AND, 2, 2, AddressingMode::Immediate),
        0x2A => entry(0x2A, Instruction::ROL, 1, 2, AddressingMode::Accumulator),
        0x2C => entry(0x2C, Instruction::BIT, 3, 4, AddressingMode::Absolute),
        0x2D => entry(0x2D, Instruction::AND, 3, 4, AddressingMode::Absolute),
        0x2E => entry(0x2E, Instruction::ROL, 3, 6, AddressingMode::Absolute),
        0x30 => entry(0x30, Instruction::BMI, 2, 2, AddressingMode::Relative),
        0x31 => entry(0x31, Instruction::AND, 2, 5, AddressingMode::IndirectY),
        0x35 => entry(0x35, Instruction::AND, 2, 4, AddressingMode::ZeroPageX),
        0x36 => entry(0x36, Instruction::ROL, 2, 6, AddressingMode::ZeroPageX),
        0x38 => entry(0x38, Instruction::SEC, 1, 2, AddressingMode::Implicit),
        0x39 => entry(0x39, Instruction::AND, 3, 4, AddressingMode::AbsoluteY),
        0x3D => entry(0x3D, Instruction::AND, 3, 4, AddressingMode::AbsoluteX),
        0x3E => entry(0x3E, Instruction::ROL, 3, 7, AddressingMode::AbsoluteX),
        0x40 => entry(0x40, Instruction::RTI, 1, 6, AddressingMode::Implicit),
        0x41 => entry(0x41, Instruction::EOR, 2, 6, AddressingMode::IndirectX),
        0x45 => entry(0x45, Instruction::EOR, 2, 3, AddressingMode::ZeroPage),
        0x46 => entry(0x46, Instruction::LSR, 2, 5, AddressingMode::ZeroPage),
        0x48 => entry(0x48, Instruction::PHA, 1, 3, AddressingMode::Implicit),
        0x49 => entry(0x49, Instruction::EOR, 2, 2, AddressingMode::Immediate),
        0x4A => entry(0x4A, Instruction::LSR, 1, 2, AddressingMode::Accumulator),
        0x4C => entry(0x4C, Instruction::JMP, 3, 3, AddressingMode::Absolute),
        0x4D => entry(0x4D, Instruction::EOR, 3, 4, AddressingMode::Absolute),
        0x4E => entry(0x4E, Instruction::LSR, 3, 6, AddressingMode::Absolute),
        0x50 => entry(0x50, Instruction::BVC, 2, 2, AddressingMode::Relative),
        0x51 => entry(0x51, Instruction::EOR, 2, 5, AddressingMode::IndirectY),
        0x55 => entry(0x55, Instruction::EOR, 2, 4, AddressingMode::ZeroPageX),
        0x56 => entry(0x56, Instruction::LSR, 2, 6, AddressingMode::ZeroPageX),
        0x58 => entry(0x58, Instruction::CLI, 1, 2, AddressingMode::Implicit),
        0x59 => entry(0x59, Instruction::EOR, 3, 4, AddressingMode::AbsoluteY),
        0x5D => entry(0x5D, Instruction::EOR, 3, 4, AddressingMode::AbsoluteX),
        0x5E => entry(0x5E, Instruction::LSR, 3, 7, AddressingMode::AbsoluteX),
        0x60 => entry(0x60, Instruction::RTS, 1, 6, AddressingMode::Implicit),
        0x61 => entry(0x61, Instruction::ADC, 2, 6, AddressingMode::IndirectX),
        0x65 => entry(0x65, Instruction::ADC, 2, 3, AddressingMode::ZeroPage),
        0x66 => entry(0x66, Instruction::ROR, 2, 5, AddressingMode::ZeroPage),
        0x68 => entry(0x68, Instruction::PLA, 1, 4, AddressingMode::Implicit),
        0x69 => entry(0x69, Instruction::ADC, 2, 2, AddressingMode::Immediate),
        0x6A => entry(0x6A, Instruction::ROR, 1, 2, AddressingMode::Accumulator),
        0x6C => entry(0x6C, Instruction::JMP, 3, 5, AddressingMode::Indirect),
        0x6D => entry(0x6D, Instruction::ADC, 3, 4, AddressingMode::Absolute),
        0x6E => entry(0x6E, Instruction::ROR, 3, 6, AddressingMode::Absolute),
        0x70 => entry(0x70, Instruction::BVS, 2, 2, AddressingMode::Relative),
        0x71 => entry(0x71, Instruction::ADC, 2, 5, AddressingMode::IndirectY),
        0x75 => entry(0x75, Instruction::ADC, 2, 4, AddressingMode::ZeroPageX),
        0x76 => entry(0x76, Instruction::ROR, 2, 6, AddressingMode::ZeroPageX),
        0x78 => entry(0x78, Instruction::SEI, 1, 2, AddressingMode::Implicit),
        0x79 => entry(0x79, Instruction::ADC, 3, 4, AddressingMode::AbsoluteY),
        0x7D => entry(0x7D, Instruction::ADC, 3, 4, AddressingMode::AbsoluteX),
        0x7E => entry(0x7E, Instruction::ROR, 3, 7, AddressingMode::AbsoluteX),
        0x81 => entry(0x81, Instruction::STA, 2, 6, AddressingMode::IndirectX),
        0x84 => entry(0x84, Instruction::STY, 2, 3, AddressingMode::ZeroPage),
        0x85 => entry(0x85, Instruction::STA, 2, 3, AddressingMode::ZeroPage),
        0x86 => entry(0x86, Instruction::STX, 2, 3, AddressingMode::ZeroPage),
        0x88 => entry(0x88, Instruction::DEY, 1, 2, AddressingMode::Implicit),
        0x8A => entry(0x8A, Instruction::TXA, 1, 2, AddressingMode::Implicit),
        0x8C => entry(0x8C, Instruction::STY, 3, 4, AddressingMode::Absolute),
        0x8D => entry(0x8D, Instruction::STA, 3, 4, AddressingMode::Absolute),
        0x8E => entry(0x8E, Instruction::STX, 3, 4, AddressingMode::Absolute),
        0x90 => entry(0x90, Instruction::BCC, 2, 2, AddressingMode::Relative),
        0x91 => entry(0x91, Instruction::STA, 2, 6, AddressingMode::IndirectY),
        0x94 => entry(0x94, Instruction::STY, 2, 4, AddressingMode::ZeroPageX),
        0x95 => entry(0x95, Instruction::STA, 2, 4, AddressingMode::ZeroPageX),
        0x96 => entry(0x96, Instruction::STX, 2, 4, AddressingMode::ZeroPageY),
        0x98 => entry(0x98, Instruction::TYA, 1, 2, AddressingMode::Implicit),
        0x99 => entry(0x99, Instruction::STA, 3, 5, AddressingMode::AbsoluteY),
        0x9A => entry(0x9A, Instruction::TXS, 1, 2, AddressingMode::Implicit),
        0x9D => entry(0x9D, Instruction::STA, 3, 5, AddressingMode::AbsoluteX),
        0xA0 => entry(0xA0, Instruction::LDY, 2, 2, AddressingMode::Immediate),
        0xA1 => entry(0xA1, Instruction::LDA, 2, 6, AddressingMode::IndirectX),
        0xA2 => entry(0xA2, Instruction::LDX, 2, 2, AddressingMode::Immediate),
        0xA4 => entry(0xA4, Instruction::LDY, 2, 3, AddressingMode::ZeroPage),
        0xA5 => entry(0xA5, Instruction::LDA, 2, 3, AddressingMode::ZeroPage),
        0xA6 => entry(0xA6, Instruction::LDX, 2, 3, AddressingMode::ZeroPage),
        0xA8 => entry(0xA8, Instruction::TAY, 1, 2, AddressingMode::Implicit),
        0xA9 => entry(0xA9, Instruction::LDA, 2, 2, AddressingMode::Immediate),
        0xAA => entry(0xAA, Instruction::TAX, 1, 2, AddressingMode::Implicit),
        0xAC => entry(0xAC, Instruction::LDY, 3, 4, AddressingMode::Absolute),
        0xAD => entry(0xAD, Instruction::LDA, 3, 4, AddressingMode::Absolute),
        0xAE => entry(0xAE, Instruction::LDX, 3, 4, AddressingMode::Absolute),
        0xB0 => entry(0xB0, Instruction::BCS, 2, 2, AddressingMode::Relative),
        0xB1 => entry(0xB1, Instruction::LDA, 2, 5, AddressingMode::IndirectY),
        0xB4 => entry(0xB4, Instruction::LDY, 2, 4, AddressingMode::ZeroPageX),
        0xB5 => entry(0xB5, Instruction::LDA, 2, 4, AddressingMode::ZeroPageX),
        0xB6 => entry(0xB6, Instruction::LDX, 2, 4, AddressingMode::ZeroPageY),
        0xB8 => entry(0xB8, Instruction::CLV, 1, 2, AddressingMode::Implicit),
        0xB9 => entry(0xB9, Instruction::LDA, 3, 4, AddressingMode::AbsoluteY),
        0xBA => entry(0xBA, Instruction::TSX, 1, 2, AddressingMode::Implicit),
        0xBC => entry(0xBC, Instruction::LDY, 3, 4, AddressingMode::AbsoluteX),
        0xBD => entry(0xBD, Instruction::LDA, 3, 4, AddressingMode::AbsoluteX),
        0xBE => entry(0xBE, Instruction::LDX, 3, 4, AddressingMode::AbsoluteY),
        0xC0 => entry(0xC0, Instruction::CPY, 2, 2, AddressingMode::Immediate),
        0xC1 => entry(0xC1, Instruction::CMP, 2, 6, AddressingMode::IndirectX),
        0xC4 => entry(0xC4, Instruction::CPY, 2, 3, AddressingMode::ZeroPage),
        0xC5 => entry(0xC5, Instruction::CMP, 2, 3, AddressingMode::ZeroPage),
        0xC6 => entry(0xC6, Instruction::DEC, 2, 5, AddressingMode::ZeroPage),
        0xC8 => entry(0xC8, Instruction::INY, 1, 2, AddressingMode::Implicit),
        0xC9 => entry(0xC9, Instruction::CMP, 2, 2, AddressingMode::Immediate),
        0xCA => entry(0xCA, Instruction::DEX, 1, 2, AddressingMode::Implicit),
        0xCC => entry(0xCC, Instruction::CPY, 3, 4, AddressingMode::Absolute),
        0xCD => entry(0xCD, Instruction::CMP, 3, 4, AddressingMode::Absolute),
        0xCE => entry(0xCE, Instruction::DEC, 3, 6, AddressingMode::Absolute),
        0xD0 => entry(0xD0, Instruction::BNE, 2, 2, AddressingMode::Relative),
        0xD1 => entry(0xD1, Instruction::CMP, 2, 5, AddressingMode::IndirectY),
        0xD5 => entry(0xD5, Instruction::CMP, 2, 4, AddressingMode::ZeroPageX),
        0xD6 => entry(0xD6, Instruction::DEC, 2, 6, AddressingMode::ZeroPageX),
        0xD8 => entry(0xD8, Instruction::CLD, 1, 2, AddressingMode::Implicit),
        0xD9 => entry(0xD9, Instruction::CMP, 3, 4, AddressingMode::AbsoluteY),
        0xDD => entry(0xDD, Instruction::CMP, 3, 4, AddressingMode::AbsoluteX),
        0xDE => entry(0xDE, Instruction::DEC, 3, 7, AddressingMode::AbsoluteX),
        0xE0 => entry(0xE0, Instruction::CPX, 2, 2, AddressingMode::Immediate),
        0xE1 => entry(0xE1, Instruction::SBC, 2, 6, AddressingMode::IndirectX),
        0xE4 => entry(0xE4, Instruction::CPX, 2, 3, AddressingMode::ZeroPage),
        0xE5 => entry(0xE5, Instruction::SBC, 2, 3, AddressingMode::ZeroPage),
        0xE6 => entry(0xE6, Instruction::INC, 2, 5, AddressingMode::ZeroPage),
        0xE8 => entry(0xE8, Instruction::INX, 1, 2, AddressingMode::Implicit),
        0xE9 => entry(0xE9, Instruction::SBC, 2, 2, AddressingMode::Immediate),
        0xEA => entry(0xEA, Instruction::NOP, 1, 2, AddressingMode::Implicit),
        0xEC => entry(0xEC, Instruction::CPX, 3, 4, AddressingMode::Absolute),
        0xED => entry(0xED, Instruction::SBC, 3, 4, AddressingMode::Absolute),
        0xEE => entry(0xEE, Instruction::INC, 3, 6, AddressingMode::Absolute),
        0xF0 => entry(0xF0, Instruction::BEQ, 2, 2, AddressingMode::Relative),
        0xF1 => entry(0xF1, Instruction::SBC, 2, 5, AddressingMode::IndirectY),
        0xF5 => entry(0xF5, Instruction::SBC, 2, 4, AddressingMode::ZeroPageX),
        0xF6 => entry(0xF6, Instruction::INC, 2, 6, AddressingMode::ZeroPageX),
        0xF8 => entry(0xF8, Instruction::SED, 1, 2, AddressingMode::Implicit),
        0xF9 => entry(0xF9, Instruction::SBC, 3, 4, AddressingMode::AbsoluteY),
        0xFD => entry(0xFD, Instruction::SBC, 3, 4, AddressingMode::AbsoluteX),
        0xFE => entry(0xFE, Instruction::INC, 3, 7, AddressingMode::AbsoluteX),
        _ => None,
    }
}

/// Looks an opcode byte up in the instruction table.
pub fn lookup(code: u8) -> (found: Option<OpCode>)
    ensures
        found == descriptor(code),
{
    reveal(descriptor);
    match code {
        0x00 => Some(OpCode::new(0x00, Instruction::BRK, 1, 7, AddressingMode::Implicit)),
        0x01 => Some(OpCode::new(0x01, Instruction::ORA, 2, 6, AddressingMode::IndirectX)),
        0x05 => Some(OpCode::new(0x05, Instruction::ORA, 2, 3, AddressingMode::ZeroPage)),
        0x06 => Some(OpCode::new(0x06, Instruction::ASL, 2, 5, AddressingMode::ZeroPage)),
        0x08 => Some(OpCode::new(0x08, Instruction::PHP, 1, 3, AddressingMode::Implicit)),
        0x09 => Some(OpCode::new(0x09, Instruction::ORA, 2, 2, AddressingMode::Immediate)),
        0x0A => Some(OpCode::new(0x0A, Instruction::ASL, 1, 2, AddressingMode::Accumulator)),
        0x0D => Some(OpCode::new(0x0D, Instruction::ORA, 3, 4, AddressingMode::Absolute)),
        0x0E => Some(OpCode::new(0x0E, Instruction::ASL, 3, 6, AddressingMode::Absolute)),
        0x10 => Some(OpCode::new(0x10, Instruction::BPL, 2, 2, AddressingMode::Relative)),
        0x11 => Some(OpCode::new(0x11, Instruction::ORA, 2, 5, AddressingMode::IndirectY)),
        0x15 => Some(OpCode::new(0x15, Instruction::ORA, 2, 4, AddressingMode::ZeroPageX)),
        0x16 => Some(OpCode::new(0x16, Instruction::ASL, 2, 6, AddressingMode::ZeroPageX)),
        0x18 => Some(OpCode::new(0x18, Instruction::CLC, 1, 2, AddressingMode::Implicit)),
        0x19 => Some(OpCode::new(0x19, Instruction::ORA, 3, 4, AddressingMode::AbsoluteY)),
        0x1D => Some(OpCode::new(0x1D, Instruction::ORA, 3, 4, AddressingMode::AbsoluteX)),
        0x1E => Some(OpCode::new(0x1E, Instruction::ASL, 3, 7, AddressingMode::AbsoluteX)),
        0x20 => Some(OpCode::new(0x20, Instruction::JSR, 3, 6, AddressingMode::Absolute)),
        0x21 => Some(OpCode::new(0x21, Instruction::AND, 2, 6, AddressingMode::IndirectX)),
        0x24 => Some(OpCode::new(0x24, Instruction::BIT, 2, 3, AddressingMode::ZeroPage)),
        0x25 => Some(OpCode::new(0x25, Instruction::AND, 2, 3, AddressingMode::ZeroPage)),
        0x26 => Some(OpCode::new(0x26, Instruction::ROL, 2, 5, AddressingMode::ZeroPage)),
        0x28 => Some(OpCode::new(0x28, Instruction::PLP, 1, 4, AddressingMode::Implicit)),
        0x29 => Some(OpCode::new(0x29, Instruction::AND, 2, 2, AddressingMode::Immediate)),
        0x2A => Some(OpCode::new(0x2A, Instruction::ROL, 1, 2, AddressingMode::Accumulator)),
        0x2C => Some(OpCode::new(0x2C, Instruction::BIT, 3, 4, AddressingMode::Absolute)),
        0x2D => Some(OpCode::new(0x2D, Instruction::AND, 3, 4, AddressingMode::Absolute)),
        0x2E => Some(OpCode::new(0x2E, Instruction::ROL, 3, 6, AddressingMode::Absolute)),
        0x30 => Some(OpCode::new(0x30, Instruction::BMI, 2, 2, AddressingMode::Relative)),
        0x31 => Some(OpCode::new(0x31, Instruction::AND, 2, 5, AddressingMode::IndirectY)),
        0x35 => Some(OpCode::new(0x35, Instruction::AND, 2, 4, AddressingMode::ZeroPageX)),
        0x36 => Some(OpCode::new(0x36, Instruction::ROL, 2, 6, AddressingMode::ZeroPageX)),
        0x38 => Some(OpCode::new(0x38, Instruction::SEC, 1, 2, AddressingMode::Implicit)),
        0x39 => Some(OpCode::new(0x39, Instruction::AND, 3, 4, AddressingMode::AbsoluteY)),
        0x3D => Some(OpCode::new(0x3D, Instruction::AND, 3, 4, AddressingMode::AbsoluteX)),
        0x3E => Some(OpCode::new(0x3E, Instruction::ROL, 3, 7, AddressingMode::AbsoluteX)),
        0x40 => Some(OpCode::new(0x40, Instruction::RTI, 1, 6, AddressingMode::Implicit)),
        0x41 => Some(OpCode::new(0x41, Instruction::EOR, 2, 6, AddressingMode::IndirectX)),
        0x45 => Some(OpCode::new(0x45, Instruction::EOR, 2, 3, AddressingMode::ZeroPage)),
        0x46 => Some(OpCode::new(0x46, Instruction::LSR, 2, 5, AddressingMode::ZeroPage)),
        0x48 => Some(OpCode::new(0x48, Instruction::PHA, 1, 3, AddressingMode::Implicit)),
        0x49 => Some(OpCode::new(0x49, Instruction::EOR, 2, 2, AddressingMode::Immediate)),
        0x4A => Some(OpCode::new(0x4A, Instruction::LSR, 1, 2, AddressingMode::Accumulator)),
        0x4C => Some(OpCode::new(0x4C, Instruction::JMP, 3, 3, AddressingMode::Absolute)),
        0x4D => Some(OpCode::new(0x4D, Instruction::EOR, 3, 4, AddressingMode::Absolute)),
        0x4E => Some(OpCode::new(0x4E, Instruction::LSR, 3, 6, AddressingMode::Absolute)),
        0x50 => Some(OpCode::new(0x50, Instruction::BVC, 2, 2, AddressingMode::Relative)),
        0x51 => Some(OpCode::new(0x51, Instruction::EOR, 2, 5, AddressingMode::IndirectY)),
        0x55 => Some(OpCode::new(0x55, Instruction::EOR, 2, 4, AddressingMode::ZeroPageX)),
        0x56 => Some(OpCode::new(0x56, Instruction::LSR, 2, 6, AddressingMode::ZeroPageX)),
        0x58 => Some(OpCode::new(0x58, Instruction::CLI, 1, 2, AddressingMode::Implicit)),
        0x59 => Some(OpCode::new(0x59, Instruction::EOR, 3, 4, AddressingMode::AbsoluteY)),
        0x5D => Some(OpCode::new(0x5D, Instruction::EOR, 3, 4, AddressingMode::AbsoluteX)),
        0x5E => Some(OpCode::new(0x5E, Instruction::LSR, 3, 7, AddressingMode::AbsoluteX)),
        0x60 => Some(OpCode::new(0x60, Instruction::RTS, 1, 6, AddressingMode::Implicit)),
        0x61 => Some(OpCode::new(0x61, Instruction::ADC, 2, 6, AddressingMode::IndirectX)),
        0x65 => Some(OpCode::new(0x65, Instruction::ADC, 2, 3, AddressingMode::ZeroPage)),
        0x66 => Some(OpCode::new(0x66, Instruction::ROR, 2, 5, AddressingMode::ZeroPage)),
        0x68 => Some(OpCode::new(0x68, Instruction::PLA, 1, 4, AddressingMode::Implicit)),
        0x69 => Some(OpCode::new(0x69, Instruction::ADC, 2, 2, AddressingMode::Immediate)),
        0x6A => Some(OpCode::new(0x6A, Instruction::ROR, 1, 2, AddressingMode::Accumulator)),
        0x6C => Some(OpCode::new(0x6C, Instruction::JMP, 3, 5, AddressingMode::Indirect)),
        0x6D => Some(OpCode::new(0x6D, Instruction::ADC, 3, 4, AddressingMode::Absolute)),
        0x6E => Some(OpCode::new(0x6E, Instruction::ROR, 3, 6, AddressingMode::Absolute)),
        0x70 => Some(OpCode::new(0x70, Instruction::BVS, 2, 2, AddressingMode::Relative)),
        0x71 => Some(OpCode::new(0x71, Instruction::ADC, 2, 5, AddressingMode::IndirectY)),
        0x75 => Some(OpCode::new(0x75, Instruction::ADC, 2, 4, AddressingMode::ZeroPageX)),
        0x76 => Some(OpCode::new(0x76, Instruction::ROR, 2, 6, AddressingMode::ZeroPageX)),
        0x78 => Some(OpCode::new(0x78, Instruction::SEI, 1, 2, AddressingMode::Implicit)),
        0x79 => Some(OpCode::new(0x79, Instruction::ADC, 3, 4, AddressingMode::AbsoluteY)),
        0x7D => Some(OpCode::new(0x7D, Instruction::ADC, 3, 4, AddressingMode::AbsoluteX)),
        0x7E => Some(OpCode::new(0x7E, Instruction::ROR, 3, 7, AddressingMode::AbsoluteX)),
        0x81 => Some(OpCode::new(0x81, Instruction::STA, 2, 6, AddressingMode::IndirectX)),
        0x84 => Some(OpCode::new(0x84, Instruction::STY, 2, 3, AddressingMode::ZeroPage)),
        0x85 => Some(OpCode::new(0x85, Instruction::STA, 2, 3, AddressingMode::ZeroPage)),
        0x86 => Some(OpCode::new(0x86, Instruction::STX, 2, 3, AddressingMode::ZeroPage)),
        0x88 => Some(OpCode::new(0x88, Instruction::DEY, 1, 2, AddressingMode::Implicit)),
        0x8A => Some(OpCode::new(0x8A, Instruction::TXA, 1, 2, AddressingMode::Implicit)),
        0x8C => Some(OpCode::new(0x8C, Instruction::STY, 3, 4, AddressingMode::Absolute)),
        0x8D => Some(OpCode::new(0x8D, Instruction::STA, 3, 4, AddressingMode::Absolute)),
        0x8E => Some(OpCode::new(0x8E, Instruction::STX, 3, 4, AddressingMode::Absolute)),
        0x90 => Some(OpCode::new(0x90, Instruction::BCC, 2, 2, AddressingMode::Relative)),
        0x91 => Some(OpCode::new(0x91, Instruction::STA, 2, 6, AddressingMode::IndirectY)),
        0x94 => Some(OpCode::new(0x94, Instruction::STY, 2, 4, AddressingMode::ZeroPageX)),
        0x95 => Some(OpCode::new(0x95, Instruction::STA, 2, 4, AddressingMode::ZeroPageX)),
        0x96 => Some(OpCode::new(0x96, Instruction::STX, 2, 4, AddressingMode::ZeroPageY)),
        0x98 => Some(OpCode::new(0x98, Instruction::TYA, 1, 2, AddressingMode::Implicit)),
        0x99 => Some(OpCode::new(0x99, Instruction::STA, 3, 5, AddressingMode::AbsoluteY)),
        0x9A => Some(OpCode::new(0x9A, Instruction::TXS, 1, 2, AddressingMode::Implicit)),
        0x9D => Some(OpCode::new(0x9D, Instruction::STA, 3, 5, AddressingMode::AbsoluteX)),
        0xA0 => Some(OpCode::new(0xA0, Instruction::LDY, 2, 2, AddressingMode::Immediate)),
        0xA1 => Some(OpCode::new(0xA1, Instruction::LDA, 2, 6, AddressingMode::IndirectX)),
        0xA2 => Some(OpCode::new(0xA2, Instruction::LDX, 2, 2, AddressingMode::Immediate)),
        0xA4 => Some(OpCode::new(0xA4, Instruction::LDY, 2, 3, AddressingMode::ZeroPage)),
        0xA5 => Some(OpCode::new(0xA5, Instruction::LDA, 2, 3, AddressingMode::ZeroPage)),
        0xA6 => Some(OpCode::new(0xA6, Instruction::LDX, 2, 3, AddressingMode::ZeroPage)),
        0xA8 => Some(OpCode::new(0xA8, Instruction::TAY, 1, 2, AddressingMode::Implicit)),
        0xA9 => Some(OpCode::new(0xA9, Instruction::LDA, 2, 2, AddressingMode::Immediate)),
        0xAA => Some(OpCode::new(0xAA, Instruction::TAX, 1, 2, AddressingMode::Implicit)),
        0xAC => Some(OpCode::new(0xAC, Instruction::LDY, 3, 4, AddressingMode::Absolute)),
        0xAD => Some(OpCode::new(0xAD, Instruction::LDA, 3, 4, AddressingMode::Absolute)),
        0xAE => Some(OpCode::new(0xAE, Instruction::LDX, 3, 4, AddressingMode::Absolute)),
        0xB0 => Some(OpCode::new(0xB0, Instruction::BCS, 2, 2, AddressingMode::Relative)),
        0xB1 => Some(OpCode::new(0xB1, Instruction::LDA, 2, 5, AddressingMode::IndirectY)),
        0xB4 => Some(OpCode::new(0xB4, Instruction::LDY, 2, 4, AddressingMode::ZeroPageX)),
        0xB5 => Some(OpCode::new(0xB5, Instruction::LDA, 2, 4, AddressingMode::ZeroPageX)),
        0xB6 => Some(OpCode::new(0xB6, Instruction::LDX, 2, 4, AddressingMode::ZeroPageY)),
        0xB8 => Some(OpCode::new(0xB8, Instruction::CLV, 1, 2, AddressingMode::Implicit)),
        0xB9 => Some(OpCode::new(0xB9, Instruction::LDA, 3, 4, AddressingMode::AbsoluteY)),
        0xBA => Some(OpCode::new(0xBA, Instruction::TSX, 1, 2, AddressingMode::Implicit)),
        0xBC => Some(OpCode::new(0xBC, Instruction::LDY, 3, 4, AddressingMode::AbsoluteX)),
        0xBD => Some(OpCode::new(0xBD, Instruction::LDA, 3, 4, AddressingMode::AbsoluteX)),
        0xBE => Some(OpCode::new(0xBE, Instruction::LDX, 3, 4, AddressingMode::AbsoluteY)),
        0xC0 => Some(OpCode::new(0xC0, Instruction::CPY, 2, 2, AddressingMode::Immediate)),
        0xC1 => Some(OpCode::new(0xC1, Instruction::CMP, 2, 6, AddressingMode::IndirectX)),
        0xC4 => Some(OpCode::new(0xC4, Instruction::CPY, 2, 3, AddressingMode::ZeroPage)),
        0xC5 => Some(OpCode::new(0xC5, Instruction::CMP, 2, 3, AddressingMode::ZeroPage)),
        0xC6 => Some(OpCode::new(0xC6, Instruction::DEC, 2, 5, AddressingMode::ZeroPage)),
        0xC8 => Some(OpCode::new(0xC8, Instruction::INY, 1, 2, AddressingMode::Implicit)),
        0xC9 => Some(OpCode::new(0xC9, Instruction::CMP, 2, 2, AddressingMode::Immediate)),
        0xCA => Some(OpCode::new(0xCA, Instruction::DEX, 1, 2, AddressingMode::Implicit)),
        0xCC => Some(OpCode::new(0xCC, Instruction::CPY, 3, 4, AddressingMode::Absolute)),
        0xCD => Some(OpCode::new(0xCD, Instruction::CMP, 3, 4, AddressingMode::Absolute)),
        0xCE => Some(OpCode::new(0xCE, Instruction::DEC, 3, 6, AddressingMode::Absolute)),
        0xD0 => Some(OpCode::new(0xD0, Instruction::BNE, 2, 2, AddressingMode::Relative)),
        0xD1 => Some(OpCode::new(0xD1, Instruction::CMP, 2, 5, AddressingMode::IndirectY)),
        0xD5 => Some(OpCode::new(0xD5, Instruction::CMP, 2, 4, AddressingMode::ZeroPageX)),
        0xD6 => Some(OpCode::new(0xD6, Instruction::DEC, 2, 6, AddressingMode::ZeroPageX)),
        0xD8 => Some(OpCode::new(0xD8, Instruction::CLD, 1, 2, AddressingMode::Implicit)),
        0xD9 => Some(OpCode::new(0xD9, Instruction::CMP, 3, 4, AddressingMode::AbsoluteY)),
        0xDD => Some(OpCode::new(0xDD, Instruction::CMP, 3, 4, AddressingMode::AbsoluteX)),
        0xDE => Some(OpCode::new(0xDE, Instruction::DEC, 3, 7, AddressingMode::AbsoluteX)),
        0xE0 => Some(OpCode::new(0xE0, Instruction::CPX, 2, 2, AddressingMode::Immediate)),
        0xE1 => Some(OpCode::new(0xE1, Instruction::SBC, 2, 6, AddressingMode::IndirectX)),
        0xE4 => Some(OpCode::new(0xE4, Instruction::CPX, 2, 3, AddressingMode::ZeroPage)),
        0xE5 => Some(OpCode::new(0xE5, Instruction::SBC, 2, 3, AddressingMode::ZeroPage)),
        0xE6 => Some(OpCode::new(0xE6, Instruction::INC, 2, 5, AddressingMode::ZeroPage)),
        0xE8 => Some(OpCode::new(0xE8, Instruction::INX, 1, 2, AddressingMode::Implicit)),
        0xE9 => Some(OpCode::new(0xE9, Instruction::SBC, 2, 2, AddressingMode::Immediate)),
        0xEA => Some(OpCode::new(0xEA, Instruction::NOP, 1, 2, AddressingMode::Implicit)),
        0xEC => Some(OpCode::new(0xEC, Instruction::CPX, 3, 4, AddressingMode::Absolute)),
        0xED => Some(OpCode::new(0xED, Instruction::SBC, 3, 4, AddressingMode::Absolute)),
        0xEE => Some(OpCode::new(0xEE, Instruction::INC, 3, 6, AddressingMode::Absolute)),
        0xF0 => Some(OpCode::new(0xF0, Instruction::BEQ, 2, 2, AddressingMode::Relative)),
        0xF1 => Some(OpCode::new(0xF1, Instruction::SBC, 2, 5, AddressingMode::IndirectY)),
        0xF5 => Some(OpCode::new(0xF5, Instruction::SBC, 2, 4, AddressingMode::ZeroPageX)),
        0xF6 => Some(OpCode::new(0xF6, Instruction::INC, 2, 6, AddressingMode::ZeroPageX)),
        0xF8 => Some(OpCode::new(0xF8, Instruction::SED, 1, 2, AddressingMode::Implicit)),
        0xF9 => Some(OpCode::new(0xF9, Instruction::SBC, 3, 4, AddressingMode::AbsoluteY)),
        0xFD => Some(OpCode::new(0xFD, Instruction::SBC, 3, 4, AddressingMode::AbsoluteX)),
        0xFE => Some(OpCode::new(0xFE, Instruction::INC, 3, 7, AddressingMode::AbsoluteX)),
        _ => None,
    }
}

/// Every row of the table is filed under its own opcode byte, has the length
/// that its addressing mode implies, between one and three bytes, and pairs
/// its instruction with a mode in which that instruction can be carried out.
/// `BRK` has the opcode byte zero and no other.
pub proof fn lemma_rows_are_consistent(code: u8)
    ensures
        descriptor(code) matches Some(op) ==> {
            &&& op.code == code
            &&& op.in_table()
            &&& op.len == op.mode.instruction_length()
            &&& 1 <= op.len <= 3
            &&& op.mnemonic.accepts(op.mode)
            &&& op.mnemonic is BRK <==> code == 0x00
        },
{
    reveal(descriptor);
}

} // verus!

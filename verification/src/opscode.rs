use vstd::prelude::*;
use crate::opcodes::{descriptor, lookup, AddressingMode, Instruction, OpCode};

verus! {

/// A row of the instruction table with its mnemonic spelled out, as a
/// listing or a trace shows it.
#[derive(Clone, Copy, Debug)]
pub struct OpsCode {
    pub code: u8,
    pub mnemonic: &'static str,
    pub len: u8,
    pub cycles: u8,
    pub mode: AddressingMode,
}

/// The three letters that name an instruction.
pub open spec fn mnemonic_text(instruction: Instruction) -> Seq<char> {
    match instruction {
        Instruction::LDA => "LDA"@,
        Instruction::LDX => "LDX"@,
        Instruction::LDY => "LDY"@,
        Instruction::STA => "STA"@,
        Instruction::STX => "STX"@,
        Instruction::STY => "STY"@,
        Instruction::TAX => "TAX"@,
        Instruction::TAY => "TAY"@,
        Instruction::TXA => "TXA"@,
        Instruction::TYA => "TYA"@,
        Instruction::TSX => "TSX"@,
        Instruction::TXS => "TXS"@,
        Instruction::PHA => "PHA"@,
        Instruction::PHP => "PHP"@,
        Instruction::PLA => "PLA"@,
        Instruction::PLP => "PLP"@,
        Instruction::AND => "AND"@,
        Instruction::EOR => "EOR"@,
        Instruction::ORA => "ORA"@,
        Instruction::BIT => "BIT"@,
        Instruction::ADC => "ADC"@,
        Instruction::SBC => "SBC"@,
        Instruction::CMP => "CMP"@,
        Instruction::CPX => "CPX"@,
        Instruction::CPY => "CPY"@,
        Instruction::INC => "INC"@,
        Instruction::INX => "INX"@,
        Instruction::INY => "INY"@,
        Instruction::DEC => "DEC"@,
        Instruction::DEX => "DEX"@,
        Instruction::DEY => "DEY"@,
        Instruction::ASL => "ASL"@,
        Instruction::LSR => "LSR"@,
        Instruction::ROL => "ROL"@,
        Instruction::ROR => "ROR"@,
        Instruction::JMP => "JMP"@,
        Instruction::JSR => "JSR"@,
        Instruction::RTS => "RTS"@,
        Instruction::BCC => "BCC"@,
        Instruction::BCS => "BCS"@,
        Instruction::BEQ => "BEQ"@,
        Instruction::BMI => "BMI"@,
        Instruction::BNE => "BNE"@,
        Instruction::BPL => "BPL"@,
        Instruction::BVC => "BVC"@,
        Instruction::BVS => "BVS"@,
        Instruction::CLC => "CLC"@,
        Instruction::CLD => "CLD"@,
        Instruction::CLI => "CLI"@,
        Instruction::CLV => "CLV"@,
        Instruction::SEC => "SEC"@,
        Instruction::SED => "SED"@,
        Instruction::SEI => "SEI"@,
        Instruction::BRK => "BRK"@,
        Instruction::NOP => "NOP"@,
        Instruction::RTI => "RTI"@,
    }
}

/// The three letters that name an instruction.
pub fn mnemonic_name(instruction: Instruction) -> (name: &'static str)
    ensures
        name@ == mnemonic_text(instruction),
{
    match instruction {
        Instruction::LDA => "LDA",
        Instruction::LDX => "LDX",
        Instruction::LDY => "LDY",
        Instruction::STA => "STA",
        Instruction::STX => "STX",
        Instruction::STY => "STY",
        Instruction::TAX => "TAX",
        Instruction::TAY => "TAY",
        Instruction::TXA => "TXA",
        Instruction::TYA => "TYA",
        Instruction::TSX => "TSX",
        Instruction::TXS => "TXS",
        Instruction::PHA => "PHA",
        Instruction::PHP => "PHP",
        Instruction::PLA => "PLA",
        Instruction::PLP => "PLP",
        Instruction::AND => "AND",
        Instruction::EOR => "EOR",
        Instruction::ORA => "ORA",
        Instruction::BIT => "BIT",
        Instruction::ADC => "ADC",
        Instruction::SBC => "SBC",
        Instruction::CMP => "CMP",
        Instruction::CPX => "CPX",
        Instruction::CPY => "CPY",
        Instruction::INC => "INC",
        Instruction::INX => "INX",
        Instruction::INY => "INY",
        Instruction::DEC => "DEC",
        Instruction::DEX => "DEX",
        Instruction::DEY => "DEY",
        Instruction::ASL => "ASL",
        Instruction::LSR => "LSR",
        Instruction::ROL => "ROL",
        Instruction::ROR => "ROR",
        Instruction::JMP => "JMP",
        Instruction::JSR => "JSR",
        Instruction::RTS => "RTS",
        Instruction::BCC => "BCC",
        Instruction::BCS => "BCS",
        Instruction::BEQ => "BEQ",
        Instruction::BMI => "BMI",
        Instruction::BNE => "BNE",
        Instruction::BPL => "BPL",
        Instruction::BVC => "BVC",
        Instruction::BVS => "BVS",
        Instruction::CLC => "CLC",
        Instruction::CLD => "CLD",
        Instruction::CLI => "CLI",
        Instruction::CLV => "CLV",
        Instruction::SEC => "SEC",
        Instruction::SED => "SED",
        Instruction::SEI => "SEI",
        Instruction::BRK => "BRK",
        Instruction::NOP => "NOP",
        Instruction::RTI => "RTI",
    }
}

impl OpsCode {
    pub fn new(code: u8, mnemonic: &'static str, len: u8, cycles: u8, mode: AddressingMode) -> (op:
        OpsCode)
        ensures
            op.code == code,
            op.mnemonic@ == mnemonic@,
            op.len == len,
            op.cycles == cycles,
            op.mode == mode,
    {
        OpsCode { code, mnemonic, len, cycles, mode }
    }

    /// This row spells out the table row `op`.
    pub open spec fn spells(self, op: OpCode) -> bool {
        &&& self.code == op.code
        &&& self.mnemonic@ == mnemonic_text(op.mnemonic)
        &&& self.len == op.len
        &&& self.cycles == op.cycles
        &&& self.mode == op.mode
    }

    /// The table row of an opcode byte with its mnemonic spelled out, or
    /// `None` for a byte that is no opcode.
    pub fn describe(code: u8) -> (found: Option<OpsCode>)
        ensures
            descriptor(code) is None <==> found is None,
            descriptor(code) matches Some(op) ==> found matches Some(row) && row.spells(op),
    {
        match lookup(code) {
            None => None,
            Some(op) => Some(
                OpsCode::new(op.code, mnemonic_name(op.mnemonic), op.len, op.cycles, op.mode),
            ),
        }
    }
}

} // verus!

use vstd::prelude::*;
use crate::flags::{flag_set, lemma_bit_seven, with_flag, CpuFlags};
use crate::machine::{wrap16, wrap8, PROGRAM_BASE, STACK_RESET};

verus! {

/// Status register at power-on: interrupts disabled, B and the unused bit
/// set.
pub const STATUS_POWER_ON: u8 = 0b0011_0100;

/// What a register file holds.
pub struct RegisterFile {
    pub a: u8,
    pub x: u8,
    pub y: u8,
    pub sp: u8,
    pub pc: u16,
    pub p: u8,
}

impl RegisterFile {
    /// The same registers with one status flag switched.
    pub open spec fn with_flag(self, flag: u8, on: bool) -> RegisterFile {
        RegisterFile { p: with_flag(self.p, flag, on), ..self }
    }
}

/// The register file of the CPU.
#[allow(non_snake_case)]
#[derive(Debug)]
pub struct Registers {
    A: u8,
    X: u8,
    Y: u8,
    SP: u8,
    PC: u16,
    P: CpuFlags,
}

/// Access to a register file. Every setter hands the file back, so that
/// calls can be chained.
#[allow(non_snake_case)]
pub trait CpuRegisters {
    /// The registers as plain values.
    spec fn file(&self) -> RegisterFile;

    fn get_PC(&self) -> (value: u16)
        ensures
            value == self.file().pc,
    ;

    fn get_A(&self) -> (value: u8)
        ensures
            value == self.file().a,
    ;

    fn get_X(&self) -> (value: u8)
        ensures
            value == self.file().x,
    ;

    fn get_Y(&self) -> (value: u8)
        ensures
            value == self.file().y,
    ;

    fn get_SP(&self) -> (value: u8)
        ensures
            value == self.file().sp,
    ;

    fn get_P(&self) -> (value: u8)
        ensures
            value == self.file().p,
    ;

    fn set_A(&mut self, v: u8) -> (ret: &mut Self)
        ensures
            ret.file() == (RegisterFile { a: v, ..old(self).file() }),
            final(self).file() == final(ret).file(),
    ;

    fn set_X(&mut self, v: u8) -> (ret: &mut Self)
        ensures
            ret.file() == (RegisterFile { x: v, ..old(self).file() }),
            final(self).file() == final(ret).file(),
    ;

    fn set_Y(&mut self, v: u8) -> (ret: &mut Self)
        ensures
            ret.file() == (RegisterFile { y: v, ..old(self).file() }),
            final(self).file() == final(ret).file(),
    ;

    fn set_PC(&mut self, v: u16) -> (ret: &mut Self)
        ensures
            ret.file() == (RegisterFile { pc: v, ..old(self).file() }),
            final(self).file() == final(ret).file(),
    ;

    fn set_P(&mut self, v: u8) -> (ret: &mut Self)
        ensures
            ret.file() == (RegisterFile { p: v, ..old(self).file() }),
            final(self).file() == final(ret).file(),
    ;

    fn set_SP(&mut self, v: u8) -> (ret: &mut Self)
        ensures
            ret.file() == (RegisterFile { sp: v, ..old(self).file() }),
            final(self).file() == final(ret).file(),
    ;

    fn set_negative(&mut self, v: bool) -> (ret: &mut Self)
        ensures
            ret.file() == old(self).file().with_flag(CpuFlags::NEGATIV, v),
            final(self).file() == final(ret).file(),
    ;

    fn set_overflow(&mut self, v: bool) -> (ret: &mut Self)
        ensures
            ret.file() == old(self).file().with_flag(CpuFlags::OVERFLOW, v),
            final(self).file() == final(ret).file(),
    ;

    fn set_reserved(&mut self, v: bool) -> (ret: &mut Self)
        ensures
            ret.file() == old(self).file().with_flag(CpuFlags::RESERVED, v),
            final(self).file() == final(ret).file(),
    ;

    fn set_break(&mut self, v: bool) -> (ret: &mut Self)
        ensures
            ret.file() == old(self).file().with_flag(CpuFlags::BREAK, v),
            final(self).file() == final(ret).file(),
    ;

    fn set_interrupt(&mut self, v: bool) -> (ret: &mut Self)
        ensures
            ret.file() == old(self).file().with_flag(CpuFlags::INTERRUPT_DISABLE, v),
            final(self).file() == final(ret).file(),
    ;

    fn set_zero(&mut self, v: bool) -> (ret: &mut Self)
        ensures
            ret.file() == old(self).file().with_flag(CpuFlags::ZERO, v),
            final(self).file() == final(ret).file(),
    ;

    fn set_decimal(&mut self, v: bool) -> (ret: &mut Self)
        ensures
            ret.file() == old(self).file().with_flag(CpuFlags::DECIMAL_MODE, v),
            final(self).file() == final(ret).file(),
    ;

    fn set_carry(&mut self, v: bool) -> (ret: &mut Self)
        ensures
            ret.file() == old(self).file().with_flag(CpuFlags::CARRY, v),
            final(self).file() == final(ret).file(),
    ;

    fn get_negative(&self) -> (on: bool)
        ensures
            on == flag_set(self.file().p, CpuFlags::NEGATIV),
    ;

    fn get_overflow(&self) -> (on: bool)
        ensures
            on == flag_set(self.file().p, CpuFlags::OVERFLOW),
    ;

    fn get_reserved(&self) -> (on: bool)
        ensures
            on == flag_set(self.file().p, CpuFlags::RESERVED),
    ;

    fn get_break(&self) -> (on: bool)
        ensures
            on == flag_set(self.file().p, CpuFlags::BREAK),
    ;

    fn get_interrupt(&self) -> (on: bool)
        ensures
            on == flag_set(self.file().p, CpuFlags::INTERRUPT_DISABLE),
    ;

    fn get_zero(&self) -> (on: bool)
        ensures
            on == flag_set(self.file().p, CpuFlags::ZERO),
    ;

    fn get_decimal(&self) -> (on: bool)
        ensures
            on == flag_set(self.file().p, CpuFlags::DECIMAL_MODE),
    ;

    fn get_carry(&self) -> (on: bool)
        ensures
            on == flag_set(self.file().p, CpuFlags::CARRY),
    ;

    /// N follows bit 7 of `v`.
    fn update_negative_by(&mut self, v: u8) -> (ret: &mut Self)
        ensures
            ret.file() == old(self).file().with_flag(CpuFlags::NEGATIV, v >= 0x80),
            final(self).file() == final(ret).file(),
    ;

    /// Z tells whether `v` is zero.
    fn update_zero_by(&mut self, v: u8) -> (ret: &mut Self)
        ensures
            ret.file() == old(self).file().with_flag(CpuFlags::ZERO, v == 0),
            final(self).file() == final(ret).file(),
    ;

    /// The stack pointer moves up by one and wraps at eight bits.
    fn inc_SP(&mut self) -> (ret: &mut Self)
        ensures
            ret.file() == (RegisterFile {
                sp: wrap8(old(self).file().sp + 1),
                ..old(self).file()
            }),
            final(self).file() == final(ret).file(),
    ;

    /// The stack pointer moves down by one and wraps at eight bits.
    fn dec_SP(&mut self) -> (ret: &mut Self)
        ensures
            ret.file() == (RegisterFile {
                sp: wrap8(old(self).file().sp - 1),
                ..old(self).file()
            }),
            final(self).file() == final(ret).file(),
    ;

    /// The program counter moves up by one and wraps at sixteen bits.
    fn inc_PC(&mut self) -> (ret: &mut Self)
        ensures
            ret.file() == (RegisterFile {
                pc: wrap16(old(self).file().pc + 1),
                ..old(self).file()
            }),
            final(self).file() == final(ret).file(),
    ;

    /// The program counter moves down by one and wraps at sixteen bits.
    fn dec_PC(&mut self) -> (ret: &mut Self)
        ensures
            ret.file() == (RegisterFile {
                pc: wrap16(old(self).file().pc - 1),
                ..old(self).file()
            }),
            final(self).file() == final(ret).file(),
    ;
}

impl Registers {
    /// The register file at power-on: A, X and Y clear, the program counter
    /// at the start of the program ROM, the stack pointer at `0xFD`.
    pub fn new() -> (registers: Registers)
        ensures
            registers.file() == (RegisterFile {
                a: 0,
                x: 0,
                y: 0,
                sp: STACK_RESET,
                pc: PROGRAM_BASE,
                p: STATUS_POWER_ON,
            }),
    {
        Registers {
            A: 0,
            X: 0,
            Y: 0,
            PC: PROGRAM_BASE,
            SP: STACK_RESET,
            P: CpuFlags::from_bits_truncate(STATUS_POWER_ON),
        }
    }
}

#[allow(non_snake_case)]
impl CpuRegisters for Registers {
    closed spec fn file(&self) -> RegisterFile {
        RegisterFile {
            a: self.A,
            x: self.X,
            y: self.Y,
            sp: self.SP,
            pc: self.PC,
            p: self.P.bits,
        }
    }

    fn get_PC(&self) -> (value: u16) {
        self.PC
    }

    fn get_A(&self) -> (value: u8) {
        self.A
    }

    fn get_X(&self) -> (value: u8) {
        self.X
    }

    fn get_Y(&self) -> (value: u8) {
        self.Y
    }

    fn get_SP(&self) -> (value: u8) {
        self.SP
    }

    fn get_P(&self) -> (value: u8) {
        self.P.bits()
    }

    fn set_A(&mut self, v: u8) -> (ret: &mut Self) {
        self.A = v;
        self
    }

    fn set_X(&mut self, v: u8) -> (ret: &mut Self) {
        self.X = v;
        self
    }

    fn set_Y(&mut self, v: u8) -> (ret: &mut Self) {
        self.Y = v;
        self
    }

    fn set_PC(&mut self, v: u16) -> (ret: &mut Self) {
        self.PC = v;
        self
    }

    fn set_P(&mut self, v: u8) -> (ret: &mut Self) {
        self.P = CpuFlags::from_bits_truncate(v);
        self
    }

    fn set_SP(&mut self, v: u8) -> (ret: &mut Self) {
        self.SP = v;
        self
    }

    fn set_negative(&mut self, v: bool) -> (ret: &mut Self) {
        self.P.set(CpuFlags::NEGATIV, v);
        self
    }

    fn set_overflow(&mut self, v: bool) -> (ret: &mut Self) {
        self.P.set(CpuFlags::OVERFLOW, v);
        self
    }

    fn set_reserved(&mut self, v: bool) -> (ret: &mut Self) {
        self.P.set(CpuFlags::RESERVED, v);
        self
    }

    fn set_break(&mut self, v: bool) -> (ret: &mut Self) {
        self.P.set(CpuFlags::BREAK, v);
        self
    }

    fn set_interrupt(&mut self, v: bool) -> (ret: &mut Self) {
        self.P.set(CpuFlags::INTERRUPT_DISABLE, v);
        self
    }

    fn set_zero(&mut self, v: bool) -> (ret: &mut Self) {
        self.P.set(CpuFlags::ZERO, v);
        self
    }

    fn set_decimal(&mut self, v: bool) -> (ret: &mut Self) {
        self.P.set(CpuFlags::DECIMAL_MODE, v);
        self
    }

    fn set_carry(&mut self, v: bool) -> (ret: &mut Self) {
        self.P.set(CpuFlags::CARRY, v);
        self
    }

    fn get_negative(&self) -> (on: bool) {
        self.P.contains(CpuFlags::NEGATIV)
    }

    fn get_overflow(&self) -> (on: bool) {
        self.P.contains(CpuFlags::OVERFLOW)
    }

    fn get_reserved(&self) -> (on: bool) {
        self.P.contains(CpuFlags::RESERVED)
    }

    fn get_break(&self) -> (on: bool) {
        self.P.contains(CpuFlags::BREAK)
    }

    fn get_interrupt(&self) -> (on: bool) {
        self.P.contains(CpuFlags::INTERRUPT_DISABLE)
    }

    fn get_zero(&self) -> (on: bool) {
        self.P.contains(CpuFlags::ZERO)
    }

    fn get_decimal(&self) -> (on: bool) {
        self.P.contains(CpuFlags::DECIMAL_MODE)
    }

    fn get_carry(&self) -> (on: bool) {
        self.P.contains(CpuFlags::CARRY)
    }

    fn update_negative_by(&mut self, v: u8) -> (ret: &mut Self) {
        proof {
            lemma_bit_seven(v);
        }
        self.set_negative(v & 0x80 == 0x80);
        self
    }

    fn update_zero_by(&mut self, v: u8) -> (ret: &mut Self) {
        self.set_zero(v == 0);
        self
    }

    fn inc_SP(&mut self) -> (ret: &mut Self) {
        self.SP = self.SP.wrapping_add(1);
        self
    }

    fn dec_SP(&mut self) -> (ret: &mut Self) {
        self.SP = self.SP.wrapping_sub(1);
        self
    }

    fn inc_PC(&mut self) -> (ret: &mut Self) {
        self.PC = self.PC.wrapping_add(1);
        self
    }

    fn dec_PC(&mut self) -> (ret: &mut Self) {
        self.PC = self.PC.wrapping_sub(1);
        self
    }
}

} // verus!

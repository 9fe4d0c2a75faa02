use vstd::prelude::*;
use crate::cpu::CPU;
use crate::flags::{
    flag_set, lemma_bit_seven, lemma_flag_written, lemma_zero_negative, with_zero_negative,
    zero_negative_reflect, CpuFlags,
};
use crate::machine::{
    add_with_carry, bit_test, branch, compare, execute, jump_to_subroutine, load_a, load_x,
    load_y, pull_a, pull_status, pushed_status, return_from_interrupt, return_from_subroutine,
    rotate_left, rotate_right, shift_input, shift_left, shift_output, shift_right, step_memory,
    store, subtract_with_carry, wrap8, State,
};
use crate::opcodes::{AddressingMode, Instruction, OpCode};

verus! {

/// What the shifts, the rotates and the complement do to a byte, as
/// arithmetic. `c` is a carry, zero or one.
proof fn lemma_byte_bits(v: u8, c: u8)
    by (bit_vector)
    requires
        c <= 1,
    ensures
        v << 1 == ((v * 2) % 0x100) as u8,
        v >> 1 == v / 2,
        (v << 1) | c == ((v * 2 + c) % 0x100) as u8,
        (v >> 1) | (c << 7) == v / 2 + 0x80 * c,
        (v & 1 == 1) == (v % 2 == 1),
        !v == 0xFF - v,
{
}

impl CPU {
    pub fn update_zero_flag(&mut self, last_operation: u8)
        ensures
            final(self)@ == old(self)@.with_status_flag(CpuFlags::ZERO, last_operation == 0),
            flag_set(final(self).flags.bits, CpuFlags::ZERO) == (last_operation == 0),
    {
        proof {
            lemma_flag_written(self.flags.bits, CpuFlags::ZERO, last_operation == 0);
        }
        if last_operation == 0 {
            self.flags.insert(CpuFlags::ZERO);
        } else {
            self.flags.remove(CpuFlags::ZERO);
        }
    }

    pub fn update_negative_flag(&mut self, last_operation: u8)
        ensures
            final(self)@ == old(self)@.with_status_flag(CpuFlags::NEGATIV, last_operation >= 0x80),
            flag_set(final(self).flags.bits, CpuFlags::NEGATIV) == (last_operation >= 0x80),
    {
        proof {
            lemma_bit_seven(last_operation);
            lemma_flag_written(self.flags.bits, CpuFlags::NEGATIV, last_operation >= 0x80);
        }
        if last_operation >> 7 == 1 {
            self.flags.insert(CpuFlags::NEGATIV)
        } else {
            self.flags.remove(CpuFlags::NEGATIV)
        }
    }

    /// The compound update that ends every instruction with a result: Z
    /// tells whether `result` is zero, N is its bit 7.
    pub fn update_zero_and_negative_flags(&mut self, result: u8)
        ensures
            final(self)@ == old(self)@.with_status(with_zero_negative(old(self)@.p, result)),
            zero_negative_reflect(final(self).flags.bits, result),
    {
        self.update_zero_flag(result);
        self.update_negative_flag(result);
        proof {
            lemma_zero_negative(old(self).flags.bits, result);
        }
    }

    fn set_register_a(&mut self, value: u8)
        ensures
            final(self)@ == old(self)@.result_a(value),
            zero_negative_reflect(final(self).flags.bits, final(self).register_a),
    {
        self.register_a = value;
        self.update_zero_and_negative_flags(value);
    }

    fn set_register_x(&mut self, value: u8)
        ensures
            final(self)@ == old(self)@.result_x(value),
            zero_negative_reflect(final(self).flags.bits, final(self).register_x),
    {
        self.register_x = value;
        self.update_zero_and_negative_flags(value);
    }

    fn set_register_y(&mut self, value: u8)
        ensures
            final(self)@ == old(self)@.result_y(value),
            zero_negative_reflect(final(self).flags.bits, final(self).register_y),
    {
        self.register_y = value;
        self.update_zero_and_negative_flags(value);
    }

    /// Reads the byte at the effective address.
    fn operand(&mut self, mode: &AddressingMode) -> (data: u8)
        requires
            mode.resolves(),
        ensures
            data == old(self)@.operand(*mode),
            final(self)@ == old(self)@,
    {
        let addr: u16 = self.get_operand_address(mode);
        self.mem_read(addr)
    }

    fn carry_in(&self) -> (c: u8)
        ensures
            c == self@.carry_bit(),
    {
        if self.flags.contains(CpuFlags::CARRY) {
            1
        } else {
            0
        }
    }

    pub fn lda(&mut self, mode: &AddressingMode)
        requires
            mode.resolves(),
        ensures
            final(self)@ == load_a(old(self)@, *mode),
            zero_negative_reflect(final(self).flags.bits, final(self).register_a),
    {
        let value: u8 = self.operand(mode);
        self.set_register_a(value);
    }

    pub fn ldx(&mut self, mode: &AddressingMode)
        requires
            mode.resolves(),
        ensures
            final(self)@ == load_x(old(self)@, *mode),
            zero_negative_reflect(final(self).flags.bits, final(self).register_x),
    {
        let value: u8 = self.operand(mode);
        self.set_register_x(value);
    }

    pub fn ldy(&mut self, mode: &AddressingMode)
        requires
            mode.resolves(),
        ensures
            final(self)@ == load_y(old(self)@, *mode),
            zero_negative_reflect(final(self).flags.bits, final(self).register_y),
    {
        let value: u8 = self.operand(mode);
        self.set_register_y(value);
    }

    fn store(&mut self, mode: &AddressingMode, value: u8)
        requires
            mode.resolves(),
        ensures
            final(self)@ == store(old(self)@, *mode, value),
    {
        let addr: u16 = self.get_operand_address(mode);
        self.mem_write(addr, value);
    }

    pub fn sta(&mut self, mode: &AddressingMode)
        requires
            mode.resolves(),
        ensures
            final(self)@ == store(old(self)@, *mode, old(self).register_a),
    {
        let value: u8 = self.register_a;
        self.store(mode, value);
    }

    pub fn stx(&mut self, mode: &AddressingMode)
        requires
            mode.resolves(),
        ensures
            final(self)@ == store(old(self)@, *mode, old(self).register_x),
    {
        let value: u8 = self.register_x;
        self.store(mode, value);
    }

    pub fn sty(&mut self, mode: &AddressingMode)
        requires
            mode.resolves(),
        ensures
            final(self)@ == store(old(self)@, *mode, old(self).register_y),
    {
        let value: u8 = self.register_y;
        self.store(mode, value);
    }

    pub fn tax(&mut self)
        ensures
            final(self)@ == old(self)@.result_x(old(self).register_a),
            zero_negative_reflect(final(self).flags.bits, final(self).register_x),
    {
        let value: u8 = self.register_a;
        self.set_register_x(value);
    }

    pub fn tay(&mut self)
        ensures
            final(self)@ == old(self)@.result_y(old(self).register_a),
            zero_negative_reflect(final(self).flags.bits, final(self).register_y),
    {
        let value: u8 = self.register_a;
        self.set_register_y(value);
    }

    pub fn txa(&mut self)
        ensures
            final(self)@ == old(self)@.result_a(old(self).register_x),
            zero_negative_reflect(final(self).flags.bits, final(self).register_a),
    {
        let value: u8 = self.register_x;
        self.set_register_a(value);
    }

    pub fn tya(&mut self)
        ensures
            final(self)@ == old(self)@.result_a(old(self).register_y),
            zero_negative_reflect(final(self).flags.bits, final(self).register_a),
    {
        let value: u8 = self.register_y;
        self.set_register_a(value);
    }

    pub fn tsx(&mut self)
        ensures
            final(self)@ == old(self)@.result_x(old(self).stack_pointer),
            zero_negative_reflect(final(self).flags.bits, final(self).register_x),
    {
        let value: u8 = self.stack_pointer;
        self.set_register_x(value);
    }

    pub fn txs(&mut self)
        ensures
            final(self)@ == (State { sp: old(self).register_x, ..old(self)@ }),
    {
        self.stack_pointer = self.register_x;
    }

    pub fn pha(&mut self)
        ensures
            final(self)@ == old(self)@.push(old(self).register_a),
    {
        let value: u8 = self.register_a;
        self.stack_push(value);
    }

    /// Pushes the status with B and the unused bit set; the register itself
    /// keeps its value.
    pub fn php(&mut self)
        ensures
            final(self)@ == old(self)@.push(pushed_status(old(self)@.p)),
    {
        let mut pushed: CpuFlags = self.flags;
        pushed.insert(CpuFlags::BREAK);
        pushed.insert(CpuFlags::RESERVED);
        self.stack_push(pushed.bits());
    }

    pub fn pla(&mut self)
        ensures
            final(self)@ == pull_a(old(self)@),
            zero_negative_reflect(final(self).flags.bits, final(self).register_a),
    {
        let value: u8 = self.stack_pop();
        self.set_register_a(value);
    }

    /// Pulls the status; B comes out clear and the unused bit set.
    pub fn plp(&mut self)
        ensures
            final(self)@ == pull_status(old(self)@),
    {
        let value: u8 = self.stack_pop();
        self.flags = CpuFlags::from_bits_truncate(value);
        self.flags.remove(CpuFlags::BREAK);
        self.flags.insert(CpuFlags::RESERVED);
    }

    pub fn and(&mut self, mode: &AddressingMode)
        requires
            mode.resolves(),
        ensures
            final(self)@ == old(self)@.result_a(old(self)@.a & old(self)@.operand(*mode)),
            zero_negative_reflect(final(self).flags.bits, final(self).register_a),
    {
        let data: u8 = self.operand(mode);
        let value: u8 = self.register_a & data;
        self.set_register_a(value);
    }

    pub fn eor(&mut self, mode: &AddressingMode)
        requires
            mode.resolves(),
        ensures
            final(self)@ == old(self)@.result_a(old(self)@.a ^ old(self)@.operand(*mode)),
            zero_negative_reflect(final(self).flags.bits, final(self).register_a),
    {
        let data: u8 = self.operand(mode);
        let value: u8 = self.register_a ^ data;
        self.set_register_a(value);
    }

    pub fn ora(&mut self, mode: &AddressingMode)
        requires
            mode.resolves(),
        ensures
            final(self)@ == old(self)@.result_a(old(self)@.a | old(self)@.operand(*mode)),
            zero_negative_reflect(final(self).flags.bits, final(self).register_a),
    {
        let data: u8 = self.operand(mode);
        let value: u8 = self.register_a | data;
        self.set_register_a(value);
    }

    pub fn bit(&mut self, mode: &AddressingMode)
        requires
            mode.resolves(),
        ensures
            final(self)@ == bit_test(old(self)@, old(self)@.operand(*mode)),
    {
        let data: u8 = self.operand(mode);
        let shared: u8 = self.register_a & data;
        self.flags.set(CpuFlags::ZERO, shared == 0);
        self.flags.set(CpuFlags::NEGATIV, data & 0x80 != 0);
        self.flags.set(CpuFlags::OVERFLOW, data & 0x40 != 0);
    }

    /// Adds `data` and the carry to A.
    pub fn add_to_register_a(&mut self, data: u8)
        ensures
            final(self)@ == add_with_carry(old(self)@, data),
            zero_negative_reflect(final(self).flags.bits, final(self).register_a),
    {
        let a: u8 = self.register_a;
        let sum: u16 = a as u16 + data as u16 + self.carry_in() as u16;
        let result: u8 = (sum % 0x100) as u8;
        self.flags.set(CpuFlags::CARRY, sum > 0xFF);
        self.flags.set(CpuFlags::OVERFLOW, (data ^ result) & (result ^ a) & 0x80 != 0);
        self.set_register_a(result);
    }

    pub fn adc(&mut self, mode: &AddressingMode)
        requires
            mode.resolves(),
        ensures
            final(self)@ == add_with_carry(old(self)@, old(self)@.operand(*mode)),
            zero_negative_reflect(final(self).flags.bits, final(self).register_a),
    {
        let data: u8 = self.operand(mode);
        self.add_to_register_a(data);
    }

    pub fn sbc(&mut self, mode: &AddressingMode)
        requires
            mode.resolves(),
        ensures
            final(self)@ == subtract_with_carry(old(self)@, old(self)@.operand(*mode)),
            zero_negative_reflect(final(self).flags.bits, final(self).register_a),
    {
        let data: u8 = self.operand(mode);
        proof {
            lemma_byte_bits(data, 0);
        }
        self.add_to_register_a(!data);
    }

    /// Compares the register value `register` with the operand: C tells
    /// that the operand is not above it, Z and N follow the difference.
    pub fn compare(&mut self, mode: &AddressingMode, register: u8)
        requires
            mode.resolves(),
        ensures
            final(self)@ == compare(old(self)@, register, old(self)@.operand(*mode)),
            flag_set(final(self).flags.bits, CpuFlags::CARRY) == (old(self)@.operand(*mode)
                <= register),
            zero_negative_reflect(
                final(self).flags.bits,
                wrap8(register - old(self)@.operand(*mode)),
            ),
    {
        let data: u8 = self.operand(mode);
        let difference: u8 = register.wrapping_sub(data);
        self.flags.set(CpuFlags::CARRY, data <= register);
        proof {
            lemma_flag_written(old(self).flags.bits, CpuFlags::CARRY, data <= register);
            lemma_zero_negative(self.flags.bits, difference);
        }
        self.update_zero_and_negative_flags(difference);
    }

    fn step_memory(&mut self, mode: &AddressingMode, up: bool)
        requires
            mode.resolves(),
        ensures
            final(self)@ == step_memory(
                old(self)@,
                *mode,
                if up {
                    1
                } else {
                    -1
                },
            ),
    {
        let addr: u16 = self.get_operand_address(mode);
        let data: u8 = self.mem_read(addr);
        let value: u8 = if up {
            data.wrapping_add(1)
        } else {
            data.wrapping_sub(1)
        };
        self.mem_write(addr, value);
        self.update_zero_and_negative_flags(value);
    }

    pub fn inc(&mut self, mode: &AddressingMode)
        requires
            mode.resolves(),
        ensures
            final(self)@ == step_memory(old(self)@, *mode, 1),
    {
        self.step_memory(mode, true);
    }

    pub fn dec(&mut self, mode: &AddressingMode)
        requires
            mode.resolves(),
        ensures
            final(self)@ == step_memory(old(self)@, *mode, -1),
    {
        self.step_memory(mode, false);
    }

    pub fn inx(&mut self)
        ensures
            final(self)@ == old(self)@.result_x(wrap8(old(self).register_x + 1)),
            zero_negative_reflect(final(self).flags.bits, final(self).register_x),
    {
        let value: u8 = self.register_x.wrapping_add(1);
        self.set_register_x(value);
    }

    pub fn iny(&mut self)
        ensures
            final(self)@ == old(self)@.result_y(wrap8(old(self).register_y + 1)),
            zero_negative_reflect(final(self).flags.bits, final(self).register_y),
    {
        let value: u8 = self.register_y.wrapping_add(1);
        self.set_register_y(value);
    }

    pub fn dex(&mut self)
        ensures
            final(self)@ == old(self)@.result_x(wrap8(old(self).register_x - 1)),
            zero_negative_reflect(final(self).flags.bits, final(self).register_x),
    {
        let value: u8 = self.register_x.wrapping_sub(1);
        self.set_register_x(value);
    }

    pub fn dey(&mut self)
        ensures
            final(self)@ == old(self)@.result_y(wrap8(old(self).register_y - 1)),
            zero_negative_reflect(final(self).flags.bits, final(self).register_y),
    {
        let value: u8 = self.register_y.wrapping_sub(1);
        self.set_register_y(value);
    }

    /// Reads what a shift or rotate works on: A, or the byte at the
    /// effective address.
    fn shift_input(&mut self, mode: &AddressingMode) -> (data: u8)
        requires
            *mode is Accumulator || mode.resolves(),
        ensures
            data == shift_input(old(self)@, *mode),
            final(self)@ == old(self)@,
    {
        match mode {
            AddressingMode::Accumulator => self.register_a,
            _ => self.operand(mode),
        }
    }

    /// Puts the outcome of a shift or rotate where its input came from.
    fn shift_output(&mut self, mode: &AddressingMode, result: u8, carry: bool)
        requires
            *mode is Accumulator || mode.resolves(),
        ensures
            final(self)@ == shift_output(old(self)@, *mode, result, carry),
    {
        match mode {
            AddressingMode::Accumulator => {
                self.flags.set(CpuFlags::CARRY, carry);
                self.set_register_a(result);
            },
            _ => {
                let addr: u16 = self.get_operand_address(mode);
                self.flags.set(CpuFlags::CARRY, carry);
                self.mem_write(addr, result);
                self.update_zero_and_negative_flags(result);
            },
        }
    }

    pub fn asl(&mut self, mode: &AddressingMode)
        requires
            *mode is Accumulator || mode.resolves(),
        ensures
            final(self)@ == shift_left(old(self)@, *mode),
    {
        let data: u8 = self.shift_input(mode);
        proof {
            lemma_byte_bits(data, 0);
            lemma_bit_seven(data);
        }
        self.shift_output(mode, data << 1, data >> 7 == 1);
    }

    pub fn lsr(&mut self, mode: &AddressingMode)
        requires
            *mode is Accumulator || mode.resolves(),
        ensures
            final(self)@ == shift_right(old(self)@, *mode),
    {
        let data: u8 = self.shift_input(mode);
        proof {
            lemma_byte_bits(data, 0);
        }
        self.shift_output(mode, data >> 1, data & 1 == 1);
    }

    pub fn rol(&mut self, mode: &AddressingMode)
        requires
            *mode is Accumulator || mode.resolves(),
        ensures
            final(self)@ == rotate_left(old(self)@, *mode),
    {
        let data: u8 = self.shift_input(mode);
        let carry: u8 = self.carry_in();
        proof {
            lemma_byte_bits(data, carry);
            lemma_bit_seven(data);
        }
        self.shift_output(mode, (data << 1) | carry, data >> 7 == 1);
    }

    pub fn ror(&mut self, mode: &AddressingMode)
        requires
            *mode is Accumulator || mode.resolves(),
        ensures
            final(self)@ == rotate_right(old(self)@, *mode),
    {
        let data: u8 = self.shift_input(mode);
        let carry: u8 = self.carry_in();
        proof {
            lemma_byte_bits(data, carry);
        }
        self.shift_output(mode, (data >> 1) | (carry << 7), data & 1 == 1);
    }

    pub fn jmp(&mut self, mode: &AddressingMode)
        requires
            mode.resolves(),
        ensures
            final(self)@ == old(self)@.with_pc(crate::machine::operand_address(old(self)@, *mode)),
    {
        self.program_counter = self.get_operand_address(mode);
    }

    pub fn jsr(&mut self)
        ensures
            final(self)@ == jump_to_subroutine(old(self)@),
    {
        let operand_at: u16 = self.program_counter;
        self.stack_push_u16(operand_at.wrapping_add(1));
        self.program_counter = self.mem_read_u16(operand_at);
    }

    pub fn rts(&mut self)
        ensures
            final(self)@ == return_from_subroutine(old(self)@),
    {
        let target: u16 = self.stack_pop_u16();
        self.program_counter = target.wrapping_add(1);
    }

    pub fn rti(&mut self)
        ensures
            final(self)@ == return_from_interrupt(old(self)@),
    {
        self.plp();
        self.program_counter = self.stack_pop_u16();
    }

    /// A conditional branch whose condition came out as `condition`.
    pub fn branch(&mut self, condition: bool)
        ensures
            final(self)@ == branch(old(self)@, condition),
    {
        if condition {
            let operand_at: u16 = self.program_counter;
            let offset: u8 = self.mem_read(operand_at);
            let next: u16 = operand_at.wrapping_add(1);
            self.program_counter = if offset >= 0x80 {
                next.wrapping_sub(0x100 - offset as u16)
            } else {
                next.wrapping_add(offset as u16)
            };
        }
    }

    fn set_flag(&mut self, flag: u8, on: bool)
        ensures
            final(self)@ == old(self)@.with_status_flag(flag, on),
    {
        self.flags.set(flag, on);
    }

    /// Carries out the instruction of the table row `op`. The program
    /// counter is already past the opcode byte.
    pub fn execute(&mut self, op: &OpCode)
        requires
            op.mnemonic.accepts(op.mode),
        ensures
            final(self)@ == execute(old(self)@, *op),
    {
        let mode: &AddressingMode = &op.mode;
        match op.mnemonic {
            Instruction::LDA => self.lda(mode),
            Instruction::LDX => self.ldx(mode),
            Instruction::LDY => self.ldy(mode),
            Instruction::STA => self.sta(mode),
            Instruction::STX => self.stx(mode),
            Instruction::STY => self.sty(mode),
            Instruction::TAX => self.tax(),
            Instruction::TAY => self.tay(),
            Instruction::TXA => self.txa(),
            Instruction::TYA => self.tya(),
            Instruction::TSX => self.tsx(),
            Instruction::TXS => self.txs(),
            Instruction::PHA => self.pha(),
            Instruction::PHP => self.php(),
            Instruction::PLA => self.pla(),
            Instruction::PLP => self.plp(),
            Instruction::AND => self.and(mode),
            Instruction::EOR => self.eor(mode),
            Instruction::ORA => self.ora(mode),
            Instruction::BIT => self.bit(mode),
            Instruction::ADC => self.adc(mode),
            Instruction::SBC => self.sbc(mode),
            Instruction::CMP => {
                let register: u8 = self.register_a;
                self.compare(mode, register)
            },
            Instruction::CPX => {
                let register: u8 = self.register_x;
                self.compare(mode, register)
            },
            Instruction::CPY => {
                let register: u8 = self.register_y;
                self.compare(mode, register)
            },
            Instruction::INC => self.inc(mode),
            Instruction::INX => self.inx(),
            Instruction::INY => self.iny(),
            Instruction::DEC => self.dec(mode),
            Instruction::DEX => self.dex(),
            Instruction::DEY => self.dey(),
            Instruction::ASL => self.asl(mode),
            Instruction::LSR => self.lsr(mode),
            Instruction::ROL => self.rol(mode),
            Instruction::ROR => self.ror(mode),
            Instruction::JMP => self.jmp(mode),
            Instruction::JSR => self.jsr(),
            Instruction::RTS => self.rts(),
            Instruction::BCC => {
                let taken: bool = !self.flags.contains(CpuFlags::CARRY);
                self.branch(taken)
            },
            Instruction::BCS => {
                let taken: bool = self.flags.contains(CpuFlags::CARRY);
                self.branch(taken)
            },
            Instruction::BEQ => {
                let taken: bool = self.flags.contains(CpuFlags::ZERO);
                self.branch(taken)
            },
            Instruction::BMI => {
                let taken: bool = self.flags.contains(CpuFlags::NEGATIV);
                self.branch(taken)
            },
            Instruction::BNE => {
                let taken: bool = !self.flags.contains(CpuFlags::ZERO);
                self.branch(taken)
            },
            Instruction::BPL => {
                let taken: bool = !self.flags.contains(CpuFlags::NEGATIV);
                self.branch(taken)
            },
            Instruction::BVC => {
                let taken: bool = !self.flags.contains(CpuFlags::OVERFLOW);
                self.branch(taken)
            },
            Instruction::BVS => {
                let taken: bool = self.flags.contains(CpuFlags::OVERFLOW);
                self.branch(taken)
            },
            Instruction::CLC => self.set_flag(CpuFlags::CARRY, false),
            Instruction::CLD => self.set_flag(CpuFlags::DECIMAL_MODE, false),
            Instruction::CLI => self.set_flag(CpuFlags::INTERRUPT_DISABLE, false),
            Instruction::CLV => self.set_flag(CpuFlags::OVERFLOW, false),
            Instruction::SEC => self.set_flag(CpuFlags::CARRY, true),
            Instruction::SED => self.set_flag(CpuFlags::DECIMAL_MODE, true),
            Instruction::SEI => self.set_flag(CpuFlags::INTERRUPT_DISABLE, true),
            Instruction::BRK => self.set_flag(CpuFlags::BREAK, true),
            Instruction::NOP => {},
            Instruction::RTI => self.rti(),
        }
    }
}

} // verus!

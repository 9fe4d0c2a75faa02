use vstd::prelude::*;
use crate::bus::{word, Memory};
use crate::flags::{flag_set, with_flag, with_zero_negative, CpuFlags};
use crate::opcodes::{descriptor, AddressingMode, Instruction, OpCode};

verus! {

/// First address of page one, which holds the stack.
pub const STACK_BASE: u16 = 0x0100;

/// Address of the little-endian word from which a reset loads the program
/// counter.
pub const RESET_VECTOR: u16 = 0xFFFC;

/// Address at which a loaded program starts.
pub const PROGRAM_BASE: u16 = 0x8000;

/// Stack pointer after a reset.
pub const STACK_RESET: u8 = 0xFD;

/// Status register after a reset: interrupts disabled, the unused bit set.
pub const STATUS_RESET: u8 = 0x24;

/// The machine as the instruction semantics see it: the register file and
/// the memory behind the bus.
pub struct State {
    pub a: u8,
    pub x: u8,
    pub y: u8,
    pub sp: u8,
    pub pc: u16,
    pub p: u8,
    pub mem: Memory,
}

/// How a step, or a run, of the interpreter ended.
#[derive(Clone, Copy, Debug, PartialEq, Eq, Structural)]
pub enum Status {
    /// The instruction completed and the next one can be fetched.
    Running,
    /// A `BRK` was executed.
    Halted,
    /// The byte `opcode`, fetched at `pc`, is not in the instruction table.
    Unrecognized { opcode: u8, pc: u16 },
}

/// `v` reduced to eight bits.
pub open spec fn wrap8(v: int) -> u8 {
    (v % 0x100) as u8
}

/// `v` reduced to sixteen bits.
pub open spec fn wrap16(v: int) -> u16 {
    (v % 0x1_0000) as u16
}

/// A byte read as a two's-complement number.
pub open spec fn signed(v: u8) -> int {
    if v >= 0x80 {
        v - 0x100
    } else {
        v as int
    }
}

/// The address in page one that the stack pointer `sp` selects.
pub open spec fn stack_address(sp: u8) -> u16 {
    (STACK_BASE + sp) as u16
}

/// The address after `ptr` within the page of `ptr`: the low byte wraps and
/// the high byte stays.
pub open spec fn next_in_page(ptr: u16) -> u16 {
    ((ptr / 0x100) * 0x100 + (ptr % 0x100 + 1) % 0x100) as u16
}

/// The word whose low byte is at the zero-page address `ptr` and whose high
/// byte is at the zero-page address after it, wrapping within the zero page.
pub open spec fn zero_page_word(mem: Memory, ptr: u8) -> u16 {
    word(mem.read(ptr as u16), mem.read(wrap8(ptr + 1) as u16))
}

/// The word that an indirect jump loads through the pointer `ptr`. The high
/// byte comes from the page of `ptr` even where `ptr` is the last address of
/// that page.
pub open spec fn indirect_word(mem: Memory, ptr: u16) -> u16 {
    word(mem.read(ptr), mem.read(next_in_page(ptr)))
}

/// The effective address of an instruction in mode `mode` whose operand
/// bytes start at `addr`. For the modes that name no memory location the
/// value has no meaning.
pub open spec fn absolute_address(s: State, mode: AddressingMode, addr: u16) -> u16
    recommends
        mode.resolves(),
{
    match mode {
        AddressingMode::Immediate => addr,
        AddressingMode::ZeroPage => s.mem.read(addr) as u16,
        AddressingMode::ZeroPageX => wrap8(s.mem.read(addr) + s.x) as u16,
        AddressingMode::ZeroPageY => wrap8(s.mem.read(addr) + s.y) as u16,
        AddressingMode::Absolute => s.mem.read_u16(addr),
        AddressingMode::AbsoluteX => wrap16(s.mem.read_u16(addr) + s.x),
        AddressingMode::AbsoluteY => wrap16(s.mem.read_u16(addr) + s.y),
        AddressingMode::Indirect => indirect_word(s.mem, s.mem.read_u16(addr)),
        AddressingMode::IndirectX => zero_page_word(s.mem, wrap8(s.mem.read(addr) + s.x)),
        AddressingMode::IndirectY => wrap16(zero_page_word(s.mem, s.mem.read(addr)) + s.y),
        _ => addr,
    }
}

/// The effective address of the instruction whose operand bytes start at
/// the program counter.
pub open spec fn operand_address(s: State, mode: AddressingMode) -> u16
    recommends
        mode.resolves(),
{
    absolute_address(s, mode, s.pc)
}

/// The status byte as `PHP` pushes it: B and the unused bit are set.
pub open spec fn pushed_status(p: u8) -> u8 {
    with_flag(with_flag(p, CpuFlags::BREAK, true), CpuFlags::RESERVED, true)
}

/// The status register after `PLP` or `RTI` pulled the byte `v`: B is
/// clear and the unused bit is set.
pub open spec fn pulled_status(v: u8) -> u8 {
    with_flag(with_flag(v, CpuFlags::BREAK, false), CpuFlags::RESERVED, true)
}

/// The bit pattern that the adder sees for a subtraction of `m`: its one's
/// complement.
pub open spec fn complement(m: u8) -> u8 {
    (0xFF - m) as u8
}

impl State {
    /// The byte at the effective address.
    pub open spec fn operand(self, mode: AddressingMode) -> u8 {
        self.mem.read(operand_address(self, mode))
    }

    pub open spec fn carry(self) -> bool {
        flag_set(self.p, CpuFlags::CARRY)
    }

    /// The carry flag as the number that the adder and the rotates take in.
    pub open spec fn carry_bit(self) -> int {
        if self.carry() {
            1
        } else {
            0
        }
    }

    pub open spec fn with_pc(self, pc: u16) -> State {
        State { pc, ..self }
    }

    pub open spec fn with_status(self, p: u8) -> State {
        State { p, ..self }
    }

    pub open spec fn with_status_flag(self, flag: u8, on: bool) -> State {
        State { p: with_flag(self.p, flag, on), ..self }
    }

    /// The result `v` goes to A, and Z and N follow it.
    pub open spec fn result_a(self, v: u8) -> State {
        State { a: v, p: with_zero_negative(self.p, v), ..self }
    }

    /// The result `v` goes to X, and Z and N follow it.
    pub open spec fn result_x(self, v: u8) -> State {
        State { x: v, p: with_zero_negative(self.p, v), ..self }
    }

    /// The result `v` goes to Y, and Z and N follow it.
    pub open spec fn result_y(self, v: u8) -> State {
        State { y: v, p: with_zero_negative(self.p, v), ..self }
    }

    /// The result `v` goes to memory at `addr`, and Z and N follow it.
    pub open spec fn result_memory(self, addr: u16, v: u8) -> State {
        State { mem: self.mem.write(addr, v), p: with_zero_negative(self.p, v), ..self }
    }

    /// A byte is written at the stack pointer, which then moves down by one.
    pub open spec fn push(self, v: u8) -> State {
        State { mem: self.mem.write(stack_address(self.sp), v), sp: wrap8(self.sp - 1), ..self }
    }

    /// A word is pushed, high byte first.
    pub open spec fn push_u16(self, v: u16) -> State {
        self.push((v / 0x100) as u8).push((v % 0x100) as u8)
    }

    /// The stack pointer moves up by one, to the byte that a pull returns.
    pub open spec fn pull(self) -> State {
        State { sp: wrap8(self.sp + 1), ..self }
    }

    /// The byte that the next pull returns.
    pub open spec fn top(self) -> u8 {
        self.mem.read(stack_address(wrap8(self.sp + 1)))
    }

    /// The word that the next two pulls return, low byte first.
    pub open spec fn top_u16(self) -> u16 {
        word(self.top(), self.pull().top())
    }
}

/// `LDA`, `LDX` and `LDY` in turn.
pub open spec fn load_a(s: State, mode: AddressingMode) -> State {
    s.result_a(s.operand(mode))
}

pub open spec fn load_x(s: State, mode: AddressingMode) -> State {
    s.result_x(s.operand(mode))
}

pub open spec fn load_y(s: State, mode: AddressingMode) -> State {
    s.result_y(s.operand(mode))
}

/// `STA`, `STX` and `STY`: `value` goes to the effective address and no flag
/// changes.
pub open spec fn store(s: State, mode: AddressingMode, value: u8) -> State {
    State { mem: s.mem.write(operand_address(s, mode), value), ..s }
}

/// `PLA`.
pub open spec fn pull_a(s: State) -> State {
    s.pull().result_a(s.top())
}

/// `PLP`, and the first half of `RTI`.
pub open spec fn pull_status(s: State) -> State {
    s.pull().with_status(pulled_status(s.top()))
}

/// `BIT`: Z tells whether A and the operand share no bit, N and V are bits
/// 7 and 6 of the operand.
pub open spec fn bit_test(s: State, m: u8) -> State {
    let zero = with_flag(s.p, CpuFlags::ZERO, s.a & m == 0);
    let negative = with_flag(zero, CpuFlags::NEGATIV, m & 0x80 != 0);
    s.with_status(with_flag(negative, CpuFlags::OVERFLOW, m & 0x40 != 0))
}

/// The unsigned sum that `ADC` of `m` forms: A plus the operand plus the
/// carry.
pub open spec fn adder_sum(s: State, m: u8) -> int {
    s.a + m + s.carry_bit()
}

/// `ADC` of the byte `m`. C is the carry out of bit 7, V tells that the
/// operand and A agree in sign and the result does not, and the low byte of
/// the sum goes to A.
pub open spec fn add_with_carry(s: State, m: u8) -> State {
    let sum = adder_sum(s, m);
    let result = wrap8(sum);
    let carried = with_flag(s.p, CpuFlags::CARRY, sum > 0xFF);
    let status = with_flag(carried, CpuFlags::OVERFLOW, (m ^ result) & (result ^ s.a) & 0x80 != 0);
    s.with_status(status).result_a(result)
}

/// `SBC` of the byte `m`: `ADC` of its one's complement.
pub open spec fn subtract_with_carry(s: State, m: u8) -> State {
    add_with_carry(s, complement(m))
}

/// `CMP`, `CPX` and `CPY`: the register value `r` against the byte `m`. C
/// tells that `m` is not above `r`; Z and N follow the difference.
pub open spec fn compare(s: State, r: u8, m: u8) -> State {
    let carried = with_flag(s.p, CpuFlags::CARRY, m <= r);
    s.with_status(with_zero_negative(carried, wrap8(r - m)))
}

/// `INC` and `DEC`: the byte at the effective address changes by `delta`.
pub open spec fn step_memory(s: State, mode: AddressingMode, delta: int) -> State {
    s.result_memory(operand_address(s, mode), wrap8(s.operand(mode) + delta))
}

/// The byte that a shift or rotate works on.
pub open spec fn shift_input(s: State, mode: AddressingMode) -> u8 {
    if mode is Accumulator {
        s.a
    } else {
        s.operand(mode)
    }
}

/// A shift or rotate puts `carry` in C and `result` where its input came
/// from, and Z and N follow the result.
pub open spec fn shift_output(s: State, mode: AddressingMode, result: u8, carry: bool) -> State {
    let carried = s.with_status_flag(CpuFlags::CARRY, carry);
    if mode is Accumulator {
        carried.result_a(result)
    } else {
        carried.result_memory(operand_address(s, mode), result)
    }
}

/// `ASL`: bit 7 goes to C, the rest moves up, bit 0 is clear.
pub open spec fn shift_left(s: State, mode: AddressingMode) -> State {
    let v = shift_input(s, mode);
    shift_output(s, mode, wrap8(v * 2), v >= 0x80)
}

/// `LSR`: bit 0 goes to C, the rest moves down, bit 7 is clear.
pub open spec fn shift_right(s: State, mode: AddressingMode) -> State {
    let v = shift_input(s, mode);
    shift_output(s, mode, (v / 2) as u8, v % 2 == 1)
}

/// `ROL`: as `ASL`, with the old C in bit 0.
pub open spec fn rotate_left(s: State, mode: AddressingMode) -> State {
    let v = shift_input(s, mode);
    shift_output(s, mode, wrap8(v * 2 + s.carry_bit()), v >= 0x80)
}

/// `ROR`: as `LSR`, with the old C in bit 7.
pub open spec fn rotate_right(s: State, mode: AddressingMode) -> State {
    let v = shift_input(s, mode);
    shift_output(s, mode, (v / 2 + 0x80 * s.carry_bit()) as u8, v % 2 == 1)
}

/// `JSR`: the address of the last byte of the instruction is pushed, then
/// the program counter takes the operand word.
pub open spec fn jump_to_subroutine(s: State) -> State {
    let pushed = s.push_u16(wrap16(s.pc + 1));
    pushed.with_pc(pushed.mem.read_u16(s.pc))
}

/// `RTS`: execution resumes after the address that is pulled.
pub open spec fn return_from_subroutine(s: State) -> State {
    s.pull().pull().with_pc(wrap16(s.top_u16() + 1))
}

/// `RTI`: the status is pulled, then the program counter.
pub open spec fn return_from_interrupt(s: State) -> State {
    let restored = pull_status(s);
    restored.pull().pull().with_pc(restored.top_u16())
}

/// The program counter after a taken branch: the address after the offset
/// byte, moved by the offset.
pub open spec fn branch_target(s: State) -> u16 {
    wrap16(s.pc + 1 + signed(s.mem.read(s.pc)))
}

/// A conditional branch whose condition came out as `taken`.
pub open spec fn branch(s: State, taken: bool) -> State {
    if taken {
        s.with_pc(branch_target(s))
    } else {
        s
    }
}

/// What the instruction of the table row `op` does to the machine `s`,
/// whose program counter is already past the opcode byte.
pub open spec fn execute(s: State, op: OpCode) -> State {
    let mode = op.mode;
    match op.mnemonic {
        Instruction::LDA => load_a(s, mode),
        Instruction::LDX => load_x(s, mode),
        Instruction::LDY => load_y(s, mode),
        Instruction::STA => store(s, mode, s.a),
        Instruction::STX => store(s, mode, s.x),
        Instruction::STY => store(s, mode, s.y),
        Instruction::TAX => s.result_x(s.a),
        Instruction::TAY => s.result_y(s.a),
        Instruction::TXA => s.result_a(s.x),
        Instruction::TYA => s.result_a(s.y),
        Instruction::TSX => s.result_x(s.sp),
        Instruction::TXS => State { sp: s.x, ..s },
        Instruction::PHA => s.push(s.a),
        Instruction::PHP => s.push(pushed_status(s.p)),
        Instruction::PLA => pull_a(s),
        Instruction::PLP => pull_status(s),
        Instruction::AND => s.result_a(s.a & s.operand(mode)),
        Instruction::EOR => s.result_a(s.a ^ s.operand(mode)),
        Instruction::ORA => s.result_a(s.a | s.operand(mode)),
        Instruction::BIT => bit_test(s, s.operand(mode)),
        Instruction::ADC => add_with_carry(s, s.operand(mode)),
        Instruction::SBC => subtract_with_carry(s, s.operand(mode)),
        Instruction::CMP => compare(s, s.a, s.operand(mode)),
        Instruction::CPX => compare(s, s.x, s.operand(mode)),
        Instruction::CPY => compare(s, s.y, s.operand(mode)),
        Instruction::INC => step_memory(s, mode, 1),
        Instruction::INX => s.result_x(wrap8(s.x + 1)),
        Instruction::INY => s.result_y(wrap8(s.y + 1)),
        Instruction::DEC => step_memory(s, mode, -1),
        Instruction::DEX => s.result_x(wrap8(s.x - 1)),
        Instruction::DEY => s.result_y(wrap8(s.y - 1)),
        Instruction::ASL => shift_left(s, mode),
        Instruction::LSR => shift_right(s, mode),
        Instruction::ROL => rotate_left(s, mode),
        Instruction::ROR => rotate_right(s, mode),
        Instruction::JMP => s.with_pc(operand_address(s, mode)),
        Instruction::JSR => jump_to_subroutine(s),
        Instruction::RTS => return_from_subroutine(s),
        Instruction::BCC => branch(s, !flag_set(s.p, CpuFlags::CARRY)),
        Instruction::BCS => branch(s, flag_set(s.p, CpuFlags::CARRY)),
        Instruction::BEQ => branch(s, flag_set(s.p, CpuFlags::ZERO)),
        Instruction::BMI => branch(s, flag_set(s.p, CpuFlags::NEGATIV)),
        Instruction::BNE => branch(s, !flag_set(s.p, CpuFlags::ZERO)),
        Instruction::BPL => branch(s, !flag_set(s.p, CpuFlags::NEGATIV)),
        Instruction::BVC => branch(s, !flag_set(s.p, CpuFlags::OVERFLOW)),
        Instruction::BVS => branch(s, flag_set(s.p, CpuFlags::OVERFLOW)),
        Instruction::CLC => s.with_status_flag(CpuFlags::CARRY, false),
        Instruction::CLD => s.with_status_flag(CpuFlags::DECIMAL_MODE, false),
        Instruction::CLI => s.with_status_flag(CpuFlags::INTERRUPT_DISABLE, false),
        Instruction::CLV => s.with_status_flag(CpuFlags::OVERFLOW, false),
        Instruction::SEC => s.with_status_flag(CpuFlags::CARRY, true),
        Instruction::SED => s.with_status_flag(CpuFlags::DECIMAL_MODE, true),
        Instruction::SEI => s.with_status_flag(CpuFlags::INTERRUPT_DISABLE, true),
        Instruction::BRK => s.with_status_flag(CpuFlags::BREAK, true),
        Instruction::NOP => s,
        Instruction::RTI => return_from_interrupt(s),
    }
}

/// The machine after the instruction `op`, fetched from the address before
/// `s.pc`, ran to its end: where the instruction left the program counter
/// alone, the counter moves past the operand bytes.
pub open spec fn complete(s: State, op: OpCode) -> State {
    let done = execute(s, op);
    if done.pc == s.pc {
        done.with_pc(wrap16(done.pc + op.len - 1))
    } else {
        done
    }
}

/// One turn of the interpreter: fetch, decode, execute, advance.
///
/// A byte that the table does not know leaves the machine untouched and is
/// reported with the address it was fetched from. `BRK` halts: the program
/// counter stays behind its opcode byte and B is set.
pub open spec fn step(s: State) -> (State, Status) {
    let code = s.mem.read(s.pc);
    match descriptor(code) {
        None => (s, Status::Unrecognized { opcode: code, pc: s.pc }),
        Some(op) => {
            let fetched = s.with_pc(wrap16(s.pc + 1));
            if op.mnemonic is BRK {
                (execute(fetched, op), Status::Halted)
            } else {
                (complete(fetched, op), Status::Running)
            }
        },
    }
}

/// At most `limit` turns of the interpreter, stopping at the first that
/// does not leave the machine running. `Running` as the outcome means that
/// all `limit` instructions completed.
pub open spec fn run(s: State, limit: nat) -> (State, Status)
    decreases limit,
{
    if limit == 0 {
        (s, Status::Running)
    } else {
        let (next, status) = step(s);
        if status is Running {
            run(next, (limit - 1) as nat)
        } else {
            (next, status)
        }
    }
}

/// The machine after a reset: the registers cleared, the stack pointer and
/// the status at their power-on values, the program counter loaded from
/// the reset vector.
pub open spec fn reset(s: State) -> State {
    State {
        a: 0,
        x: 0,
        y: 0,
        sp: STACK_RESET,
        pc: s.mem.read_u16(RESET_VECTOR),
        p: STATUS_RESET,
        mem: s.mem,
    }
}

/// The 32 KiB ROM image after `program` was loaded into the memory `mem`:
/// it holds `program` from its first byte on and the address of that byte
/// in the reset vector, and everywhere else the byte that the ROM window of
/// `mem` showed at that place.
pub open spec fn program_image(mem: Memory, program: Seq<u8>) -> Seq<u8> {
    Seq::new(
        0x8000,
        |i: int|
            if i == RESET_VECTOR - PROGRAM_BASE {
                (PROGRAM_BASE % 0x100) as u8
            } else if i == RESET_VECTOR - PROGRAM_BASE + 1 {
                (PROGRAM_BASE / 0x100) as u8
            } else if i < program.len() {
                program[i]
            } else {
                mem.read((PROGRAM_BASE + i) as u16)
            },
    )
}

/// The machine after `program` was loaded: the program ROM shows it from
/// `0x8000` on, with the reset vector pointing at it, and nothing else has
/// changed.
pub open spec fn load(s: State, program: Seq<u8>) -> State {
    State { mem: Memory { rom: program_image(s.mem, program), ..s.mem }, ..s }
}

} // verus!

use vstd::prelude::*;
use crate::bus::{lemma_read_after_write, lemma_write_keeps_shape, word, Memory};
use crate::flags::{
    flag_set, is_single_flag, lemma_flag_kept, lemma_flag_written, lemma_zero_negative,
    with_flag, with_zero_negative, zero_negative_reflect, CpuFlags,
};
use crate::machine::{
    add_with_carry, adder_sum, compare, complement, execute, indirect_word, load, next_in_page,
    program_image, pull_a, pulled_status, pushed_status, reset, run, signed, stack_address, step,
    subtract_with_carry, wrap8, State, PROGRAM_BASE, RESET_VECTOR,
};
use crate::opcodes::{AddressingMode, Instruction, OpCode};

verus! {

/// Every stack pointer selects an address of page one, so every push and
/// every pull touches `0x0100..=0x01FF` and nothing else.
pub proof fn lemma_stack_stays_in_page_one(s: State, data: u8)
    ensures
        0x0100 <= stack_address(s.sp) <= 0x01FF,
        s.push(data).mem == s.mem.write(stack_address(s.sp), data),
        0x0100 <= stack_address(s.pull().sp) <= 0x01FF,
        s.top() == s.mem.read(stack_address(s.pull().sp)),
{
}

/// The register that an instruction leaves its result in, as it stands
/// in the machine `after` the instruction: A, X or Y for the loads, the
/// transfers, `PLA`, the logical and arithmetic instructions and the
/// register increments and decrements, A for a shift or rotate of the
/// accumulator, none for the rest.
pub open spec fn register_result(op: OpCode, after: State) -> Option<u8> {
    match op.mnemonic {
        Instruction::LDA
        | Instruction::TXA
        | Instruction::TYA
        | Instruction::PLA
        | Instruction::AND
        | Instruction::EOR
        | Instruction::ORA
        | Instruction::ADC
        | Instruction::SBC => Some(after.a),
        Instruction::LDX
        | Instruction::TAX
        | Instruction::TSX
        | Instruction::INX
        | Instruction::DEX => Some(after.x),
        Instruction::LDY | Instruction::TAY | Instruction::INY | Instruction::DEY => Some(after.y),
        Instruction::ASL | Instruction::LSR | Instruction::ROL | Instruction::ROR => {
            if op.mode is Accumulator {
                Some(after.a)
            } else {
                None
            }
        },
        _ => None,
    }
}

proof fn lemma_zero_negative_everywhere()
    ensures
        forall|p: u8, v: u8| zero_negative_reflect(#[trigger] with_zero_negative(p, v), v),
{
    assert forall|p: u8, v: u8| zero_negative_reflect(#[trigger] with_zero_negative(p, v), v) by {
        lemma_zero_negative(p, v);
    }
}

/// After an instruction that leaves a result `r` in a register, Z is set
/// exactly when `r` is zero and N exactly when `r` is `0x80` or more.
pub proof fn lemma_result_sets_zero_and_negative(s: State, op: OpCode)
    ensures
        register_result(op, execute(s, op)) matches Some(r) ==> zero_negative_reflect(
            execute(s, op).p,
            r,
        ),
{
    lemma_zero_negative_everywhere();
}

/// A comparison of the register value `r` with the byte `m` sets C exactly
/// when `m` is not above `r`.
pub proof fn lemma_compare_sets_carry(s: State, r: u8, m: u8)
    ensures
        flag_set(compare(s, r, m).p, CpuFlags::CARRY) == (m <= r),
{
    let carried = with_flag(s.p, CpuFlags::CARRY, m <= r);
    lemma_flag_written(s.p, CpuFlags::CARRY, m <= r);
    lemma_zero_negative(carried, wrap8(r - m));
}

/// `CMP`, `CPX` and `CPY` set C exactly when the operand is not above A, X
/// or Y.
pub proof fn lemma_compare_instructions_set_carry(s: State, op: OpCode)
    ensures
        op.mnemonic is CMP ==> execute(s, op).carry() == (s.operand(op.mode) <= s.a),
        op.mnemonic is CPX ==> execute(s, op).carry() == (s.operand(op.mode) <= s.x),
        op.mnemonic is CPY ==> execute(s, op).carry() == (s.operand(op.mode) <= s.y),
{
    let m = s.operand(op.mode);
    lemma_compare_sets_carry(s, s.a, m);
    lemma_compare_sets_carry(s, s.x, m);
    lemma_compare_sets_carry(s, s.y, m);
}

/// `ADC` leaves in C the carry out of bit 7 and in A the low byte of the
/// sum.
pub proof fn lemma_add_with_carry_result(s: State, m: u8)
    ensures
        add_with_carry(s, m).a == wrap8(adder_sum(s, m)),
        add_with_carry(s, m).carry() == (adder_sum(s, m) > 0xFF),
{
    let sum = adder_sum(s, m);
    let result = wrap8(sum);
    let carried = with_flag(s.p, CpuFlags::CARRY, sum > 0xFF);
    let overflow = (m ^ result) & (result ^ s.a) & 0x80 != 0;
    let status = with_flag(carried, CpuFlags::OVERFLOW, overflow);
    lemma_flag_written(s.p, CpuFlags::CARRY, sum > 0xFF);
    lemma_flag_kept(carried, CpuFlags::OVERFLOW, overflow, CpuFlags::CARRY);
    lemma_zero_negative(status, result);
}

proof fn lemma_sign_bits(a: u8, m: u8, r: u8)
    by (bit_vector)
    ensures
        ((m ^ r) & (r ^ a) & 0x80 != 0) == ((a >= 0x80) == (m >= 0x80) && (r >= 0x80) != (a
            >= 0x80)),
{
}

/// `ADC` sets V exactly when the sum of A, the operand and the carry, all
/// read as signed numbers, does not fit in a signed byte.
pub proof fn lemma_overflow_is_signed_overflow(s: State, m: u8)
    ensures
        flag_set(add_with_carry(s, m).p, CpuFlags::OVERFLOW) == !(-0x80 <= signed(s.a) + signed(m)
            + s.carry_bit() <= 0x7F),
{
    let sum = adder_sum(s, m);
    let result = wrap8(sum);
    let carried = with_flag(s.p, CpuFlags::CARRY, sum > 0xFF);
    let overflow = (m ^ result) & (result ^ s.a) & 0x80 != 0;
    let status = with_flag(carried, CpuFlags::OVERFLOW, overflow);
    lemma_sign_bits(s.a, m, result);
    lemma_flag_written(carried, CpuFlags::OVERFLOW, overflow);
    lemma_zero_negative(status, result);
}

/// `ADC` of a byte and then `SBC` of the same byte, with nothing in
/// between that touches C, moves A by the two carries: by the carry that
/// went into the addition and the carry that came out of it, less one.
pub proof fn lemma_add_then_subtract(s: State, m: u8)
    ensures
        subtract_with_carry(add_with_carry(s, m), m).a == wrap8(
            s.a + s.carry_bit() + add_with_carry(s, m).carry_bit() - 1,
        ),
{
    let added = add_with_carry(s, m);
    lemma_add_with_carry_result(s, m);
    lemma_add_with_carry_result(added, complement(m));
}

/// `ADC` of a byte and then `SBC` of the same byte, with nothing in
/// between that touches C, gives A its first value back, provided that
/// the addition changed C: the carry that came out of it is not the carry
/// that went in.
pub proof fn lemma_add_then_subtract_restores_a(s: State, m: u8)
    requires
        s.carry() != add_with_carry(s, m).carry(),
    ensures
        subtract_with_carry(add_with_carry(s, m), m).a == s.a,
{
    lemma_add_then_subtract(s, m);
}

/// A byte that is pushed is the byte that the next pull returns, and the
/// stack pointer is back where it was.
pub proof fn lemma_push_then_pull(s: State, b: u8)
    requires
        s.mem.has_work_ram(),
    ensures
        s.push(b).top() == b,
        s.push(b).pull().sp == s.sp,
        pull_a(s.push(b)).a == b,
{
    lemma_read_after_write(s.mem, stack_address(s.sp), b);
}

/// `PHA` and then `PLA` leave A as it was.
pub proof fn lemma_pha_then_pla(s: State, pha: OpCode, pla: OpCode)
    requires
        s.mem.has_work_ram(),
        pha.mnemonic is PHA,
        pla.mnemonic is PLA,
    ensures
        execute(execute(s, pha), pla).a == s.a,
        execute(execute(s, pha), pla).sp == s.sp,
{
    lemma_push_then_pull(s, s.a);
}

/// A status byte that `PHP` pushes has B and the unused bit set. A status
/// that `PLP` or `RTI` pulls has B clear and the unused bit set. The six
/// other flags go to the stack and come back as they are.
pub proof fn lemma_status_on_the_stack(p: u8, flag: u8)
    requires
        is_single_flag(flag),
        flag != CpuFlags::BREAK,
        flag != CpuFlags::RESERVED,
    ensures
        flag_set(pushed_status(p), CpuFlags::BREAK),
        flag_set(pushed_status(p), CpuFlags::RESERVED),
        flag_set(pushed_status(p), flag) == flag_set(p, flag),
        !flag_set(pulled_status(p), CpuFlags::BREAK),
        flag_set(pulled_status(p), CpuFlags::RESERVED),
        flag_set(pulled_status(p), flag) == flag_set(p, flag),
{
    let set = with_flag(p, CpuFlags::BREAK, true);
    lemma_flag_written(p, CpuFlags::BREAK, true);
    lemma_flag_kept(p, CpuFlags::BREAK, true, flag);
    lemma_flag_written(set, CpuFlags::RESERVED, true);
    lemma_flag_kept(set, CpuFlags::RESERVED, true, CpuFlags::BREAK);
    lemma_flag_kept(set, CpuFlags::RESERVED, true, flag);
    let clear = with_flag(p, CpuFlags::BREAK, false);
    lemma_flag_written(p, CpuFlags::BREAK, false);
    lemma_flag_kept(p, CpuFlags::BREAK, false, flag);
    lemma_flag_written(clear, CpuFlags::RESERVED, true);
    lemma_flag_kept(clear, CpuFlags::RESERVED, true, CpuFlags::BREAK);
    lemma_flag_kept(clear, CpuFlags::RESERVED, true, flag);
}

/// An indirect jump through a pointer at the end of a page, `$xxFF`, takes
/// the high byte of its target from the start of that page, `$xx00`, and
/// not from the start of the next page.
pub proof fn lemma_indirect_jump_stays_in_page(mem: Memory, ptr: u16)
    requires
        ptr % 0x100 == 0xFF,
    ensures
        next_in_page(ptr) == ptr - 0xFF,
        next_in_page(ptr) % 0x100 == 0,
        indirect_word(mem, ptr) == word(mem.read(ptr), mem.read((ptr - 0xFF) as u16)),
{
}

/// Away from the end of a page an indirect jump reads its target from the
/// pointer and the address after it.
pub proof fn lemma_indirect_jump_within_page(mem: Memory, ptr: u16)
    requires
        ptr % 0x100 != 0xFF,
    ensures
        indirect_word(mem, ptr) == mem.read_u16(ptr),
{
}

/// `JMP` in indirect mode goes where the pointer in its operand says, with
/// the high byte taken from the page of the pointer.
pub proof fn lemma_indirect_jump(s: State, op: OpCode)
    requires
        op.mnemonic is JMP,
        op.mode is Indirect,
    ensures
        execute(s, op).pc == indirect_word(s.mem, s.mem.read_u16(s.pc)),
{
}

/// Two memories with the same program ROM and as much work RAM.
pub open spec fn same_shape(a: Memory, b: Memory) -> bool {
    &&& a.rom == b.rom
    &&& a.ram.len() == b.ram.len()
}

proof fn lemma_writes_keep_shape()
    ensures
        forall|mem: Memory, addr: u16, data: u8|
            same_shape(#[trigger] mem.write(addr, data), mem),
{
    assert forall|mem: Memory, addr: u16, data: u8|
        same_shape(#[trigger] mem.write(addr, data), mem) by {
        lemma_write_keeps_shape(mem, addr, data);
    }
}

/// No instruction changes the program ROM or the size of the work RAM.
pub proof fn lemma_execute_keeps_shape(s: State, op: OpCode)
    ensures
        same_shape(execute(s, op).mem, s.mem),
{
    lemma_writes_keep_shape();
}

/// No turn of the interpreter changes the program ROM or the size of the
/// work RAM.
pub proof fn lemma_step_keeps_shape(s: State)
    ensures
        same_shape(step(s).0.mem, s.mem),
{
    let code = s.mem.read(s.pc);
    match crate::opcodes::descriptor(code) {
        None => {},
        Some(op) => {
            lemma_execute_keeps_shape(s.with_pc(crate::machine::wrap16(s.pc + 1)), op);
        },
    }
}

/// In every state that a run reaches, the program ROM is the one it
/// started with and the work RAM has the size it started with: a machine
/// with 2 KiB of work RAM keeps them.
pub proof fn lemma_run_keeps_shape(s: State, limit: nat)
    ensures
        same_shape(run(s, limit).0.mem, s.mem),
        s.mem.has_work_ram() ==> run(s, limit).0.mem.has_work_ram(),
    decreases limit,
{
    if limit > 0 {
        lemma_step_keeps_shape(s);
        if step(s).1 is Running {
            lemma_run_keeps_shape(step(s).0, (limit - 1) as nat);
        }
    }
}

/// After a program was loaded, a read of the program region gives its
/// bytes, the reset vector gives the start of the region, and a reset
/// puts the program counter there. Every address outside the program and
/// the reset vector reads as it did before, and the work RAM is the same.
pub proof fn lemma_loaded_program(s: State, program: Seq<u8>, i: int, addr: u16)
    requires
        program.len() <= 0x8000,
    ensures
        load(s, program).mem.read_u16(RESET_VECTOR) == PROGRAM_BASE,
        reset(load(s, program)).pc == PROGRAM_BASE,
        0 <= i < program.len() && i != RESET_VECTOR - PROGRAM_BASE && i != RESET_VECTOR
            - PROGRAM_BASE + 1 ==> load(s, program).mem.read((PROGRAM_BASE + i) as u16)
            == program[i],
        !(PROGRAM_BASE <= addr < PROGRAM_BASE + program.len()) && addr != RESET_VECTOR && addr
            != RESET_VECTOR + 1 ==> load(s, program).mem.read(addr) == s.mem.read(addr),
        load(s, program).mem.ram == s.mem.ram,
{
    reveal(Memory::read);
    let image = program_image(s.mem, program);
    assert(image.len() == 0x8000);
}

} // verus!

use vstd::prelude::*;
use crate::bus::{high_byte, low_byte, make_word, Bus, CpuBus};
use crate::flags::{flag_set, lemma_flag_written, CpuFlags};
use crate::machine::{
    absolute_address, complete, execute, indirect_word, load, operand_address, program_image,
    reset, run, stack_address, step, wrap16, wrap8, zero_page_word, State, Status, PROGRAM_BASE,
    RESET_VECTOR, STACK_BASE, STACK_RESET, STATUS_RESET,
};
use crate::opcodes::{
    descriptor, lemma_rows_are_consistent, lookup, AddressingMode, Instruction, OpCode,
};
use crate::rom::Rom;

verus! {

/// The 6502 as the console uses it: the register file and the bus it drives.
pub struct CPU {
    pub program_counter: u16,
    pub stack_pointer: u8,
    pub register_a: u8,
    pub register_x: u8,
    pub register_y: u8,
    pub flags: CpuFlags,
    pub bus: Bus,
}

impl View for CPU {
    type V = State;

    open spec fn view(&self) -> State {
        State {
            a: self.register_a,
            x: self.register_x,
            y: self.register_y,
            sp: self.stack_pointer,
            pc: self.program_counter,
            p: self.flags.bits,
            mem: self.bus@,
        }
    }
}

/// The machine stands right behind a `BRK` that it has executed.
pub open spec fn stopped_at_break(s: State) -> bool {
    &&& s.mem.read(wrap16(s.pc - 1)) == 0x00
    &&& flag_set(s.p, CpuFlags::BREAK)
}

/// The machine stands at the byte `opcode`, which no table row describes.
pub open spec fn stopped_at_unknown(s: State, opcode: u8, pc: u16) -> bool {
    &&& s.pc == pc
    &&& s.mem.read(pc) == opcode
    &&& descriptor(opcode) is None
}

impl Default for CPU {
    /// A CPU on a bus with 2 KiB of cleared work RAM and no program ROM.
    fn default() -> (cpu: CPU)
        ensures
            cpu@.a == 0 && cpu@.x == 0 && cpu@.y == 0,
            cpu@.sp == STACK_RESET,
            cpu@.pc == 0,
            cpu@.p == STATUS_RESET,
            cpu@.mem.has_work_ram(),
            cpu@.mem.rom.len() == 0,
            forall|i: int| 0 <= i < cpu@.mem.ram.len() ==> cpu@.mem.ram[i] == 0,
    {
        CPU::new(Bus::default())
    }
}

impl CPU {
    /// A CPU on the given bus, in the state that a reset leaves, except that
    /// the program counter is zero until `reset` loads it.
    pub fn new(bus: Bus) -> (cpu: CPU)
        ensures
            cpu@ == (State {
                a: 0,
                x: 0,
                y: 0,
                sp: STACK_RESET,
                pc: 0,
                p: STATUS_RESET,
                mem: bus@,
            }),
    {
        CPU {
            program_counter: 0,
            stack_pointer: STACK_RESET,
            register_a: 0,
            register_x: 0,
            register_y: 0,
            flags: CpuFlags::from_bits_truncate(STATUS_RESET),
            bus,
        }
    }

    pub fn mem_read(&mut self, addr: u16) -> (data: u8)
        ensures
            data == old(self)@.mem.read(addr),
            final(self)@ == old(self)@,
    {
        self.bus.read(addr)
    }

    pub fn mem_write(&mut self, addr: u16, data: u8)
        ensures
            final(self)@ == (State { mem: old(self)@.mem.write(addr, data), ..old(self)@ }),
    {
        self.bus.write(addr, data);
    }

    pub fn mem_read_u16(&mut self, addr: u16) -> (data: u16)
        ensures
            data == old(self)@.mem.read_u16(addr),
            final(self)@ == old(self)@,
    {
        self.bus.read_u16(addr)
    }

    pub fn mem_write_u16(&mut self, addr: u16, data: u16)
        ensures
            final(self)@ == (State { mem: old(self)@.mem.write_u16(addr, data), ..old(self)@ }),
    {
        self.bus.write_u16(addr, data);
    }

    /// Puts `program` into the program ROM, from `0x8000` on, and the
    /// address `0x8000` into the reset vector. The registers, the work RAM
    /// and every other byte that the ROM window showed stay as they are.
    pub fn load(&mut self, program: Vec<u8>)
        requires
            program.len() <= 0x8000,
        ensures
            final(self)@ == load(old(self)@, program@),
    {
        let vector: u16 = RESET_VECTOR - PROGRAM_BASE;
        let mut image: Vec<u8> = Vec::new();
        let mut i: u16 = 0;
        while i < 0x8000
            invariant
                i <= 0x8000,
                vector == RESET_VECTOR - PROGRAM_BASE,
                self@ == old(self)@,
                image.len() == i,
                forall|k: int|
                    0 <= k < i ==> image[k] == program_image(old(self)@.mem, program@)[k],
            decreases 0x8000 - i,
        {
            let byte: u8 = if i == vector {
                low_byte(PROGRAM_BASE)
            } else if i == vector + 1 {
                high_byte(PROGRAM_BASE)
            } else if (i as usize) < program.len() {
                program[i as usize]
            } else {
                self.mem_read(PROGRAM_BASE + i)
            };
            image.push(byte);
            i += 1;
        }
        assert(image@ =~= program_image(old(self)@.mem, program@));
        self.bus.swap_rom(Rom::new(image));
    }

    /// Clears A, X and Y, puts the stack pointer and the status at their
    /// power-on values and loads the program counter from the reset vector.
    pub fn reset(&mut self)
        ensures
            final(self)@ == reset(old(self)@),
    {
        self.register_a = 0;
        self.register_x = 0;
        self.register_y = 0;
        self.stack_pointer = STACK_RESET;
        self.flags = CpuFlags::from_bits_truncate(STATUS_RESET);
        self.program_counter = self.mem_read_u16(RESET_VECTOR);
    }

    /// The zero-page address at `addr`, moved by `index` within the zero
    /// page.
    fn zero_page_indexed(&mut self, addr: u16, index: u8) -> (target: u16)
        ensures
            target == wrap8(old(self)@.mem.read(addr) + index),
            final(self)@ == old(self)@,
    {
        let pos: u8 = self.mem_read(addr);
        pos.wrapping_add(index) as u16
    }

    /// The word at `addr`, moved by `index` within the address space.
    fn absolute_indexed(&mut self, addr: u16, index: u8) -> (target: u16)
        ensures
            target == wrap16(old(self)@.mem.read_u16(addr) + index),
            final(self)@ == old(self)@,
    {
        let base: u16 = self.mem_read_u16(addr);
        base.wrapping_add(index as u16)
    }

    /// The word at the zero-page address `ptr`; its high byte is read from
    /// the zero page too.
    fn zero_page_pointer(&mut self, ptr: u8) -> (target: u16)
        ensures
            target == zero_page_word(old(self)@.mem, ptr),
            final(self)@ == old(self)@,
    {
        let lo: u8 = self.mem_read(ptr as u16);
        let hi: u8 = self.mem_read(ptr.wrapping_add(1) as u16);
        make_word(lo, hi)
    }

    /// The word at `ptr`; its high byte is read from the page of `ptr`.
    fn page_pointer(&mut self, ptr: u16) -> (target: u16)
        ensures
            target == indirect_word(old(self)@.mem, ptr),
            final(self)@ == old(self)@,
    {
        let lo: u8 = self.mem_read(ptr);
        let hi: u8 = self.mem_read(next_in_page(ptr));
        make_word(lo, hi)
    }

    /// The effective address of an instruction in mode `mode` whose operand
    /// bytes start at `addr`.
    pub fn get_absolute_address(&mut self, mode: &AddressingMode, addr: u16) -> (target: u16)
        requires
            mode.resolves(),
        ensures
            target == absolute_address(old(self)@, *mode, addr),
            final(self)@ == old(self)@,
    {
        match mode {
            AddressingMode::Immediate => addr,
            AddressingMode::ZeroPage => self.mem_read(addr) as u16,
            AddressingMode::ZeroPageX => {
                let index: u8 = self.register_x;
                self.zero_page_indexed(addr, index)
            },
            AddressingMode::ZeroPageY => {
                let index: u8 = self.register_y;
                self.zero_page_indexed(addr, index)
            },
            AddressingMode::Absolute => self.mem_read_u16(addr),
            AddressingMode::AbsoluteX => {
                let index: u8 = self.register_x;
                self.absolute_indexed(addr, index)
            },
            AddressingMode::AbsoluteY => {
                let index: u8 = self.register_y;
                self.absolute_indexed(addr, index)
            },
            AddressingMode::Indirect => {
                let ptr: u16 = self.mem_read_u16(addr);
                self.page_pointer(ptr)
            },
            AddressingMode::IndirectX => {
                let base: u8 = self.mem_read(addr);
                let ptr: u8 = base.wrapping_add(self.register_x);
                self.zero_page_pointer(ptr)
            },
            AddressingMode::IndirectY => {
                let ptr: u8 = self.mem_read(addr);
                let base: u16 = self.zero_page_pointer(ptr);
                base.wrapping_add(self.register_y as u16)
            },
            _ => addr,
        }
    }

    /// The effective address of the instruction whose operand bytes start
    /// at the program counter.
    pub fn get_operand_address(&mut self, mode: &AddressingMode) -> (target: u16)
        requires
            mode.resolves(),
        ensures
            target == operand_address(old(self)@, *mode),
            final(self)@ == old(self)@,
    {
        let addr: u16 = self.program_counter;
        self.get_absolute_address(mode, addr)
    }

    /// Pushes a byte. The write goes to page one, at the stack pointer,
    /// which then moves down by one and wraps within the page.
    pub fn stack_push(&mut self, data: u8)
        ensures
            final(self)@ == old(self)@.push(data),
            final(self)@.mem == old(self)@.mem.write(stack_address(old(self).stack_pointer), data),
            0x0100 <= stack_address(old(self).stack_pointer) <= 0x01FF,
    {
        let addr: u16 = STACK_BASE + self.stack_pointer as u16;
        self.mem_write(addr, data);
        self.stack_pointer = self.stack_pointer.wrapping_sub(1);
    }

    /// Pulls a byte. The stack pointer moves up by one, wrapping within
    /// page one, and the byte it then points at is read.
    pub fn stack_pop(&mut self) -> (data: u8)
        ensures
            final(self)@ == old(self)@.pull(),
            data == old(self)@.top(),
            data == old(self)@.mem.read(stack_address(final(self).stack_pointer)),
            0x0100 <= stack_address(final(self).stack_pointer) <= 0x01FF,
    {
        self.stack_pointer = self.stack_pointer.wrapping_add(1);
        let addr: u16 = STACK_BASE + self.stack_pointer as u16;
        self.mem_read(addr)
    }

    /// Pushes a word, high byte first.
    pub fn stack_push_u16(&mut self, data: u16)
        ensures
            final(self)@ == old(self)@.push_u16(data),
    {
        self.stack_push(high_byte(data));
        self.stack_push(low_byte(data));
    }

    /// Pulls a word, low byte first.
    pub fn stack_pop_u16(&mut self) -> (data: u16)
        ensures
            final(self)@ == old(self)@.pull().pull(),
            data == old(self)@.top_u16(),
    {
        let lo: u8 = self.stack_pop();
        let hi: u8 = self.stack_pop();
        make_word(lo, hi)
    }

    /// Carries out the instruction `op`, which was fetched from the address
    /// before the program counter, and moves the counter past its operand
    /// bytes unless the instruction set the counter itself. `BRK` halts.
    pub fn perform(&mut self, op: &OpCode) -> (status: Status)
        requires
            op.mnemonic.accepts(op.mode),
            1 <= op.len <= 3,
        ensures
            op.mnemonic is BRK ==> status is Halted && final(self)@ == execute(old(self)@, *op),
            !(op.mnemonic is BRK) ==> status is Running && final(self)@ == complete(
                old(self)@,
                *op,
            ),
    {
        let snapshot: u16 = self.program_counter;
        self.execute(op);
        match op.mnemonic {
            Instruction::BRK => Status::Halted,
            _ => {
                if self.program_counter == snapshot {
                    self.program_counter = snapshot.wrapping_add((op.len - 1) as u16);
                }
                Status::Running
            },
        }
    }

    /// One turn of the interpreter: fetches the byte at the program
    /// counter, looks it up, and carries the instruction out.
    pub fn step(&mut self) -> (status: Status)
        ensures
            (final(self)@, status) == step(old(self)@),
            status is Halted ==> stopped_at_break(final(self)@),
            status matches Status::Unrecognized { opcode, pc } ==> stopped_at_unknown(
                final(self)@,
                opcode,
                pc,
            ),
    {
        let pc: u16 = self.program_counter;
        let code: u8 = self.mem_read(pc);
        match lookup(code) {
            None => Status::Unrecognized { opcode: code, pc },
            Some(op) => {
                proof {
                    lemma_rows_are_consistent(code);
                    lemma_flag_written(self.flags.bits, CpuFlags::BREAK, true);
                }
                self.program_counter = pc.wrapping_add(1);
                self.perform(&op)
            },
        }
    }

    /// Runs the interpreter for at most `limit` instructions. It stops
    /// earlier at a `BRK` and at a byte that is no opcode; `Running` tells
    /// that all `limit` instructions completed.
    pub fn run_steps(&mut self, limit: u64) -> (status: Status)
        ensures
            (final(self)@, status) == run(old(self)@, limit as nat),
            status is Halted ==> stopped_at_break(final(self)@),
            status matches Status::Unrecognized { opcode, pc } ==> stopped_at_unknown(
                final(self)@,
                opcode,
                pc,
            ),
    {
        let mut left: u64 = limit;
        while left > 0
            invariant
                run(old(self)@, limit as nat) == run(self@, left as nat),
            decreases left,
        {
            let status = self.step();
            match status {
                Status::Running => {
                    left -= 1;
                },
                _ => {
                    return status;
                },
            }
        }
        Status::Running
    }

    /// Runs the interpreter until a `BRK` or a byte that is no opcode stops
    /// it. A program that does neither is given up after `u64::MAX`
    /// instructions, with `Running` as the outcome.
    pub fn run(&mut self) -> (status: Status)
        ensures
            (final(self)@, status) == run(old(self)@, u64::MAX as nat),
            status is Halted ==> stopped_at_break(final(self)@),
            status matches Status::Unrecognized { opcode, pc } ==> stopped_at_unknown(
                final(self)@,
                opcode,
                pc,
            ),
    {
        let observer = |cpu: &mut CPU|
            ensures
                final(cpu)@ == old(cpu)@,
            {};
        self.run_with_callback(observer)
    }

    /// Runs as `run` does and hands the CPU to `callback` after every
    /// instruction that completed, and so only in states that a completed
    /// instruction leaves. A run whose first turn halts or finds no opcode
    /// ends there, without a call of the callback; after any other first
    /// turn the callback has been called on the state that this turn left.
    /// The callback may change the CPU, so after a call of it the outcome
    /// describes only the turn that ended the run; with a callback that
    /// leaves the CPU as it found it the run is that of `run`.
    #[verifier::loop_isolation(false)]
    pub fn run_with_callback<F>(&mut self, mut callback: F) -> (status: Status) where
        F: FnMut(&mut CPU),

        requires
            forall|cpu: &mut CPU|
                (exists|before: State| #[trigger] step(before) == (cpu@, Status::Running))
                    ==> call_requires(callback, (cpu,)),
        ensures
            !(step(old(self)@).1 is Running) ==> (final(self)@, status) == step(old(self)@),
            step(old(self)@).1 is Running ==> exists|seen: &mut CPU|
                seen@ == step(old(self)@).0 && #[trigger] call_ensures(callback, (seen,), ()),
            status is Halted ==> stopped_at_break(final(self)@),
            status matches Status::Unrecognized { opcode, pc } ==> stopped_at_unknown(
                final(self)@,
                opcode,
                pc,
            ),
            (forall|cpu: &mut CPU| call_ensures(callback, (cpu,), ()) ==> final(cpu)@ == cpu@)
                ==> (final(self)@, status) == run(old(self)@, u64::MAX as nat),
    {
        let ghost observer = callback;
        let mut left: u64 = u64::MAX;
        while left > 0
            invariant
                callback == observer,
                left == u64::MAX ==> self@ == old(self)@,
                left < u64::MAX ==> step(old(self)@).1 is Running,
                left < u64::MAX ==> exists|seen: &mut CPU|
                    seen@ == step(old(self)@).0 && #[trigger] call_ensures(callback, (seen,), ()),
                (forall|cpu: &mut CPU| call_ensures(callback, (cpu,), ()) ==> final(cpu)@ == cpu@)
                    ==> run(old(self)@, u64::MAX as nat) == run(self@, left as nat),
            decreases left,
        {
            let ghost before = self@;
            let status = self.step();
            match status {
                Status::Running => {
                    assert(step(before) == (self@, Status::Running));
                    callback(self);
                    left -= 1;
                },
                _ => {
                    return status;
                },
            }
        }
        Status::Running
    }

    /// Loads `program`, resets the CPU and runs it.
    pub fn load_and_run(&mut self, program: Vec<u8>) -> (status: Status)
        requires
            program.len() <= 0x8000,
        ensures
            (final(self)@, status) == run(reset(load(old(self)@, program@)), u64::MAX as nat),
            status is Halted ==> stopped_at_break(final(self)@),
            status matches Status::Unrecognized { opcode, pc } ==> stopped_at_unknown(
                final(self)@,
                opcode,
                pc,
            ),
    {
        self.load(program);
        self.reset();
        self.run()
    }
}

/// The address after `ptr` in the page of `ptr`.
fn next_in_page(ptr: u16) -> (next: u16)
    ensures
        next == crate::machine::next_in_page(ptr),
{
    let bumped: u16 = ptr.wrapping_add(1);
    let next: u16 = (ptr & 0xFF00) | (bumped & 0x00FF);
    assert((ptr & 0xFF00) | (bumped & 0x00FF) == (ptr / 0x100) * 0x100 + (ptr % 0x100 + 1) % 0x100)
        by (bit_vector)
        requires
            ptr == 0xFFFF ==> bumped == 0,
            ptr != 0xFFFF ==> bumped == ptr + 1,
    ;
    next
}

} // verus!

use vstd::prelude::*;
use crate::ram::Ram;
use crate::rom::Rom;

verus! {

/// Size of the work RAM that the address decoding assumes.
pub const RAM_SIZE: u16 = 0x0800;

/// First address past the mirrors of the work RAM.
pub const RAM_END: u16 = 0x2000;

/// First address of the program ROM window.
pub const ROM_BASE: u16 = 0x8000;

/// First address of the upper half of the program ROM window.
pub const ROM_UPPER: u16 = 0xC000;

/// Largest ROM that is mirrored into the upper half of its window.
pub const ROM_BANK: usize = 0x4000;

/// What the CPU sees behind its address pins: the contents of the work RAM
/// and of the program ROM. Everything a bus access returns or changes is a
/// function of this value.
pub struct Memory {
    pub ram: Seq<u8>,
    pub rom: Seq<u8>,
}

/// The little-endian word made of a low and a high byte.
pub open spec fn word(lo: u8, hi: u8) -> u16 {
    (hi * 256 + lo) as u16
}

/// The address that follows `addr`, wrapping at the end of the address space.
pub open spec fn next_address(addr: u16) -> u16 {
    if addr == 0xFFFF {
        0
    } else {
        (addr + 1) as u16
    }
}

/// Position in the ROM that the address `addr` of the ROM window selects.
/// A ROM of at most 16 KiB appears twice, in both halves of the window.
pub open spec fn rom_offset(rom_len: nat, addr: u16) -> int {
    if addr >= ROM_UPPER && rom_len <= ROM_BANK {
        addr - ROM_UPPER
    } else {
        addr - ROM_BASE
    }
}

impl Memory {
    /// The work RAM has the 2 KiB that the address decoding assumes, so that
    /// every address below `0x2000` is backed by storage.
    pub open spec fn has_work_ram(self) -> bool {
        self.ram.len() == RAM_SIZE
    }

    /// The byte that a read of `addr` returns.
    ///
    /// Addresses below `0x2000` select the work RAM, which repeats every
    /// `0x0800` bytes; addresses from `0x8000` up select the program ROM.
    /// Everything else, and any position that the backing storage does not
    /// have, reads as zero.
    #[verifier::opaque]
    pub open spec fn read(self, addr: u16) -> u8 {
        if addr < RAM_END {
            let pos = addr % RAM_SIZE;
            if pos < self.ram.len() {
                self.ram[pos as int]
            } else {
                0
            }
        } else if addr < ROM_BASE {
            0
        } else {
            let pos = rom_offset(self.rom.len(), addr);
            if pos < self.rom.len() {
                self.rom[pos]
            } else {
                0
            }
        }
    }

    /// The memory after a write of `data` to `addr`: a write below `0x2000`
    /// lands in the work RAM, any other write is dropped.
    #[verifier::opaque]
    pub open spec fn write(self, addr: u16, data: u8) -> Memory {
        if addr < RAM_END && addr % RAM_SIZE < self.ram.len() {
            Memory { ram: self.ram.update((addr % RAM_SIZE) as int, data), rom: self.rom }
        } else {
            self
        }
    }

    /// The little-endian word at `addr` and the address after it.
    pub open spec fn read_u16(self, addr: u16) -> u16 {
        word(self.read(addr), self.read(next_address(addr)))
    }

    /// The memory after the low byte of `data` went to `addr` and the high
    /// byte to the address after it.
    pub open spec fn write_u16(self, addr: u16, data: u16) -> Memory {
        self.write(addr, (data % 256) as u8).write(next_address(addr), (data / 256) as u8)
    }
}

/// The work RAM repeats every `0x0800` bytes below `0x2000`.
pub proof fn lemma_ram_is_mirrored(mem: Memory, addr: u16)
    requires
        addr + RAM_SIZE < RAM_END,
    ensures
        mem.read((addr + RAM_SIZE) as u16) == mem.read(addr),
{
    reveal(Memory::read);
}

/// A ROM of at most 16 KiB shows in both halves of the ROM window.
pub proof fn lemma_small_rom_is_mirrored(mem: Memory, addr: u16)
    requires
        mem.rom.len() <= ROM_BANK,
        ROM_BASE <= addr < ROM_UPPER,
    ensures
        mem.read((addr + ROM_BANK) as u16) == mem.read(addr),
{
    reveal(Memory::read);
}

/// Between the work RAM and the program ROM nothing is mapped: every read
/// there gives zero.
pub proof fn lemma_unmapped_reads_zero(mem: Memory, addr: u16)
    requires
        RAM_END <= addr < ROM_BASE,
    ensures
        mem.read(addr) == 0,
{
    reveal(Memory::read);
}

/// A write outside the work RAM, to the program ROM in particular, changes
/// nothing.
pub proof fn lemma_write_outside_ram_is_dropped(mem: Memory, addr: u16, data: u8)
    requires
        addr >= RAM_END,
    ensures
        mem.write(addr, data) == mem,
{
    reveal(Memory::write);
}

/// No write changes the program ROM or the size of the work RAM.
pub proof fn lemma_write_keeps_shape(mem: Memory, addr: u16, data: u8)
    ensures
        mem.write(addr, data).rom == mem.rom,
        mem.write(addr, data).ram.len() == mem.ram.len(),
        mem.has_work_ram() ==> mem.write(addr, data).has_work_ram(),
{
    reveal(Memory::write);
}

/// A byte written to the work RAM is the byte read back from the same
/// address.
pub proof fn lemma_read_after_write(mem: Memory, addr: u16, data: u8)
    requires
        mem.has_work_ram(),
        addr < RAM_END,
    ensures
        mem.write(addr, data).read(addr) == data,
{
    reveal(Memory::read);
    reveal(Memory::write);
}

/// A write shows only at its own address and at the mirrors of it.
pub proof fn lemma_write_leaves_others(mem: Memory, addr: u16, data: u8, other: u16)
    requires
        addr >= RAM_END || other >= RAM_END || addr % RAM_SIZE != other % RAM_SIZE,
    ensures
        mem.write(addr, data).read(other) == mem.read(other),
{
    reveal(Memory::read);
    reveal(Memory::write);
}

/// A word written to the work RAM is the word read back from the same
/// address.
pub proof fn lemma_read_u16_after_write_u16(mem: Memory, addr: u16, data: u16)
    requires
        mem.has_work_ram(),
        addr < RAM_END - 1,
    ensures
        mem.write_u16(addr, data).read_u16(addr) == data,
{
    let lo = (data % 256) as u8;
    let hi = (data / 256) as u8;
    let first = mem.write(addr, lo);
    lemma_write_keeps_shape(mem, addr, lo);
    lemma_read_after_write(mem, addr, lo);
    lemma_read_after_write(first, next_address(addr), hi);
    lemma_write_leaves_others(first, next_address(addr), hi, addr);
}

/// What the CPU asks of a bus: byte and little-endian word access to the
/// whole 16-bit address space.
pub trait CpuBus {
    /// The memory behind the bus.
    spec fn memory(&self) -> Memory;

    fn read_u16(&mut self, addr: u16) -> (data: u16)
        ensures
            data == old(self).memory().read_u16(addr),
            final(self).memory() == old(self).memory(),
    ;

    fn read(&mut self, addr: u16) -> (data: u8)
        ensures
            data == old(self).memory().read(addr),
            final(self).memory() == old(self).memory(),
    ;

    fn write(&mut self, addr: u16, data: u8)
        ensures
            final(self).memory() == old(self).memory().write(addr, data),
    ;

    fn write_u16(&mut self, addr: u16, data: u16)
        ensures
            final(self).memory() == old(self).memory().write_u16(addr, data),
    ;
}

/// The bus of the console: it owns the work RAM and the program ROM and
/// decodes each address to one of them.
pub struct Bus {
    program_rom: Rom,
    work_ram: Ram,
}

impl View for Bus {
    type V = Memory;

    closed spec fn view(&self) -> Memory {
        Memory { ram: self.work_ram@, rom: self.program_rom@ }
    }
}

/// Joins a low and a high byte into a little-endian word.
pub fn make_word(lo: u8, hi: u8) -> (w: u16)
    ensures
        w == word(lo, hi),
{
    let w = (hi as u16) << 8 | (lo as u16);
    assert((hi as u16) << 8 | (lo as u16) == hi * 256 + lo) by (bit_vector);
    w
}

/// The low byte of a word.
pub fn low_byte(w: u16) -> (lo: u8)
    ensures
        lo == w % 256,
{
    let lo = (w & 0x00FF) as u8;
    assert(w & 0x00FF == w % 256) by (bit_vector);
    lo
}

/// The high byte of a word.
pub fn high_byte(w: u16) -> (hi: u8)
    ensures
        hi == w / 256,
{
    let hi = (w >> 8) as u8;
    assert(w >> 8 == w / 256) by (bit_vector);
    hi
}

impl Bus {
    pub fn new(program_rom: Rom, work_ram: Ram) -> (bus: Bus)
        ensures
            bus@ == (Memory { ram: work_ram@, rom: program_rom@ }),
    {
        Bus { program_rom, work_ram }
    }

    /// Replaces the program ROM and hands back the one that was plugged in.
    pub fn swap_rom(&mut self, program_rom: Rom) -> (previous: Rom)
        ensures
            final(self)@ == (Memory { ram: old(self)@.ram, rom: program_rom@ }),
            previous@ == old(self)@.rom,
    {
        let mut rom = program_rom;
        std::mem::swap(&mut self.program_rom, &mut rom);
        rom
    }

    fn read_rom(&self, addr: u16) -> (data: u8)
        requires
            addr >= ROM_BASE,
        ensures
            data == self@.read(addr),
    {
        reveal(Memory::read);
        let size = self.program_rom.size();
        let pos = if addr >= ROM_UPPER && size <= ROM_BANK {
            addr - ROM_UPPER
        } else {
            addr - ROM_BASE
        };
        if (pos as usize) < size {
            self.program_rom.read(pos)
        } else {
            0
        }
    }
}

impl Default for Bus {
    /// A bus with 2 KiB of cleared work RAM and no program ROM.
    fn default() -> (bus: Bus)
        ensures
            bus@.has_work_ram(),
            bus@.rom.len() == 0,
            forall|i: int| 0 <= i < RAM_SIZE ==> bus@.ram[i] == 0,
    {
        let mut cells: Vec<u8> = Vec::new();
        let mut i: u16 = 0;
        while i < RAM_SIZE
            invariant
                i <= RAM_SIZE,
                cells.len() == i,
                forall|k: int| 0 <= k < i ==> cells[k] == 0,
            decreases RAM_SIZE - i,
        {
            cells.push(0);
            i += 1;
        }
        Bus::new(Rom::new(Vec::new()), Ram::new(cells))
    }
}

impl CpuBus for Bus {
    open spec fn memory(&self) -> Memory {
        self@
    }

    fn read_u16(&mut self, addr: u16) -> (data: u16) {
        let lo = self.read(addr);
        let hi = self.read(addr.wrapping_add(1));
        make_word(lo, hi)
    }

    fn read(&mut self, addr: u16) -> (data: u8) {
        reveal(Memory::read);
        if addr < RAM_END {
            let pos = addr & 0x07FF;
            assert(addr & 0x07FF == addr % 0x0800) by (bit_vector);
            if (pos as usize) < self.work_ram.size() {
                self.work_ram.read(pos)
            } else {
                0
            }
        } else if addr < ROM_BASE {
            0
        } else {
            self.read_rom(addr)
        }
    }

    fn write(&mut self, addr: u16, data: u8) {
        reveal(Memory::write);
        if addr < RAM_END {
            let pos = addr & 0x07FF;
            assert(addr & 0x07FF == addr % 0x0800) by (bit_vector);
            if (pos as usize) < self.work_ram.size() {
                self.work_ram.write(pos, data);
            }
        }
    }

    fn write_u16(&mut self, addr: u16, data: u16) {
        self.write(addr, low_byte(data));
        self.write(addr.wrapping_add(1), high_byte(data));
    }
}

} // verus!

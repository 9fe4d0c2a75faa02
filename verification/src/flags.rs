use vstd::prelude::*;

verus! {

/// The processor status register `P`.
///
/// ```text
///  7 6 5 4 3 2 1 0
///  N V U B D I Z C
/// ```
///
/// Every bit of the byte is a named flag, so any `u8` is a valid register
/// value and the view of the register is the byte itself.
#[derive(Clone, Copy, Debug, PartialEq, Eq, Structural)]
pub struct CpuFlags {
    pub bits: u8,
}

/// Whether every bit of `flag` is set in the status byte `p`.
pub open spec fn flag_set(p: u8, flag: u8) -> bool {
    p & flag == flag
}

/// The status byte `p` with the bits of `flag` switched on or off.
pub open spec fn with_flag(p: u8, flag: u8, on: bool) -> u8 {
    if on {
        p | flag
    } else {
        p & !flag
    }
}

/// The status byte after the compound update that follows a result `value`:
/// Z tells whether the value is zero, N is its bit 7.
pub open spec fn with_zero_negative(p: u8, value: u8) -> u8 {
    with_flag(with_flag(p, CpuFlags::ZERO, value == 0), CpuFlags::NEGATIV, value >= 0x80)
}

/// The masks that name exactly one bit of the status byte.
pub open spec fn is_single_flag(flag: u8) -> bool {
    ||| flag == CpuFlags::CARRY
    ||| flag == CpuFlags::ZERO
    ||| flag == CpuFlags::INTERRUPT_DISABLE
    ||| flag == CpuFlags::DECIMAL_MODE
    ||| flag == CpuFlags::BREAK
    ||| flag == CpuFlags::RESERVED
    ||| flag == CpuFlags::OVERFLOW
    ||| flag == CpuFlags::NEGATIV
}

/// Z and N of the status byte `p` describe the byte `value`.
pub open spec fn zero_negative_reflect(p: u8, value: u8) -> bool {
    &&& flag_set(p, CpuFlags::ZERO) == (value == 0)
    &&& flag_set(p, CpuFlags::NEGATIV) == (value >= 0x80)
}

impl CpuFlags {
    pub const CARRY: u8 = 0b0000_0001;

    pub const ZERO: u8 = 0b0000_0010;

    pub const INTERRUPT_DISABLE: u8 = 0b0000_0100;

    pub const DECIMAL_MODE: u8 = 0b0000_1000;

    pub const BREAK: u8 = 0b0001_0000;

    pub const RESERVED: u8 = 0b0010_0000;

    pub const OVERFLOW: u8 = 0b0100_0000;

    pub const NEGATIV: u8 = 0b1000_0000;

    /// Spec counterpart of [`CpuFlags::contains`].
    pub open spec fn has(self, flag: u8) -> bool {
        flag_set(self.bits, flag)
    }

    /// Builds the register from a raw byte. All eight bits are named flags,
    /// so nothing is cut off.
    pub fn from_bits_truncate(bits: u8) -> (flags: CpuFlags)
        ensures
            flags.bits == bits,
    {
        CpuFlags { bits }
    }

    pub fn bits(&self) -> (bits: u8)
        ensures
            bits == self.bits,
    {
        self.bits
    }

    pub fn contains(&self, flag: u8) -> (present: bool)
        ensures
            present == flag_set(self.bits, flag),
    {
        self.bits & flag == flag
    }

    pub fn insert(&mut self, flag: u8)
        ensures
            final(self).bits == with_flag(old(self).bits, flag, true),
    {
        self.bits = self.bits | flag;
    }

    pub fn remove(&mut self, flag: u8)
        ensures
            final(self).bits == with_flag(old(self).bits, flag, false),
    {
        self.bits = self.bits & !flag;
    }

    pub fn set(&mut self, flag: u8, value: bool)
        ensures
            final(self).bits == with_flag(old(self).bits, flag, value),
    {
        if value {
            self.insert(flag);
        } else {
            self.remove(flag);
        }
    }

    /// Sets Z iff `value` is zero and N iff bit 7 of `value` is one; the other
    /// six flags keep their state.
    pub fn update_zero_and_negative(&mut self, value: u8)
        ensures
            final(self).bits == with_zero_negative(old(self).bits, value),
            zero_negative_reflect(final(self).bits, value),
            forall|flag: u8|
                #![trigger flag_set(final(self).bits, flag)]
                is_single_flag(flag) && flag != CpuFlags::ZERO && flag != CpuFlags::NEGATIV
                    ==> flag_set(final(self).bits, flag) == flag_set(old(self).bits, flag),
    {
        proof {
            lemma_bit_seven(value);
            lemma_zero_negative(self.bits, value);
        }
        self.set(CpuFlags::ZERO, value == 0);
        self.set(CpuFlags::NEGATIV, value & 0x80 != 0);
    }
}

/// Bit 7 of a byte is set exactly when the byte is at least `0x80`.
pub proof fn lemma_bit_seven(value: u8)
    by (bit_vector)
    ensures
        (value & 0x80 != 0) == (value >= 0x80),
        (value & 0x80 == 0x80) == (value >= 0x80),
        (value >> 7 == 1) == (value >= 0x80),
{
}

proof fn lemma_flag_bits(p: u8, flag: u8, other: u8)
    by (bit_vector)
    requires
        flag == 1 || flag == 2 || flag == 4 || flag == 8 || flag == 16 || flag == 32 || flag == 64
            || flag == 128,
        other == 1 || other == 2 || other == 4 || other == 8 || other == 16 || other == 32 || other
            == 64 || other == 128,
    ensures
        (p | flag) & flag == flag,
        (p & !flag) & flag != flag,
        flag != other ==> (((p | flag) & other == other) == (p & other == other)),
        flag != other ==> (((p & !flag) & other == other) == (p & other == other)),
{
}

/// Reading a flag straight after switching it gives the value it was
/// switched to.
pub proof fn lemma_flag_written(p: u8, flag: u8, on: bool)
    requires
        is_single_flag(flag),
    ensures
        flag_set(with_flag(p, flag, on), flag) == on,
{
    lemma_flag_bits(p, flag, flag);
}

/// Switching one flag leaves every other flag as it was.
pub proof fn lemma_flag_kept(p: u8, flag: u8, on: bool, other: u8)
    requires
        is_single_flag(flag),
        is_single_flag(other),
        flag != other,
    ensures
        flag_set(with_flag(p, flag, on), other) == flag_set(p, other),
{
    lemma_flag_bits(p, flag, other);
}

/// After the compound update Z holds exactly when the value is zero and N
/// exactly when it is `0x80` or more; no other flag moves.
pub proof fn lemma_zero_negative(p: u8, value: u8)
    ensures
        zero_negative_reflect(with_zero_negative(p, value), value),
        forall|flag: u8|
            #![trigger flag_set(with_zero_negative(p, value), flag)]
            is_single_flag(flag) && flag != CpuFlags::ZERO && flag != CpuFlags::NEGATIV
                ==> flag_set(with_zero_negative(p, value), flag) == flag_set(p, flag),
{
    let zeroed = with_flag(p, CpuFlags::ZERO, value == 0);
    lemma_flag_written(p, CpuFlags::ZERO, value == 0);
    lemma_flag_kept(zeroed, CpuFlags::NEGATIV, value >= 0x80, CpuFlags::ZERO);
    lemma_flag_written(zeroed, CpuFlags::NEGATIV, value >= 0x80);
    assert forall|flag: u8|
        is_single_flag(flag) && flag != CpuFlags::ZERO && flag != CpuFlags::NEGATIV
        implies flag_set(with_zero_negative(p, value), flag) == flag_set(p, flag) by {
        lemma_flag_kept(p, CpuFlags::ZERO, value == 0, flag);
        lemma_flag_kept(zeroed, CpuFlags::NEGATIV, value >= 0x80, flag);
    }
}

} // verus!

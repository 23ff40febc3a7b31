//! The register file of the processor and the flag byte.
use vstd::prelude::*;

verus! {

/// Mask of the zero flag in F.
pub const FLAG_ZERO: u8 = 0x80;

/// Mask of the subtract flag in F.
pub const FLAG_SUB: u8 = 0x40;

/// Mask of the half-carry flag in F.
pub const FLAG_HALF: u8 = 0x20;

/// Mask of the carry flag in F.
pub const FLAG_CARRY: u8 = 0x10;

/// The four condition flags, unpacked from the upper nibble of F.
#[derive(Clone, Copy, Debug, PartialEq, Eq, Structural)]
pub struct Flags {
    pub zero: bool,
    pub sub: bool,
    pub half: bool,
    pub carry: bool,
}

impl Flags {
    /// The flag byte: Z at 0x80, N at 0x40, H at 0x20, C at 0x10, low nibble zero.
    #[verifier::opaque]
    pub open spec fn byte(self) -> u8 {
        ((if self.zero { 0x80int } else { 0 }) + (if self.sub { 0x40int } else { 0 }) + (if self.half {
            0x20int
        } else {
            0
        }) + (if self.carry { 0x10int } else { 0 })) as u8
    }

    /// The flags that a byte of F holds; its low nibble is not looked at.
    #[verifier::opaque]
    pub open spec fn of_byte(f: u8) -> Flags {
        Flags {
            zero: (f / 0x80) % 2 == 1,
            sub: (f / 0x40) % 2 == 1,
            half: (f / 0x20) % 2 == 1,
            carry: (f / 0x10) % 2 == 1,
        }
    }

    /// Packs the flags into a byte of F.
    pub fn pack(self) -> (f: u8)
        ensures
            f == self.byte(),
            f % 16 == 0,
    {
        reveal(Flags::byte);
        let z: u8 = if self.zero { 0x80 } else { 0 };
        let n: u8 = if self.sub { 0x40 } else { 0 };
        let h: u8 = if self.half { 0x20 } else { 0 };
        let c: u8 = if self.carry { 0x10 } else { 0 };
        z + n + h + c
    }

    /// Unpacks the flags from a byte of F.
    pub fn unpack(f: u8) -> (flags: Flags)
        ensures
            flags == Flags::of_byte(f),
    {
        reveal(Flags::of_byte);
        Flags {
            zero: (f / 0x80) % 2 == 1,
            sub: (f / 0x40) % 2 == 1,
            half: (f / 0x20) % 2 == 1,
            carry: (f / 0x10) % 2 == 1,
        }
    }
}

/// Packing and unpacking are inverse to each other: every set of flags is
/// read back from its byte, and a byte with a clear low nibble is rebuilt
/// from its flags.
pub proof fn flags_roundtrip(flags: Flags, f: u8)
    ensures
        Flags::of_byte(flags.byte()) == flags,
        flags.byte() % 16 == 0,
        f % 16 == 0 ==> Flags::of_byte(f).byte() == f,
{
    reveal(Flags::byte);
    reveal(Flags::of_byte);
}

/// The unpacked flags are the mask tests on the byte.
pub proof fn flags_are_mask_tests(f: u8)
    ensures
        Flags::of_byte(f).zero == (f & FLAG_ZERO == FLAG_ZERO),
        Flags::of_byte(f).sub == (f & FLAG_SUB == FLAG_SUB),
        Flags::of_byte(f).half == (f & FLAG_HALF == FLAG_HALF),
        Flags::of_byte(f).carry == (f & FLAG_CARRY == FLAG_CARRY),
        (f % 16 == 0) == (f & 0x0F == 0),
{
    reveal(Flags::of_byte);
    assert(((f / 0x80) % 2 == 1) == (f & 0x80 == 0x80) && ((f / 0x40) % 2 == 1) == (f & 0x40
        == 0x40) && ((f / 0x20) % 2 == 1) == (f & 0x20 == 0x20) && ((f / 0x10) % 2 == 1) == (f
        & 0x10 == 0x10) && (f % 16 == 0) == (f & 0x0F == 0)) by (bit_vector);
}

/// Eight 8-bit registers and the two 16-bit registers SP and PC.
pub struct Registers {
    pub a: u8,
    pub b: u8,
    pub c: u8,
    pub d: u8,
    pub e: u8,
    pub f: u8,
    pub h: u8,
    pub l: u8,
    pub sp: u16,
    pub pc: u16,
}

/// The 16-bit value whose high byte is `hi` and whose low byte is `lo`.
pub open spec fn pair_of(hi: u8, lo: u8) -> u16 {
    (hi as int * 256 + lo as int) as u16
}

/// The high byte of a 16-bit value.
pub open spec fn high_byte(val: u16) -> u8 {
    (val / 256) as u8
}

/// The low byte of a 16-bit value.
pub open spec fn low_byte(val: u16) -> u8 {
    (val % 256) as u8
}

/// Joins a high and a low byte.
pub fn join(hi: u8, lo: u8) -> (val: u16)
    ensures
        val == pair_of(hi, lo),
        high_byte(val) == hi,
        low_byte(val) == lo,
{
    (hi as u16) * 256 + (lo as u16)
}

/// Splits a 16-bit value into its high and its low byte.
pub fn split(val: u16) -> (bytes: (u8, u8))
    ensures
        bytes.0 == high_byte(val),
        bytes.1 == low_byte(val),
        pair_of(bytes.0, bytes.1) == val,
{
    ((val / 256) as u8, (val % 256) as u8)
}

impl Default for Registers {
    fn default() -> (regs: Registers)
        ensures
            regs == Registers::reset(),
    {
        Registers { a: 0, b: 0, c: 0, d: 0, e: 0, f: 0, h: 0, l: 0, sp: 0, pc: 0 }
    }
}

impl Registers {
    /// The power-on register file: every register is zero.
    pub open spec fn reset() -> Registers {
        Registers { a: 0, b: 0, c: 0, d: 0, e: 0, f: 0, h: 0, l: 0, sp: 0, pc: 0 }
    }

    /// The low nibble of F is zero.
    pub open spec fn wf(self) -> bool {
        self.f % 16 == 0
    }

    /// A as the high byte and F as the low byte.
    pub open spec fn af(self) -> u16 {
        pair_of(self.a, self.f)
    }

    /// B as the high byte and C as the low byte.
    pub open spec fn bc(self) -> u16 {
        pair_of(self.b, self.c)
    }

    /// D as the high byte and E as the low byte.
    pub open spec fn de(self) -> u16 {
        pair_of(self.d, self.e)
    }

    /// H as the high byte and L as the low byte.
    pub open spec fn hl(self) -> u16 {
        pair_of(self.h, self.l)
    }

    /// A takes the high byte; F takes the upper nibble of the low byte.
    pub open spec fn with_af(self, val: u16) -> Registers {
        Registers { a: high_byte(val), f: (low_byte(val) / 16 * 16) as u8, ..self }
    }

    /// B takes the high byte, C the low byte.
    pub open spec fn with_bc(self, val: u16) -> Registers {
        Registers { b: high_byte(val), c: low_byte(val), ..self }
    }

    /// D takes the high byte, E the low byte.
    pub open spec fn with_de(self, val: u16) -> Registers {
        Registers { d: high_byte(val), e: low_byte(val), ..self }
    }

    /// H takes the high byte, L the low byte.
    pub open spec fn with_hl(self, val: u16) -> Registers {
        Registers { h: high_byte(val), l: low_byte(val), ..self }
    }

    /// The condition flags that F holds.
    pub open spec fn flags(self) -> Flags {
        Flags::of_byte(self.f)
    }

    /// F holding `flags`.
    pub open spec fn with_flags(self, flags: Flags) -> Registers {
        Registers { f: flags.byte(), ..self }
    }

    /// Tells whether the register file is well formed.
    pub fn is_well_formed(&self) -> (ok: bool)
        ensures
            ok == self.wf(),
    {
        self.f % 16 == 0
    }

    /// Writes a 16-bit value to A and F.
    pub fn set_af(&mut self, val: u16)
        ensures
            *final(self) == old(self).with_af(val),
            final(self).wf(),
    {
        let (hi, lo) = split(val);
        self.a = hi;
        self.f = lo / 16 * 16;
    }

    /// Writes a 16-bit value to B and C.
    pub fn set_bc(&mut self, val: u16)
        ensures
            *final(self) == old(self).with_bc(val),
    {
        let (hi, lo) = split(val);
        self.b = hi;
        self.c = lo;
    }

    /// Writes a 16-bit value to D and E.
    pub fn set_de(&mut self, val: u16)
        ensures
            *final(self) == old(self).with_de(val),
    {
        let (hi, lo) = split(val);
        self.d = hi;
        self.e = lo;
    }

    /// Writes a 16-bit value to H and L.
    pub fn set_hl(&mut self, val: u16)
        ensures
            *final(self) == old(self).with_hl(val),
    {
        let (hi, lo) = split(val);
        self.h = hi;
        self.l = lo;
    }

    /// Reads A and F as a 16-bit value.
    pub fn get_af(&self) -> (val: u16)
        ensures
            val == self.af(),
    {
        join(self.a, self.f)
    }

    /// Reads B and C as a 16-bit value.
    pub fn get_bc(&self) -> (val: u16)
        ensures
            val == self.bc(),
    {
        join(self.b, self.c)
    }

    /// Reads D and E as a 16-bit value.
    pub fn get_de(&self) -> (val: u16)
        ensures
            val == self.de(),
    {
        join(self.d, self.e)
    }

    /// Reads H and L as a 16-bit value.
    pub fn get_hl(&self) -> (val: u16)
        ensures
            val == self.hl(),
    {
        join(self.h, self.l)
    }

    /// Reads the condition flags.
    pub fn get_flags(&self) -> (flags: Flags)
        ensures
            flags == self.flags(),
    {
        Flags::unpack(self.f)
    }

    /// Writes the condition flags.
    pub fn set_flags(&mut self, flags: Flags)
        ensures
            *final(self) == old(self).with_flags(flags),
            final(self).wf(),
    {
        self.f = flags.pack();
    }

    /// Whether every bit of `flag` is set in F.
    pub fn isset_flag(&self, flag: u8) -> (set: bool)
        ensures
            set == (self.f & flag == flag),
    {
        self.f & flag == flag
    }

    /// Sets the bits of `flag` in F; bits of the low nibble are dropped.
    pub fn toggle_flag(&mut self, flag: u8)
        ensures
            *final(self) == (Registers { f: (old(self).f | flag) & 0xF0, ..*old(self) }),
            final(self).wf(),
    {
        let f: u8 = self.f;
        assert(((f | flag) & 0xF0) % 16 == 0) by (bit_vector);
        self.f = (f | flag) & 0xF0;
    }

    /// Clears the bits of `flag` in F.
    pub fn clear_flag(&mut self, flag: u8)
        ensures
            *final(self) == (Registers { f: old(self).f & !flag, ..*old(self) }),
            old(self).wf() ==> final(self).wf(),
    {
        let f: u8 = self.f;
        assert(f % 16 == 0 ==> (f & !flag) % 16 == 0) by (bit_vector);
        self.f = self.f & !flag;
    }

    /// Sets the zero flag when `value` is zero, and leaves F alone otherwise.
    pub fn toggle_zero_flag(&mut self, value: u8)
        ensures
            *final(self) == (Registers {
                f: if value == 0 {
                    (old(self).f | FLAG_ZERO) & 0xF0
                } else {
                    old(self).f
                },
                ..*old(self)
            }),
    {
        if value == 0 {
            self.toggle_flag(FLAG_ZERO);
        }
    }

    /// Sets the carry flag when bit 8 of `value` is set.
    pub fn toggle_carry_flag(&mut self, value: u32)
        ensures
            *final(self) == (Registers {
                f: if value & 0x100 != 0 {
                    (old(self).f | FLAG_CARRY) & 0xF0
                } else {
                    old(self).f
                },
                ..*old(self)
            }),
    {
        if (value & 0x100) != 0 {
            self.toggle_flag(FLAG_CARRY);
        }
    }

    /// Sets the half-carry flag when bit 4 of `value` is set.
    pub fn toggle_half_flag(&mut self, value: u32)
        ensures
            *final(self) == (Registers {
                f: if value & 0x10 != 0 {
                    (old(self).f | FLAG_HALF) & 0xF0
                } else {
                    old(self).f
                },
                ..*old(self)
            }),
    {
        if (value & 0x10) != 0 {
            self.toggle_flag(FLAG_HALF);
        }
    }
}

/// Writing a register pair and reading it back gives the value written, but
/// for AF, where the low nibble of F reads as zero.
pub proof fn pair_write_then_read(regs: Registers, val: u16)
    ensures
        regs.with_af(val).af() == val & 0xFFF0,
        regs.with_bc(val).bc() == val & 0xFFFF,
        regs.with_de(val).de() == val & 0xFFFF,
        regs.with_hl(val).hl() == val & 0xFFFF,
        regs.with_af(val).wf(),
{
    assert(val & 0xFFFF == val) by (bit_vector);
    assert(((val / 256) * 256 + ((val % 256) / 16 * 16)) == val & 0xFFF0) by (bit_vector);
}

} // verus!

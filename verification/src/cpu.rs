//! The processor: its state, and the operations that instructions are made
//! of, each a step from one processor state to the next.
use vstd::prelude::*;
use crate::alu::add16_result;
use crate::alu::add_result;
use crate::alu::add_sp_result;
use crate::alu::alu_add;
use crate::alu::alu_add16;
use crate::alu::alu_add_sp;
use crate::alu::alu_and;
use crate::alu::alu_bit;
use crate::alu::alu_cpl;
use crate::alu::alu_daa;
use crate::alu::alu_dec;
use crate::alu::alu_dec16;
use crate::alu::alu_inc;
use crate::alu::alu_inc16;
use crate::alu::alu_or;
use crate::alu::alu_res;
use crate::alu::alu_set;
use crate::alu::alu_sub;
use crate::alu::alu_xor;
use crate::alu::and_result;
use crate::alu::bit_result;
use crate::alu::ccf_result;
use crate::alu::cpl_result;
use crate::alu::daa_result;
use crate::alu::dec16_result;
use crate::alu::dec_result;
use crate::alu::inc16_result;
use crate::alu::inc_result;
use crate::alu::or_result;
use crate::alu::res_result;
use crate::alu::scf_result;
use crate::alu::set_result;
use crate::alu::sub_result;
use crate::alu::xor_result;
use crate::memory::Memory;
use crate::memory::next_addr;
use crate::registers::Flags;
use crate::registers::Registers;

verus! {

pub struct Cpu {
    pub regs: Registers,
    pub mem: Memory,
    /// IME: interrupts may be served.
    pub interrupts: bool,
    /// The processor is running; HALT and STOP clear this.
    pub enabled: bool,
    /// The processor was parked by STOP, which the joypad alone ends.
    pub stopped: bool,
}

/// An address moved up by `n`, modulo 65536.
pub open spec fn addr_plus(addr: u16, n: int) -> u16 {
    ((addr + n) % 0x1_0000) as u16
}

impl Default for Cpu {
    fn default() -> (cpu: Cpu)
        ensures
            cpu == Cpu::reset(),
            cpu.wf(),
    {
        Cpu {
            regs: Default::default(),
            mem: Default::default(),
            interrupts: false,
            enabled: true,
            stopped: false,
        }
    }
}

impl Cpu {
    /// The processor at power-on: registers zero, interrupts off, running.
    pub open spec fn reset() -> Cpu {
        Cpu {
            regs: Registers::reset(),
            mem: Memory::reset(),
            interrupts: false,
            enabled: true,
            stopped: false,
        }
    }

    /// Registers and address space are well formed.
    pub open spec fn wf(self) -> bool {
        self.regs.wf() && self.mem.wf()
    }

    /// The condition flags that F holds.
    pub open spec fn flags(self) -> Flags {
        self.regs.flags()
    }

    /// The processor with F holding `flags`.
    pub open spec fn with_flags(self, flags: Flags) -> Cpu {
        Cpu { regs: self.regs.with_flags(flags), ..self }
    }

    /// The processor with A holding `a`.
    pub open spec fn with_a(self, a: u8) -> Cpu {
        Cpu { regs: Registers { a, ..self.regs }, ..self }
    }

    /// A and the flags taken from the result of an operation.
    pub open spec fn with_a_flags(self, r: (u8, Flags)) -> Cpu {
        self.with_a(r.0).with_flags(r.1)
    }

    /// The processor with PC at `pc`.
    pub open spec fn with_pc(self, pc: u16) -> Cpu {
        Cpu { regs: Registers { pc, ..self.regs }, ..self }
    }

    /// The processor with SP at `sp`.
    pub open spec fn with_sp(self, sp: u16) -> Cpu {
        Cpu { regs: Registers { sp, ..self.regs }, ..self }
    }

    /// The processor with HL holding `val`.
    pub open spec fn with_hl(self, val: u16) -> Cpu {
        Cpu { regs: self.regs.with_hl(val), ..self }
    }

    /// The processor after a write of one byte.
    pub open spec fn written8(self, addr: u16, val: u8) -> Cpu {
        Cpu { mem: self.mem.after_write8(addr, val), ..self }
    }

    /// The processor after a write of two bytes, low byte first.
    pub open spec fn written16(self, addr: u16, val: u16) -> Cpu {
        Cpu { mem: self.mem.after_write16(addr, val), ..self }
    }

    /// The byte at PC.
    pub open spec fn imm8(self) -> u8 {
        self.mem.byte_at(self.regs.pc)
    }

    /// The 16-bit value at PC, low byte first.
    pub open spec fn imm16(self) -> u16 {
        self.mem.word_at(self.regs.pc)
    }

    /// PC moved up by `n`, modulo 65536.
    pub open spec fn skip(self, n: int) -> Cpu {
        self.with_pc(addr_plus(self.regs.pc, n))
    }

    /// SP lowered by two and the value stored there.
    pub open spec fn pushed(self, val: u16) -> Cpu {
        let sp = addr_plus(self.regs.sp, -2);
        self.with_sp(sp).written16(sp, val)
    }

    /// The 16-bit value on top of the stack.
    pub open spec fn top(self) -> u16 {
        self.mem.word_at(self.regs.sp)
    }

    /// SP raised by two.
    pub open spec fn popped(self) -> Cpu {
        self.with_sp(addr_plus(self.regs.sp, 2))
    }

    /// The carry that an operation takes in.
    pub open spec fn carry_for(self, use_carry: bool) -> bool {
        use_carry && self.flags().carry
    }

    /// The memory word at `addr` raised by `value`, with the flags of a
    /// 16-bit addition.
    pub open spec fn after_add16(self, addr: u16, value: u16) -> Cpu {
        let r = add16_result(self.mem.word_at(addr), value, self.flags());
        self.with_flags(r.1).written16(addr, r.0)
    }

    /// Tells whether the processor is well formed.
    pub fn is_well_formed(&self) -> (ok: bool)
        ensures
            ok == self.wf(),
    {
        self.regs.is_well_formed() && self.mem.is_well_formed()
    }

    /// Adds `value`, and the carry if `use_carry` asks for it, to A.
    pub fn add8(&mut self, value: u8, use_carry: bool)
        ensures
            *final(self) == old(self).with_a_flags(
                add_result(old(self).regs.a, value, old(self).carry_for(use_carry)),
            ),
            old(self).mem.wf() ==> final(self).wf(),
    {
        let cin: bool = use_carry && self.regs.get_flags().carry;
        let (a, flags) = alu_add(self.regs.a, value, cin);
        self.regs.a = a;
        self.regs.set_flags(flags);
    }

    /// ADD HL,rr.
    pub fn add_hl(&mut self, value: u16)
        ensures
            *final(self) == old(self).with_hl(
                add16_result(old(self).regs.hl(), value, old(self).flags()).0,
            ).with_flags(add16_result(old(self).regs.hl(), value, old(self).flags()).1),
            old(self).mem.wf() ==> final(self).wf(),
    {
        let (hl, flags) = alu_add16(self.regs.get_hl(), value, self.regs.get_flags());
        self.regs.set_hl(hl);
        self.regs.set_flags(flags);
    }

    /// Adds `value` to the 16-bit word in memory at `addr`.
    pub fn add16(&mut self, addr: u16, value: u16)
        ensures
            *final(self) == old(self).after_add16(addr, value),
            old(self).mem.wf() ==> final(self).wf(),
    {
        let mem_value: u16 = self.mem.read16(addr);
        let (sum, flags) = alu_add16(mem_value, value, self.regs.get_flags());
        self.regs.set_flags(flags);
        self.mem.write16(addr, sum);
    }

    /// ADD SP,e.
    pub fn add_sp(&mut self, value: u8)
        ensures
            *final(self) == old(self).with_sp(add_sp_result(old(self).regs.sp, value).0).with_flags(
                add_sp_result(old(self).regs.sp, value).1,
            ),
            old(self).mem.wf() ==> final(self).wf(),
    {
        let (sp, flags) = alu_add_sp(self.regs.sp, value);
        self.regs.sp = sp;
        self.regs.set_flags(flags);
    }

    /// Takes `value`, and the carry if `use_carry` asks for it, from A.
    pub fn sub8(&mut self, value: u8, use_carry: bool)
        ensures
            *final(self) == old(self).with_a_flags(
                sub_result(old(self).regs.a, value, old(self).carry_for(use_carry)),
            ),
            old(self).mem.wf() ==> final(self).wf(),
    {
        let cin: bool = use_carry && self.regs.get_flags().carry;
        let (a, flags) = alu_sub(self.regs.a, value, cin);
        self.regs.a = a;
        self.regs.set_flags(flags);
    }

    /// ADD A,value.
    pub fn add_imm(&mut self, value: u8)
        ensures
            *final(self) == old(self).with_a_flags(add_result(old(self).regs.a, value, false)),
            old(self).mem.wf() ==> final(self).wf(),
    {
        self.add8(value, false);
    }

    /// ADC A,value.
    pub fn adc_imm(&mut self, value: u8)
        ensures
            *final(self) == old(self).with_a_flags(
                add_result(old(self).regs.a, value, old(self).flags().carry),
            ),
            old(self).mem.wf() ==> final(self).wf(),
    {
        self.add8(value, true);
    }

    /// SUB value.
    pub fn sub_imm(&mut self, value: u8)
        ensures
            *final(self) == old(self).with_a_flags(sub_result(old(self).regs.a, value, false)),
            old(self).mem.wf() ==> final(self).wf(),
    {
        self.sub8(value, false);
    }

    /// SBC A,value.
    pub fn sbc_imm(&mut self, value: u8)
        ensures
            *final(self) == old(self).with_a_flags(
                sub_result(old(self).regs.a, value, old(self).flags().carry),
            ),
            old(self).mem.wf() ==> final(self).wf(),
    {
        self.sub8(value, true);
    }

    /// AND value.
    pub fn and_imm(&mut self, value: u8)
        ensures
            *final(self) == old(self).with_a_flags(and_result(old(self).regs.a, value)),
            old(self).mem.wf() ==> final(self).wf(),
    {
        let (a, flags) = alu_and(self.regs.a, value);
        self.regs.a = a;
        self.regs.set_flags(flags);
    }

    /// XOR value.
    pub fn xor_imm(&mut self, value: u8)
        ensures
            *final(self) == old(self).with_a_flags(xor_result(old(self).regs.a, value)),
            old(self).mem.wf() ==> final(self).wf(),
    {
        let (a, flags) = alu_xor(self.regs.a, value);
        self.regs.a = a;
        self.regs.set_flags(flags);
    }

    /// OR value.
    pub fn or_imm(&mut self, value: u8)
        ensures
            *final(self) == old(self).with_a_flags(or_result(old(self).regs.a, value)),
            old(self).mem.wf() ==> final(self).wf(),
    {
        let (a, flags) = alu_or(self.regs.a, value);
        self.regs.a = a;
        self.regs.set_flags(flags);
    }

    /// CP value: the flags of a subtraction; A stays.
    pub fn cp_imm(&mut self, value: u8)
        ensures
            *final(self) == old(self).with_flags(sub_result(old(self).regs.a, value, false).1),
            old(self).mem.wf() ==> final(self).wf(),
    {
        let (_, flags) = alu_sub(self.regs.a, value, false);
        self.regs.set_flags(flags);
    }

    /// Increments a value and sets Z, N and H by it.
    pub fn inc(&mut self, value: u8) -> (result: u8)
        ensures
            result == inc_result(value, old(self).flags()).0,
            *final(self) == old(self).with_flags(inc_result(value, old(self).flags()).1),
            old(self).mem.wf() ==> final(self).wf(),
    {
        let (result, flags) = alu_inc(value, self.regs.get_flags());
        self.regs.set_flags(flags);
        result
    }

    /// The successor of a 16-bit value, modulo 65536; no flag changes.
    pub fn inc16(&self, value: u16) -> (result: u16)
        ensures
            result == inc16_result(value),
    {
        alu_inc16(value)
    }

    /// Decrements a value and sets Z, N and H by it.
    pub fn dec(&mut self, value: u8) -> (result: u8)
        ensures
            result == dec_result(value, old(self).flags()).0,
            *final(self) == old(self).with_flags(dec_result(value, old(self).flags()).1),
            old(self).mem.wf() ==> final(self).wf(),
    {
        let (result, flags) = alu_dec(value, self.regs.get_flags());
        self.regs.set_flags(flags);
        result
    }

    /// The predecessor of a 16-bit value, modulo 65536; no flag changes.
    pub fn dec16(&self, value: u16) -> (result: u16)
        ensures
            result == dec16_result(value),
    {
        alu_dec16(value)
    }

    /// DAA: makes A a packed decimal number again.
    pub fn daa(&mut self)
        ensures
            *final(self) == old(self).with_a_flags(daa_result(old(self).regs.a, old(self).flags())),
            old(self).mem.wf() ==> final(self).wf(),
    {
        let (a, flags) = alu_daa(self.regs.a, self.regs.get_flags());
        self.regs.a = a;
        self.regs.set_flags(flags);
    }

    /// CPL: inverts every bit of A.
    pub fn cpl(&mut self)
        ensures
            *final(self) == old(self).with_a_flags(cpl_result(old(self).regs.a, old(self).flags())),
            old(self).mem.wf() ==> final(self).wf(),
    {
        let (a, flags) = alu_cpl(self.regs.a, self.regs.get_flags());
        self.regs.a = a;
        self.regs.set_flags(flags);
    }

    /// Inverts the carry flag.
    pub fn ccf(&mut self)
        ensures
            *final(self) == old(self).with_flags(ccf_result(old(self).flags())),
            old(self).mem.wf() ==> final(self).wf(),
    {
        let flags = self.regs.get_flags();
        self.regs.set_flags(Flags { zero: flags.zero, sub: false, half: false, carry: !flags.carry });
    }

    /// Sets the carry flag.
    pub fn scf(&mut self)
        ensures
            *final(self) == old(self).with_flags(scf_result(old(self).flags())),
            old(self).mem.wf() ==> final(self).wf(),
    {
        let flags = self.regs.get_flags();
        self.regs.set_flags(Flags { zero: flags.zero, sub: false, half: false, carry: true });
    }

    /// Write the value of the stack pointer at the specified address.
    pub fn store_sp(&mut self, addr: u16)
        ensures
            *final(self) == old(self).written16(addr, old(self).regs.sp),
            old(self).wf() ==> final(self).wf(),
    {
        self.mem.write16(addr, self.regs.sp);
    }

    /// Copy HL into SP.
    pub fn load_sp_hl(&mut self)
        ensures
            *final(self) == old(self).with_sp(old(self).regs.hl()),
    {
        self.regs.sp = self.regs.get_hl();
    }

    /// Lowers SP by two and stores `val` there, low byte first.
    pub fn push(&mut self, val: u16)
        ensures
            *final(self) == old(self).pushed(val),
            old(self).wf() ==> final(self).wf(),
    {
        self.regs.sp = self.regs.sp.wrapping_sub(2);
        self.mem.write16(self.regs.sp, val);
    }

    /// Reads the value on top of the stack and raises SP by two.
    pub fn pop(&mut self) -> (val: u16)
        ensures
            val == old(self).top(),
            *final(self) == old(self).popped(),
    {
        let temp: u16 = self.mem.read16(self.regs.sp);
        self.regs.sp = self.regs.sp.wrapping_add(2);
        temp
    }

    /// BIT b: sets Z by bit `b` of `val`.
    pub fn bit(&mut self, b: u8, val: u8)
        ensures
            *final(self) == old(self).with_flags(bit_result(b, val, old(self).flags())),
            old(self).mem.wf() ==> final(self).wf(),
    {
        let flags = alu_bit(b, val, self.regs.get_flags());
        self.regs.set_flags(flags);
    }

    /// SET b: `val` with bit `b` set.
    pub fn set(&self, b: u8, val: u8) -> (result: u8)
        ensures
            result == set_result(b, val),
    {
        alu_set(b, val)
    }

    /// RES b: `val` with bit `b` clear.
    pub fn res(&self, b: u8, val: u8) -> (result: u8)
        ensures
            result == res_result(b, val),
    {
        alu_res(b, val)
    }
}

} // verus!

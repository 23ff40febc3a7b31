//! Rotates, shifts and the nibble swap on the processor: each takes a value,
//! gives the result, and leaves the flags of the operation in F.
use vstd::prelude::*;
use crate::alu::alu_rl;
use crate::alu::alu_rlc;
use crate::alu::alu_rr;
use crate::alu::alu_rrc;
use crate::alu::alu_sla;
use crate::alu::alu_sra;
use crate::alu::alu_srl;
use crate::alu::alu_swap;
use crate::alu::rl_result;
use crate::alu::rlc_result;
use crate::alu::rr_result;
use crate::alu::rrc_result;
use crate::alu::sla_result;
use crate::alu::sra_result;
use crate::alu::srl_result;
use crate::alu::swap_result;
use crate::cpu::Cpu;
use crate::registers::Flags;

verus! {

/// The result of a rotate with Z cleared, as the four rotates of A leave it.
pub open spec fn zero_cleared(r: (u8, Flags)) -> (u8, Flags) {
    (r.0, Flags { zero: false, ..r.1 })
}

impl Cpu {
    /// Rotate the content of `val` to the left; bit 7 goes to C and to bit 0.
    pub fn rlc(&mut self, val: u8) -> (result: u8)
        ensures
            result == rlc_result(val).0,
            *final(self) == old(self).with_flags(rlc_result(val).1),
            old(self).mem.wf() ==> final(self).wf(),
    {
        let (result, flags) = alu_rlc(val);
        self.regs.set_flags(flags);
        result
    }

    /// Rotate the content of `val` to the left through C.
    pub fn rl(&mut self, val: u8) -> (result: u8)
        ensures
            result == rl_result(val, old(self).flags().carry).0,
            *final(self) == old(self).with_flags(rl_result(val, old(self).flags().carry).1),
            old(self).mem.wf() ==> final(self).wf(),
    {
        let (result, flags) = alu_rl(val, self.regs.get_flags().carry);
        self.regs.set_flags(flags);
        result
    }

    /// Rotate the content of `val` to the right; bit 0 goes to C and to bit 7.
    pub fn rrc(&mut self, val: u8) -> (result: u8)
        ensures
            result == rrc_result(val).0,
            *final(self) == old(self).with_flags(rrc_result(val).1),
            old(self).mem.wf() ==> final(self).wf(),
    {
        let (result, flags) = alu_rrc(val);
        self.regs.set_flags(flags);
        result
    }

    /// Rotate the content of `val` to the right through C.
    pub fn rr(&mut self, val: u8) -> (result: u8)
        ensures
            result == rr_result(val, old(self).flags().carry).0,
            *final(self) == old(self).with_flags(rr_result(val, old(self).flags().carry).1),
            old(self).mem.wf() ==> final(self).wf(),
    {
        let (result, flags) = alu_rr(val, self.regs.get_flags().carry);
        self.regs.set_flags(flags);
        result
    }

    /// RLCA: A rotated to the left, Z cleared.
    pub fn rlca(&mut self)
        ensures
            *final(self) == old(self).with_a_flags(zero_cleared(rlc_result(old(self).regs.a))),
            old(self).mem.wf() ==> final(self).wf(),
    {
        let (result, flags) = alu_rlc(self.regs.a);
        self.regs.a = result;
        self.regs.set_flags(Flags { zero: false, ..flags });
    }

    /// RLA: A rotated to the left through C, Z cleared.
    pub fn rla(&mut self)
        ensures
            *final(self) == old(self).with_a_flags(
                zero_cleared(rl_result(old(self).regs.a, old(self).flags().carry)),
            ),
            old(self).mem.wf() ==> final(self).wf(),
    {
        let (result, flags) = alu_rl(self.regs.a, self.regs.get_flags().carry);
        self.regs.a = result;
        self.regs.set_flags(Flags { zero: false, ..flags });
    }

    /// RRCA: A rotated to the right, Z cleared.
    pub fn rrca(&mut self)
        ensures
            *final(self) == old(self).with_a_flags(zero_cleared(rrc_result(old(self).regs.a))),
            old(self).mem.wf() ==> final(self).wf(),
    {
        let (result, flags) = alu_rrc(self.regs.a);
        self.regs.a = result;
        self.regs.set_flags(Flags { zero: false, ..flags });
    }

    /// RRA: A rotated to the right through C, Z cleared.
    pub fn rra(&mut self)
        ensures
            *final(self) == old(self).with_a_flags(
                zero_cleared(rr_result(old(self).regs.a, old(self).flags().carry)),
            ),
            old(self).mem.wf() ==> final(self).wf(),
    {
        let (result, flags) = alu_rr(self.regs.a, self.regs.get_flags().carry);
        self.regs.a = result;
        self.regs.set_flags(Flags { zero: false, ..flags });
    }

    /// Shift left arithmetic.
    pub fn sla(&mut self, val: u8) -> (result: u8)
        ensures
            result == sla_result(val).0,
            *final(self) == old(self).with_flags(sla_result(val).1),
            old(self).mem.wf() ==> final(self).wf(),
    {
        let (result, flags) = alu_sla(val);
        self.regs.set_flags(flags);
        result
    }

    /// Shift right arithmetic.
    pub fn sra(&mut self, val: u8) -> (result: u8)
        ensures
            result == sra_result(val).0,
            *final(self) == old(self).with_flags(sra_result(val).1),
            old(self).mem.wf() ==> final(self).wf(),
    {
        let (result, flags) = alu_sra(val);
        self.regs.set_flags(flags);
        result
    }

    /// Shift right logical.
    pub fn srl(&mut self, val: u8) -> (result: u8)
        ensures
            result == srl_result(val).0,
            *final(self) == old(self).with_flags(srl_result(val).1),
            old(self).mem.wf() ==> final(self).wf(),
    {
        let (result, flags) = alu_srl(val);
        self.regs.set_flags(flags);
        result
    }

    /// Swap the nibbles in a byte.
    pub fn swap(&mut self, val: u8) -> (result: u8)
        ensures
            result == swap_result(val).0,
            *final(self) == old(self).with_flags(swap_result(val).1),
            old(self).mem.wf() ==> final(self).wf(),
    {
        let (result, flags) = alu_swap(val);
        self.regs.set_flags(flags);
        result
    }
}

} // verus!

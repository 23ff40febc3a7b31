//! The operands that opcodes name by a field of their bits: 8-bit
//! registers, register pairs, conditions, and the operation groups that one
//! field selects.
use vstd::prelude::*;
use crate::alu::add16_result;
use crate::alu::add_result;
use crate::alu::add_sp_result;
use crate::alu::and_result;
use crate::alu::cpl_result;
use crate::alu::ccf_result;
use crate::alu::daa_result;
use crate::alu::dec16_result;
use crate::alu::inc16_result;
use crate::alu::or_result;
use crate::alu::rl_result;
use crate::alu::rlc_result;
use crate::alu::rr_result;
use crate::alu::rrc_result;
use crate::alu::scf_result;
use crate::alu::sla_result;
use crate::alu::sra_result;
use crate::alu::srl_result;
use crate::alu::sub_result;
use crate::alu::swap_result;
use crate::alu::xor_result;
use crate::cpu::Cpu;
use crate::cpu::addr_plus;
use crate::registers::Flags;
use crate::shifts::zero_cleared;

verus! {

impl Cpu {
    /// The 8-bit operand that a 3-bit field names: B, C, D, E, H, L, the
    /// byte at HL, A.
    pub open spec fn r8(self, idx: u8) -> u8 {
        if idx == 0 {
            self.regs.b
        } else if idx == 1 {
            self.regs.c
        } else if idx == 2 {
            self.regs.d
        } else if idx == 3 {
            self.regs.e
        } else if idx == 4 {
            self.regs.h
        } else if idx == 5 {
            self.regs.l
        } else if idx == 6 {
            self.mem.byte_at(self.regs.hl())
        } else {
            self.regs.a
        }
    }

    /// The processor with the 8-bit operand `idx` set to `val`.
    pub open spec fn with_r8(self, idx: u8, val: u8) -> Cpu {
        if idx == 0 {
            Cpu { regs: crate::registers::Registers { b: val, ..self.regs }, ..self }
        } else if idx == 1 {
            Cpu { regs: crate::registers::Registers { c: val, ..self.regs }, ..self }
        } else if idx == 2 {
            Cpu { regs: crate::registers::Registers { d: val, ..self.regs }, ..self }
        } else if idx == 3 {
            Cpu { regs: crate::registers::Registers { e: val, ..self.regs }, ..self }
        } else if idx == 4 {
            Cpu { regs: crate::registers::Registers { h: val, ..self.regs }, ..self }
        } else if idx == 5 {
            Cpu { regs: crate::registers::Registers { l: val, ..self.regs }, ..self }
        } else if idx == 6 {
            self.written8(self.regs.hl(), val)
        } else {
            self.with_a(val)
        }
    }

    /// The register pair that a 2-bit field names: BC, DE, HL, SP.
    pub open spec fn r16(self, idx: u8) -> u16 {
        if idx == 0 {
            self.regs.bc()
        } else if idx == 1 {
            self.regs.de()
        } else if idx == 2 {
            self.regs.hl()
        } else {
            self.regs.sp
        }
    }

    /// The processor with the register pair `idx` holding `val`.
    pub open spec fn with_r16(self, idx: u8, val: u16) -> Cpu {
        if idx == 0 {
            Cpu { regs: self.regs.with_bc(val), ..self }
        } else if idx == 1 {
            Cpu { regs: self.regs.with_de(val), ..self }
        } else if idx == 2 {
            Cpu { regs: self.regs.with_hl(val), ..self }
        } else {
            self.with_sp(val)
        }
    }

    /// The register pair that PUSH and POP name: BC, DE, HL, AF.
    pub open spec fn stack_pair(self, idx: u8) -> u16 {
        if idx == 0 {
            self.regs.bc()
        } else if idx == 1 {
            self.regs.de()
        } else if idx == 2 {
            self.regs.hl()
        } else {
            self.regs.af()
        }
    }

    /// The processor with the pair `idx` of PUSH and POP holding `val`; F keeps its low nibble clear.
    pub open spec fn with_stack_pair(self, idx: u8, val: u16) -> Cpu {
        if idx == 0 {
            Cpu { regs: self.regs.with_bc(val), ..self }
        } else if idx == 1 {
            Cpu { regs: self.regs.with_de(val), ..self }
        } else if idx == 2 {
            Cpu { regs: self.regs.with_hl(val), ..self }
        } else {
            Cpu { regs: self.regs.with_af(val), ..self }
        }
    }

    /// The address that an indirect load or store goes through: BC, DE, HL
    /// and HL again.
    pub open spec fn indirect(self, idx: u8) -> u16 {
        if idx == 0 {
            self.regs.bc()
        } else if idx == 1 {
            self.regs.de()
        } else {
            self.regs.hl()
        }
    }

    /// What the access leaves behind: for the third pair HL is one higher,
    /// for the fourth one lower.
    pub open spec fn after_indirect(self, idx: u8) -> Cpu {
        if idx == 2 {
            self.with_hl(addr_plus(self.regs.hl(), 1))
        } else if idx == 3 {
            self.with_hl(addr_plus(self.regs.hl(), -1))
        } else {
            self
        }
    }

    /// The condition that a 2-bit field names: NZ, Z, NC, C.
    pub open spec fn condition(self, cc: u8) -> bool {
        if cc == 0 {
            !self.flags().zero
        } else if cc == 1 {
            self.flags().zero
        } else if cc == 2 {
            !self.flags().carry
        } else {
            self.flags().carry
        }
    }

    /// The operation on A that a 3-bit field names: ADD, ADC, SUB, SBC, AND,
    /// XOR, OR, CP.
    pub open spec fn with_alu(self, kind: u8, val: u8) -> Cpu {
        let a = self.regs.a;
        if kind == 0 {
            self.with_a_flags(add_result(a, val, false))
        } else if kind == 1 {
            self.with_a_flags(add_result(a, val, self.flags().carry))
        } else if kind == 2 {
            self.with_a_flags(sub_result(a, val, false))
        } else if kind == 3 {
            self.with_a_flags(sub_result(a, val, self.flags().carry))
        } else if kind == 4 {
            self.with_a_flags(and_result(a, val))
        } else if kind == 5 {
            self.with_a_flags(xor_result(a, val))
        } else if kind == 6 {
            self.with_a_flags(or_result(a, val))
        } else {
            self.with_flags(sub_result(a, val, false).1)
        }
    }

    /// The operation on A and F alone that a 3-bit field names: RLCA, RRCA,
    /// RLA, RRA, DAA, CPL, SCF, CCF.
    pub open spec fn with_acc_op(self, kind: u8) -> Cpu {
        let a = self.regs.a;
        let flags = self.flags();
        if kind == 0 {
            self.with_a_flags(zero_cleared(rlc_result(a)))
        } else if kind == 1 {
            self.with_a_flags(zero_cleared(rrc_result(a)))
        } else if kind == 2 {
            self.with_a_flags(zero_cleared(rl_result(a, flags.carry)))
        } else if kind == 3 {
            self.with_a_flags(zero_cleared(rr_result(a, flags.carry)))
        } else if kind == 4 {
            self.with_a_flags(daa_result(a, flags))
        } else if kind == 5 {
            self.with_a_flags(cpl_result(a, flags))
        } else if kind == 6 {
            self.with_flags(scf_result(flags))
        } else {
            self.with_flags(ccf_result(flags))
        }
    }

    /// HL raised by `value`, with the flags of a 16-bit addition.
    pub open spec fn after_add_hl(self, value: u16) -> Cpu {
        let r = add16_result(self.regs.hl(), value, self.flags());
        self.with_hl(r.0).with_flags(r.1)
    }

    /// SP moved by the signed operand, with the flags of that addition.
    pub open spec fn after_add_sp(self, e: u8) -> Cpu {
        let r = add_sp_result(self.regs.sp, e);
        self.with_sp(r.0).with_flags(r.1)
    }

    /// Reads the 8-bit operand `idx`.
    pub fn read_r8(&self, idx: u8) -> (val: u8)
        ensures
            val == self.r8(idx),
    {
        match idx {
            0 => self.regs.b,
            1 => self.regs.c,
            2 => self.regs.d,
            3 => self.regs.e,
            4 => self.regs.h,
            5 => self.regs.l,
            6 => self.mem.read8(self.regs.get_hl()),
            _ => self.regs.a,
        }
    }

    /// Writes the 8-bit operand `idx`.
    pub fn write_r8(&mut self, idx: u8, val: u8)
        ensures
            *final(self) == old(self).with_r8(idx, val),
            old(self).wf() ==> final(self).wf(),
    {
        match idx {
            0 => {
                self.regs.b = val;
            },
            1 => {
                self.regs.c = val;
            },
            2 => {
                self.regs.d = val;
            },
            3 => {
                self.regs.e = val;
            },
            4 => {
                self.regs.h = val;
            },
            5 => {
                self.regs.l = val;
            },
            6 => {
                self.mem.write8(self.regs.get_hl(), val);
            },
            _ => {
                self.regs.a = val;
            },
        }
    }

    /// Reads the register pair `idx`.
    pub fn read_r16(&self, idx: u8) -> (val: u16)
        ensures
            val == self.r16(idx),
    {
        match idx {
            0 => self.regs.get_bc(),
            1 => self.regs.get_de(),
            2 => self.regs.get_hl(),
            _ => self.regs.sp,
        }
    }

    /// Writes the register pair `idx`.
    pub fn write_r16(&mut self, idx: u8, val: u16)
        ensures
            *final(self) == old(self).with_r16(idx, val),
            old(self).wf() ==> final(self).wf(),
    {
        match idx {
            0 => self.regs.set_bc(val),
            1 => self.regs.set_de(val),
            2 => self.regs.set_hl(val),
            _ => {
                self.regs.sp = val;
            },
        }
    }

    /// Reads the pair `idx` of PUSH and POP.
    pub fn read_stack_pair(&self, idx: u8) -> (val: u16)
        ensures
            val == self.stack_pair(idx),
    {
        match idx {
            0 => self.regs.get_bc(),
            1 => self.regs.get_de(),
            2 => self.regs.get_hl(),
            _ => self.regs.get_af(),
        }
    }

    /// Writes the pair `idx` of PUSH and POP.
    pub fn write_stack_pair(&mut self, idx: u8, val: u16)
        ensures
            *final(self) == old(self).with_stack_pair(idx, val),
            old(self).wf() ==> final(self).wf(),
    {
        match idx {
            0 => self.regs.set_bc(val),
            1 => self.regs.set_de(val),
            2 => self.regs.set_hl(val),
            _ => self.regs.set_af(val),
        }
    }

    /// Gives the address that the indirect access `idx` goes through.
    pub fn indirect_addr(&self, idx: u8) -> (addr: u16)
        ensures
            addr == self.indirect(idx),
    {
        match idx {
            0 => self.regs.get_bc(),
            1 => self.regs.get_de(),
            _ => self.regs.get_hl(),
        }
    }

    /// Moves HL on after the indirect access `idx`.
    pub fn step_indirect(&mut self, idx: u8)
        ensures
            *final(self) == old(self).after_indirect(idx),
            old(self).wf() ==> final(self).wf(),
    {
        if idx == 2 {
            let hl: u16 = self.regs.get_hl();
            self.regs.set_hl(hl.wrapping_add(1));
        } else if idx == 3 {
            let hl: u16 = self.regs.get_hl();
            self.regs.set_hl(hl.wrapping_sub(1));
        }
    }

    /// Tests the condition `cc`.
    pub fn test_condition(&self, cc: u8) -> (holds: bool)
        ensures
            holds == self.condition(cc),
    {
        let flags = self.regs.get_flags();
        match cc {
            0 => !flags.zero,
            1 => flags.zero,
            2 => !flags.carry,
            _ => flags.carry,
        }
    }

    /// Carries out the operation `kind` on A with `val`.
    pub fn alu_op(&mut self, kind: u8, val: u8)
        ensures
            *final(self) == old(self).with_alu(kind, val),
            old(self).wf() ==> final(self).wf(),
    {
        match kind {
            0 => self.add_imm(val),
            1 => self.adc_imm(val),
            2 => self.sub_imm(val),
            3 => self.sbc_imm(val),
            4 => self.and_imm(val),
            5 => self.xor_imm(val),
            6 => self.or_imm(val),
            _ => self.cp_imm(val),
        }
    }

    /// Carries out the operation `kind` on A and F alone.
    pub fn acc_op(&mut self, kind: u8)
        ensures
            *final(self) == old(self).with_acc_op(kind),
            old(self).wf() ==> final(self).wf(),
    {
        match kind {
            0 => self.rlca(),
            1 => self.rrca(),
            2 => self.rla(),
            3 => self.rra(),
            4 => self.daa(),
            5 => self.cpl(),
            6 => self.scf(),
            _ => self.ccf(),
        }
    }

    /// Carries out the rotate or shift `kind` on `val`.
    pub fn shift_op(&mut self, kind: u8, val: u8) -> (result: u8)
        ensures
            result == shift_result(kind, val, old(self).flags()).0,
            *final(self) == old(self).with_flags(shift_result(kind, val, old(self).flags()).1),
            old(self).wf() ==> final(self).wf(),
    {
        match kind {
            0 => self.rlc(val),
            1 => self.rrc(val),
            2 => self.rl(val),
            3 => self.rr(val),
            4 => self.sla(val),
            5 => self.sra(val),
            6 => self.swap(val),
            _ => self.srl(val),
        }
    }
}

/// The rotate or shift that a 3-bit field of a prefixed opcode names: RLC,
/// RRC, RL, RR, SLA, SRA, SWAP, SRL.
pub open spec fn shift_result(kind: u8, val: u8, flags: Flags) -> (u8, Flags) {
    if kind == 0 {
        rlc_result(val)
    } else if kind == 1 {
        rrc_result(val)
    } else if kind == 2 {
        rl_result(val, flags.carry)
    } else if kind == 3 {
        rr_result(val, flags.carry)
    } else if kind == 4 {
        sla_result(val)
    } else if kind == 5 {
        sra_result(val)
    } else if kind == 6 {
        swap_result(val)
    } else {
        srl_result(val)
    }
}

/// The successor or predecessor of a register pair, as INC and DEC on
/// pairs leave it.
pub open spec fn stepped16(val: u16, down: bool) -> u16 {
    if down {
        dec16_result(val)
    } else {
        inc16_result(val)
    }
}

} // verus!

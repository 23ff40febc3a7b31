//! The prefixed opcode table: rotates and shifts, and the test, reset and
//! set of single bits, each on one of the eight 8-bit operands.
use vstd::prelude::*;
use crate::alu::bit_result;
use crate::alu::res_result;
use crate::alu::set_result;
use crate::cpu::Cpu;
use crate::execute::cycles_for;
use crate::operands::shift_result;

verus! {

impl Cpu {
    /// One prefixed instruction, with PC at its second byte. The two upper
    /// bits of that byte pick rotate or shift, BIT, RES or SET; the three
    /// lower bits the operand; the bits between them the kind of shift or
    /// the number of the bit. On a register it takes 2 machine cycles; on
    /// the byte at HL 4, and 3 for BIT, which writes nothing back.
    pub open spec fn after_cb_execute(self) -> (Cpu, u32) {
        let op = self.imm8();
        let cpu = self.skip(1);
        let idx = op % 8;
        let sub = ((op / 8) % 8) as u8;
        let val = cpu.r8(idx);
        if op < 0x40 {
            let r = shift_result(sub, val, cpu.flags());
            (cpu.with_flags(r.1).with_r8(idx, r.0), cycles_for(idx, 2, 4))
        } else if op < 0x80 {
            (cpu.with_flags(bit_result(sub, val, cpu.flags())), cycles_for(idx, 2, 3))
        } else if op < 0xC0 {
            (cpu.with_r8(idx, res_result(sub, val)), cycles_for(idx, 2, 4))
        } else {
            (cpu.with_r8(idx, set_result(sub, val)), cycles_for(idx, 2, 4))
        }
    }

    /// Fetches the second byte of a prefixed instruction and carries the
    /// instruction out.
    pub fn cb_execute(&mut self) -> (cycles: u32)
        ensures
            (*final(self), cycles) == old(self).after_cb_execute(),
            2 <= cycles <= 4,
            old(self).wf() ==> final(self).wf(),
    {
        let opcode: u8 = self.fetch_byte();
        let idx: u8 = opcode % 8;
        let sub: u8 = (opcode / 8) % 8;
        let val: u8 = self.read_r8(idx);
        if opcode < 0x40 {
            let result: u8 = self.shift_op(sub, val);
            self.write_r8(idx, result);
            if idx == 6 {
                4
            } else {
                2
            }
        } else if opcode < 0x80 {
            self.bit(sub, val);
            if idx == 6 {
                3
            } else {
                2
            }
        } else if opcode < 0xC0 {
            let result: u8 = self.res(sub, val);
            self.write_r8(idx, result);
            if idx == 6 {
                4
            } else {
                2
            }
        } else {
            let result: u8 = self.set(sub, val);
            self.write_r8(idx, result);
            if idx == 6 {
                4
            } else {
                2
            }
        }
    }
}

} // verus!

//! Fetching from the instruction stream, and the jumps, calls and returns.
use vstd::prelude::*;
use crate::alu::displace;
use crate::alu::displaced;
use crate::cpu::Cpu;
use crate::cpu::addr_plus;
use crate::memory::word_write_reads_back;

verus! {

impl Cpu {
    /// A relative jump: the offset byte is taken from the stream, then PC
    /// moves by its signed value.
    pub open spec fn after_jr(self) -> Cpu {
        self.with_pc(displaced(self.skip(1).regs.pc, self.imm8()))
    }

    /// A call: the address of the next instruction goes on the stack.
    pub open spec fn after_call(self, target: u16) -> Cpu {
        self.pushed(self.regs.pc).with_pc(target)
    }

    /// A return: PC comes from the stack.
    pub open spec fn after_ret(self) -> Cpu {
        self.popped().with_pc(self.top())
    }

    /// Read the next byte from PC; PC is incremented.
    pub fn fetch_byte(&mut self) -> (value: u8)
        ensures
            value == old(self).imm8(),
            *final(self) == old(self).skip(1),
    {
        let b: u8 = self.mem.read8(self.regs.pc);
        self.regs.pc = self.regs.pc.wrapping_add(1);
        b
    }

    /// Read the next two bytes from PC, low byte first; PC moves up by two.
    pub fn fetch_word(&mut self) -> (value: u16)
        ensures
            value == old(self).imm16(),
            *final(self) == old(self).skip(2),
    {
        let w: u16 = self.mem.read16(self.regs.pc);
        self.regs.pc = self.regs.pc.wrapping_add(2);
        w
    }

    /// JR e.
    pub fn jr(&mut self)
        ensures
            *final(self) == old(self).after_jr(),
    {
        let offset: u8 = self.fetch_byte();
        self.regs.pc = displace(self.regs.pc, offset);
    }

    /// CALL: pushes PC and jumps to `val`.
    pub fn call(&mut self, val: u16)
        ensures
            *final(self) == old(self).after_call(val),
            old(self).wf() ==> final(self).wf(),
    {
        self.push(self.regs.pc);
        self.regs.pc = val;
    }

    /// RET: pops PC.
    pub fn ret(&mut self)
        ensures
            *final(self) == old(self).after_ret(),
    {
        self.regs.pc = self.pop();
    }

    /// RST: pushes PC and jumps to the fixed address `val`.
    pub fn rst(&mut self, val: u8)
        ensures
            *final(self) == old(self).after_call(val as u16),
            old(self).wf() ==> final(self).wf(),
    {
        self.push(self.regs.pc);
        self.regs.pc = val as u16;
    }
}

} // verus!

verus! {

/// With the stack in work RAM or in high RAM, what is pushed is what is on
/// top afterwards, a pop then puts SP back where it was, and a return after
/// a call comes back behind the call.
pub proof fn push_then_pop(cpu: Cpu, val: u16)
    requires
        0xC002 <= cpu.regs.sp <= 0xE000 || 0xFF82 <= cpu.regs.sp <= 0xFFFF,
    ensures
        cpu.pushed(val).top() == val,
        cpu.pushed(val).popped().regs.sp == cpu.regs.sp,
        cpu.after_call(val).after_ret().regs.pc == cpu.regs.pc,
        cpu.after_call(val).after_ret().regs.sp == cpu.regs.sp,
{
    let sp = addr_plus(cpu.regs.sp, -2);
    word_write_reads_back(cpu.mem, sp, val);
    word_write_reads_back(cpu.mem, sp, cpu.regs.pc);
}

} // verus!

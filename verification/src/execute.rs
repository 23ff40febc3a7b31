//! The primary opcode table: what each of the 256 opcodes does to the
//! processor and how many machine cycles it takes.
//!
//! An opcode falls into one of four blocks by its two upper bits. Within a
//! block its three lower bits (`low`) name the instruction family, and the
//! three bits between (`mid`) an operand, a condition or an operation; where
//! a family works on register pairs, the upper two bits of `mid` name the
//! pair and its lowest bit picks one of two instructions.
use vstd::prelude::*;
use crate::alu::add_sp_result;
use crate::alu::alu_add_sp;
use crate::alu::dec_result;
use crate::alu::inc_result;
use crate::cpu::Cpu;
use crate::operands::stepped16;

verus! {

/// The opcodes that stand for no instruction.
pub open spec fn is_undefined(opcode: u8) -> bool {
    opcode == 0xD3 || opcode == 0xDB || opcode == 0xDD || opcode == 0xE3 || opcode == 0xE4
        || opcode == 0xEB || opcode == 0xEC || opcode == 0xED || opcode == 0xF4 || opcode == 0xFC
        || opcode == 0xFD
}

/// The places of the last block that the undefined opcodes and the prefix
/// take, by the fields of the opcode.
pub open spec fn no_instruction(mid: u8, low: u8) -> bool {
    ||| low == 3 && 1 <= mid <= 5
    ||| low == 4 && mid >= 4
    ||| low == 5 && mid >= 3 && mid % 2 == 1
}

/// Tells whether an opcode stands for no instruction.
pub fn opcode_is_undefined(opcode: u8) -> (undefined: bool)
    ensures
        undefined == is_undefined(opcode),
{
    match opcode {
        0xD3 | 0xDB | 0xDD | 0xE3 | 0xE4 | 0xEB | 0xEC | 0xED | 0xF4 | 0xFC | 0xFD => true,
        _ => false,
    }
}

/// The machine cycles of an instruction on an 8-bit operand: `plain` for a
/// register, `through_hl` for the byte at HL.
pub open spec fn cycles_for(idx: u8, plain: u32, through_hl: u32) -> u32 {
    if idx == 6 {
        through_hl
    } else {
        plain
    }
}

/// Picks the machine cycles of an instruction by its operand.
pub fn operand_cycles(idx: u8, plain: u32, through_hl: u32) -> (cycles: u32)
    ensures
        cycles == cycles_for(idx, plain, through_hl),
{
    if idx == 6 {
        through_hl
    } else {
        plain
    }
}

impl Cpu {
    /// NOP, LD (nn),SP, STOP, JR e and JR cc,e. STOP takes its second byte
    /// from the stream and parks the processor until the joypad ends it.
    pub open spec fn after_jumps_relative(self, mid: u8) -> (Cpu, u32) {
        if mid == 0 {
            (self, 1)
        } else if mid == 1 {
            (self.skip(2).written16(self.imm16(), self.regs.sp), 5)
        } else if mid == 2 {
            (Cpu { enabled: false, stopped: true, ..self.skip(1) }, 1)
        } else if mid == 3 || self.condition((mid - 4) as u8) {
            (self.after_jr(), 3)
        } else {
            (self.skip(1), 2)
        }
    }

    /// LD rr,nn and ADD HL,rr; INC rr and DEC rr; the loads between A and
    /// the byte that a pair points at.
    pub open spec fn after_pair_op(self, mid: u8, low: u8) -> (Cpu, u32) {
        let pair = mid / 2;
        let second = mid % 2 == 1;
        if low == 1 {
            if second {
                (self.after_add_hl(self.r16(pair)), 2)
            } else {
                (self.skip(2).with_r16(pair, self.imm16()), 3)
            }
        } else if low == 2 {
            if second {
                (self.with_a(self.mem.byte_at(self.indirect(pair))).after_indirect(pair), 2)
            } else {
                (self.written8(self.indirect(pair), self.regs.a).after_indirect(pair), 2)
            }
        } else {
            (self.with_r16(pair, stepped16(self.r16(pair), second)), 2)
        }
    }

    /// INC r, DEC r and LD r,n.
    pub open spec fn after_byte_op(self, mid: u8, low: u8) -> (Cpu, u32) {
        if low == 4 {
            let r = inc_result(self.r8(mid), self.flags());
            (self.with_flags(r.1).with_r8(mid, r.0), cycles_for(mid, 1, 3))
        } else if low == 5 {
            let r = dec_result(self.r8(mid), self.flags());
            (self.with_flags(r.1).with_r8(mid, r.0), cycles_for(mid, 1, 3))
        } else {
            (self.skip(1).with_r8(mid, self.imm8()), cycles_for(mid, 2, 3))
        }
    }

    /// Opcodes 0x00 to 0x3F, with PC behind the opcode.
    pub open spec fn after_block0(self, mid: u8, low: u8) -> (Cpu, u32) {
        if low == 0 {
            self.after_jumps_relative(mid)
        } else if low <= 3 {
            self.after_pair_op(mid, low)
        } else if low <= 6 {
            self.after_byte_op(mid, low)
        } else {
            (self.with_acc_op(mid), 1)
        }
    }

    /// Opcodes 0x40 to 0x7F: the loads between 8-bit operands, and HALT in
    /// the place of a load of the byte at HL into itself.
    pub open spec fn after_block1(self, mid: u8, low: u8) -> (Cpu, u32) {
        if mid == 6 && low == 6 {
            (Cpu { enabled: false, ..self }, 1)
        } else {
            (self.with_r8(mid, self.r8(low)), if mid == 6 || low == 6 {
                2
            } else {
                1
            })
        }
    }

    /// Opcodes 0x80 to 0xBF: the eight operations on A with an 8-bit operand.
    pub open spec fn after_block2(self, mid: u8, low: u8) -> (Cpu, u32) {
        (self.with_alu(mid, self.r8(low)), cycles_for(low, 1, 2))
    }

    /// RET cc, the loads between A and the I/O page at an immediate offset,
    /// ADD SP,e and LD HL,SP+e.
    pub open spec fn after_returns(self, mid: u8) -> (Cpu, u32) {
        if mid < 4 {
            if self.condition(mid) {
                (self.after_ret(), 5)
            } else {
                (self, 2)
            }
        } else if mid == 4 {
            (self.skip(1).written8((0xFF00 + self.imm8()) as u16, self.regs.a), 3)
        } else if mid == 5 {
            (self.skip(1).after_add_sp(self.imm8()), 4)
        } else if mid == 6 {
            (self.skip(1).with_a(self.mem.byte_at((0xFF00 + self.imm8()) as u16)), 3)
        } else {
            let r = add_sp_result(self.regs.sp, self.imm8());
            (self.skip(1).with_hl(r.0).with_flags(r.1), 3)
        }
    }

    /// POP rr, RET, RETI, JP HL and LD SP,HL.
    pub open spec fn after_pops(self, mid: u8) -> (Cpu, u32) {
        if mid % 2 == 0 {
            (self.popped().with_stack_pair(mid / 2, self.top()), 3)
        } else if mid == 1 {
            (self.after_ret(), 4)
        } else if mid == 3 {
            (Cpu { interrupts: true, ..self.after_ret() }, 4)
        } else if mid == 5 {
            (self.with_pc(self.regs.hl()), 1)
        } else {
            (self.with_sp(self.regs.hl()), 2)
        }
    }

    /// JP cc,nn, and the loads between A and the I/O page at offset C or an
    /// address given by an immediate.
    pub open spec fn after_jumps(self, mid: u8) -> (Cpu, u32) {
        if mid < 4 {
            if self.condition(mid) {
                (self.with_pc(self.imm16()), 4)
            } else {
                (self.skip(2), 3)
            }
        } else if mid == 4 {
            (self.written8((0xFF00 + self.regs.c) as u16, self.regs.a), 2)
        } else if mid == 5 {
            (self.skip(2).written8(self.imm16(), self.regs.a), 4)
        } else if mid == 6 {
            (self.with_a(self.mem.byte_at((0xFF00 + self.regs.c) as u16)), 2)
        } else {
            (self.skip(2).with_a(self.mem.byte_at(self.imm16())), 4)
        }
    }

    /// JP nn, DI and EI.
    pub open spec fn after_control(self, mid: u8) -> (Cpu, u32) {
        if mid == 0 {
            (self.with_pc(self.imm16()), 4)
        } else if mid == 6 {
            (Cpu { interrupts: false, ..self }, 1)
        } else {
            (Cpu { interrupts: true, ..self }, 1)
        }
    }

    /// CALL cc,nn, PUSH rr and CALL nn.
    pub open spec fn after_calls(self, mid: u8, low: u8) -> (Cpu, u32) {
        if low == 4 {
            if self.condition(mid) {
                (self.skip(2).after_call(self.imm16()), 6)
            } else {
                (self.skip(2), 3)
            }
        } else if mid % 2 == 0 {
            (self.pushed(self.stack_pair(mid / 2)), 4)
        } else {
            (self.skip(2).after_call(self.imm16()), 6)
        }
    }

    /// Opcodes 0xC0 to 0xFF, with PC behind the opcode, but for the prefix
    /// and the undefined opcodes, on which this says nothing of use.
    pub open spec fn after_block3(self, mid: u8, low: u8) -> (Cpu, u32) {
        if low == 0 {
            self.after_returns(mid)
        } else if low == 1 {
            self.after_pops(mid)
        } else if low == 2 {
            self.after_jumps(mid)
        } else if low == 3 {
            self.after_control(mid)
        } else if low <= 5 {
            self.after_calls(mid, low)
        } else if low == 6 {
            (self.skip(1).with_alu(mid, self.imm8()), 2)
        } else {
            (self.after_call((mid * 8) as u16), 4)
        }
    }

    /// One instruction: the opcode is taken from PC, PC moves behind it, and
    /// the opcode's block, or for the prefix 0xCB the prefixed table, says
    /// what happens and how many machine cycles it takes.
    pub open spec fn after_execute(self) -> (Cpu, u32) {
        let op = self.imm8();
        let cpu = self.skip(1);
        let mid = ((op / 8) % 8) as u8;
        let low = op % 8;
        if op == 0xCB {
            cpu.after_cb_execute()
        } else if op < 0x40 {
            cpu.after_block0(mid, low)
        } else if op < 0x80 {
            cpu.after_block1(mid, low)
        } else if op < 0xC0 {
            cpu.after_block2(mid, low)
        } else {
            cpu.after_block3(mid, low)
        }
    }

    fn jumps_relative(&mut self, mid: u8) -> (cycles: u32)
        requires
            mid < 8,
        ensures
            (*final(self), cycles) == old(self).after_jumps_relative(mid),
            1 <= cycles <= 6,
            old(self).wf() ==> final(self).wf(),
    {
        if mid == 0 {
            1
        } else if mid == 1 {
            let addr: u16 = self.fetch_word();
            self.store_sp(addr);
            5
        } else if mid == 2 {
            let _ = self.fetch_byte();
            self.enabled = false;
            self.stopped = true;
            1
        } else if mid == 3 || self.test_condition(mid - 4) {
            self.jr();
            3
        } else {
            let _ = self.fetch_byte();
            2
        }
    }

    fn pair_op(&mut self, mid: u8, low: u8) -> (cycles: u32)
        requires
            mid < 8,
            1 <= low <= 3,
        ensures
            (*final(self), cycles) == old(self).after_pair_op(mid, low),
            1 <= cycles <= 6,
            old(self).wf() ==> final(self).wf(),
    {
        let pair: u8 = mid / 2;
        let second: bool = mid % 2 == 1;
        if low == 1 {
            if second {
                let val: u16 = self.read_r16(pair);
                self.add_hl(val);
                2
            } else {
                let val: u16 = self.fetch_word();
                self.write_r16(pair, val);
                3
            }
        } else if low == 2 {
            let addr: u16 = self.indirect_addr(pair);
            if second {
                self.regs.a = self.mem.read8(addr);
            } else {
                self.mem.write8(addr, self.regs.a);
            }
            self.step_indirect(pair);
            2
        } else {
            let val: u16 = self.read_r16(pair);
            let next: u16 = if second { self.dec16(val) } else { self.inc16(val) };
            self.write_r16(pair, next);
            2
        }
    }

    fn byte_op(&mut self, mid: u8, low: u8) -> (cycles: u32)
        requires
            mid < 8,
            4 <= low <= 6,
        ensures
            (*final(self), cycles) == old(self).after_byte_op(mid, low),
            1 <= cycles <= 6,
            old(self).wf() ==> final(self).wf(),
    {
        if low == 4 {
            let val: u8 = self.read_r8(mid);
            let result: u8 = self.inc(val);
            self.write_r8(mid, result);
            operand_cycles(mid, 1, 3)
        } else if low == 5 {
            let val: u8 = self.read_r8(mid);
            let result: u8 = self.dec(val);
            self.write_r8(mid, result);
            operand_cycles(mid, 1, 3)
        } else {
            let val: u8 = self.fetch_byte();
            self.write_r8(mid, val);
            operand_cycles(mid, 2, 3)
        }
    }

    fn block0(&mut self, mid: u8, low: u8) -> (cycles: u32)
        requires
            mid < 8,
            low < 8,
        ensures
            (*final(self), cycles) == old(self).after_block0(mid, low),
            1 <= cycles <= 6,
            old(self).wf() ==> final(self).wf(),
    {
        if low == 0 {
            self.jumps_relative(mid)
        } else if low <= 3 {
            self.pair_op(mid, low)
        } else if low <= 6 {
            self.byte_op(mid, low)
        } else {
            self.acc_op(mid);
            1
        }
    }

    fn block1(&mut self, mid: u8, low: u8) -> (cycles: u32)
        requires
            mid < 8,
            low < 8,
        ensures
            (*final(self), cycles) == old(self).after_block1(mid, low),
            1 <= cycles <= 6,
            old(self).wf() ==> final(self).wf(),
    {
        if mid == 6 && low == 6 {
            self.enabled = false;
            1
        } else {
            let val: u8 = self.read_r8(low);
            self.write_r8(mid, val);
            if mid == 6 || low == 6 {
                2
            } else {
                1
            }
        }
    }

    fn block2(&mut self, mid: u8, low: u8) -> (cycles: u32)
        requires
            mid < 8,
            low < 8,
        ensures
            (*final(self), cycles) == old(self).after_block2(mid, low),
            1 <= cycles <= 6,
            old(self).wf() ==> final(self).wf(),
    {
        let val: u8 = self.read_r8(low);
        self.alu_op(mid, val);
        operand_cycles(low, 1, 2)
    }

    fn returns_or_io(&mut self, mid: u8) -> (cycles: u32)
        requires
            mid < 8,
        ensures
            (*final(self), cycles) == old(self).after_returns(mid),
            1 <= cycles <= 6,
            old(self).wf() ==> final(self).wf(),
    {
        if mid < 4 {
            if self.test_condition(mid) {
                self.ret();
                5
            } else {
                2
            }
        } else if mid == 4 {
            let offset: u8 = self.fetch_byte();
            self.mem.write8(0xFF00 + offset as u16, self.regs.a);
            3
        } else if mid == 5 {
            let e: u8 = self.fetch_byte();
            self.add_sp(e);
            4
        } else if mid == 6 {
            let offset: u8 = self.fetch_byte();
            self.regs.a = self.mem.read8(0xFF00 + offset as u16);
            3
        } else {
            let e: u8 = self.fetch_byte();
            let (hl, flags) = alu_add_sp(self.regs.sp, e);
            self.regs.set_hl(hl);
            self.regs.set_flags(flags);
            3
        }
    }

    fn pops(&mut self, mid: u8) -> (cycles: u32)
        requires
            mid < 8,
        ensures
            (*final(self), cycles) == old(self).after_pops(mid),
            1 <= cycles <= 6,
            old(self).wf() ==> final(self).wf(),
    {
        if mid % 2 == 0 {
            let val: u16 = self.pop();
            self.write_stack_pair(mid / 2, val);
            3
        } else if mid == 1 {
            self.ret();
            4
        } else if mid == 3 {
            self.ret();
            self.interrupts = true;
            4
        } else if mid == 5 {
            self.regs.pc = self.regs.get_hl();
            1
        } else {
            self.load_sp_hl();
            2
        }
    }

    fn jumps(&mut self, mid: u8) -> (cycles: u32)
        requires
            mid < 8,
        ensures
            (*final(self), cycles) == old(self).after_jumps(mid),
            1 <= cycles <= 6,
            old(self).wf() ==> final(self).wf(),
    {
        if mid < 4 {
            let addr: u16 = self.fetch_word();
            if self.test_condition(mid) {
                self.regs.pc = addr;
                4
            } else {
                3
            }
        } else if mid == 4 {
            self.mem.write8(0xFF00 + self.regs.c as u16, self.regs.a);
            2
        } else if mid == 5 {
            let addr: u16 = self.fetch_word();
            self.mem.write8(addr, self.regs.a);
            4
        } else if mid == 6 {
            self.regs.a = self.mem.read8(0xFF00 + self.regs.c as u16);
            2
        } else {
            let addr: u16 = self.fetch_word();
            self.regs.a = self.mem.read8(addr);
            4
        }
    }

    fn control(&mut self, mid: u8) -> (cycles: u32)
        requires
            mid == 0 || mid == 6 || mid == 7,
        ensures
            (*final(self), cycles) == old(self).after_control(mid),
            1 <= cycles <= 6,
            old(self).wf() ==> final(self).wf(),
    {
        if mid == 0 {
            let addr: u16 = self.fetch_word();
            self.regs.pc = addr;
            4
        } else if mid == 6 {
            self.interrupts = false;
            1
        } else {
            self.interrupts = true;
            1
        }
    }

    fn calls(&mut self, mid: u8, low: u8) -> (cycles: u32)
        requires
            mid < 8,
            low == 4 || low == 5,
            !no_instruction(mid, low),
        ensures
            (*final(self), cycles) == old(self).after_calls(mid, low),
            1 <= cycles <= 6,
            old(self).wf() ==> final(self).wf(),
    {
        if low == 4 {
            let addr: u16 = self.fetch_word();
            if self.test_condition(mid) {
                self.call(addr);
                6
            } else {
                3
            }
        } else if mid % 2 == 0 {
            let val: u16 = self.read_stack_pair(mid / 2);
            self.push(val);
            4
        } else {
            let addr: u16 = self.fetch_word();
            self.call(addr);
            6
        }
    }

    fn block3(&mut self, mid: u8, low: u8) -> (cycles: u32)
        requires
            mid < 8,
            low < 8,
            !no_instruction(mid, low),
        ensures
            (*final(self), cycles) == old(self).after_block3(mid, low),
            1 <= cycles <= 6,
            old(self).wf() ==> final(self).wf(),
    {
        if low == 0 {
            self.returns_or_io(mid)
        } else if low == 1 {
            self.pops(mid)
        } else if low == 2 {
            self.jumps(mid)
        } else if low == 3 {
            self.control(mid)
        } else if low <= 5 {
            self.calls(mid, low)
        } else if low == 6 {
            let val: u8 = self.fetch_byte();
            self.alu_op(mid, val);
            2
        } else {
            self.rst(mid * 8);
            4
        }
    }

    /// Fetches the opcode at PC and carries the instruction out. The opcode
    /// must be a defined one.
    pub fn execute(&mut self) -> (cycles: u32)
        requires
            !is_undefined(old(self).imm8()),
        ensures
            (*final(self), cycles) == old(self).after_execute(),
            1 <= cycles <= 6,
            old(self).wf() ==> final(self).wf(),
    {
        let opcode: u8 = self.fetch_byte();
        let mid: u8 = (opcode / 8) % 8;
        let low: u8 = opcode % 8;
        if opcode == 0xCB {
            self.cb_execute()
        } else if opcode < 0x40 {
            self.block0(mid, low)
        } else if opcode < 0x80 {
            self.block1(mid, low)
        } else if opcode < 0xC0 {
            self.block2(mid, low)
        } else {
            assert(opcode == 0xC0 + mid * 8 + low);
            self.block3(mid, low)
        }
    }
}

} // verus!

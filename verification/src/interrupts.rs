//! Interrupt service and the power state: which line is served, what serving
//! it does, and when a halted processor wakes.
use vstd::prelude::*;
use crate::bits::has_bit;
use crate::bits::test_bit;
use crate::cpu::Cpu;
use crate::execute::is_undefined;
use crate::execute::opcode_is_undefined;
use crate::joypad::JOYPAD_INTERRUPT;
use crate::memory::Memory;

verus! {

/// Machine cycles that serving an interrupt takes.
pub const SERVICE_CYCLES: u32 = 5;

/// The lowest of the five interrupt lines set in `pending`, by its weight:
/// V-Blank 0x01, LCD STAT 0x02, Timer 0x04, Serial 0x08, Joypad 0x10.
pub open spec fn lowest_line(pending: u8) -> Option<u8> {
    if has_bit(pending, 0x01) {
        Some(0x01u8)
    } else if has_bit(pending, 0x02) {
        Some(0x02u8)
    } else if has_bit(pending, 0x04) {
        Some(0x04u8)
    } else if has_bit(pending, 0x08) {
        Some(0x08u8)
    } else if has_bit(pending, 0x10) {
        Some(0x10u8)
    } else {
        None
    }
}

/// The address that the processor jumps to when it serves a line.
pub open spec fn vector_of(line: u8) -> u16 {
    if line == 0x01 {
        0x40
    } else if line == 0x02 {
        0x48
    } else if line == 0x04 {
        0x50
    } else if line == 0x08 {
        0x58
    } else {
        0x60
    }
}

/// A byte with the bit of weight `weight` cleared.
pub open spec fn without_bit(byte: u8, weight: u8) -> u8 {
    if has_bit(byte, weight) {
        (byte - weight) as u8
    } else {
        byte
    }
}

/// Finds the lowest of the five interrupt lines set in `pending`.
pub fn find_lowest_line(pending: u8) -> (line: Option<u8>)
    ensures
        line == lowest_line(pending),
{
    if test_bit(pending, 0x01) {
        Some(0x01)
    } else if test_bit(pending, 0x02) {
        Some(0x02)
    } else if test_bit(pending, 0x04) {
        Some(0x04)
    } else if test_bit(pending, 0x08) {
        Some(0x08)
    } else if test_bit(pending, 0x10) {
        Some(0x10)
    } else {
        None
    }
}

/// Gives the address that the processor jumps to when it serves `line`.
pub fn vector_for(line: u8) -> (vector: u16)
    ensures
        vector == vector_of(line),
{
    match line {
        0x01 => 0x40,
        0x02 => 0x48,
        0x04 => 0x50,
        0x08 => 0x58,
        _ => 0x60,
    }
}

/// Clears the bit of weight `weight` in `byte`.
pub fn clear_bit(byte: u8, weight: u8) -> (cleared: u8)
    requires
        weight > 0,
    ensures
        cleared == without_bit(byte, weight),
{
    if test_bit(byte, weight) {
        assert(byte / weight >= 1);
        assert(byte >= weight) by (nonlinear_arith)
            requires
                byte / weight >= 1,
                weight > 0,
        ;
        byte - weight
    } else {
        byte
    }
}

impl Cpu {
    /// The lines that are both raised in IF and enabled in IE.
    pub open spec fn pending(self) -> u8 {
        self.mem.interrupt_enable & self.mem.interrupt_flag
    }

    /// Whether an interrupt will be served: IME is set and one of the five
    /// lines is in `pending`.
    pub open spec fn serves(self, pending: u8) -> bool {
        self.interrupts && lowest_line(pending) is Some
    }

    /// Serving the lowest line of `pending`: its bit leaves IF, IME is
    /// cleared, a parked processor runs again, PC goes on the stack and the
    /// line's vector into PC; that takes 5 machine cycles. Where nothing is
    /// served nothing changes, in no time.
    pub open spec fn after_service(self, pending: u8) -> (Cpu, u32) {
        if self.serves(pending) {
            let line = lowest_line(pending).unwrap();
            let taken = Cpu {
                interrupts: false,
                enabled: true,
                stopped: false,
                mem: Memory {
                    interrupt_flag: without_bit(self.mem.interrupt_flag, line),
                    ..self.mem
                },
                ..self
            };
            (taken.after_call(vector_of(line)), 5)
        } else {
            (self, 0)
        }
    }

    /// Whether the processor stays parked. After HALT it does while no
    /// enabled line is raised; after STOP while the joypad line is not
    /// raised in IF.
    pub open spec fn idles(self) -> bool {
        !self.enabled && (if self.stopped {
            !has_bit(self.mem.interrupt_flag, JOYPAD_INTERRUPT)
        } else {
            lowest_line(self.pending()) is None
        })
    }

    /// Whether a step can be taken: the processor stays parked, or the
    /// opcode at PC is a defined one.
    pub open spec fn can_step(self) -> bool {
        self.idles() || !is_undefined(self.imm8())
    }

    /// One step. A processor that stays parked lets one machine cycle go by;
    /// one that wakes runs again, and like a running one carries out the
    /// instruction at PC.
    pub open spec fn after_step(self) -> (Cpu, u32) {
        if self.idles() {
            (self, 1)
        } else {
            (Cpu { enabled: true, stopped: false, ..self }).after_execute()
        }
    }

    /// Gives the lines that are both raised in IF and enabled in IE.
    pub fn pending_lines(&self) -> (pending: u8)
        ensures
            pending == self.pending(),
    {
        self.mem.interrupt_enable & self.mem.interrupt_flag
    }

    /// Serves the lowest pending interrupt if IME allows it; gives the
    /// machine cycles that took: 5, or 0 where none was served.
    pub fn service_interrupts(&mut self, pending: u8) -> (cycles: u32)
        ensures
            (*final(self), cycles) == old(self).after_service(pending),
            cycles == (if old(self).serves(pending) {
                5u32
            } else {
                0u32
            }),
            old(self).wf() ==> final(self).wf(),
    {
        if !self.interrupts {
            return 0;
        }
        match find_lowest_line(pending) {
            Some(line) => {
                self.mem.interrupt_flag = clear_bit(self.mem.interrupt_flag, line);
                self.interrupts = false;
                self.enabled = true;
                self.stopped = false;
                self.call(vector_for(line));
                SERVICE_CYCLES
            },
            None => 0,
        }
    }

    /// Tells whether the processor stays parked.
    pub fn is_idle(&self) -> (idle: bool)
        ensures
            idle == self.idles(),
    {
        if self.enabled {
            false
        } else if self.stopped {
            !test_bit(self.mem.interrupt_flag, JOYPAD_INTERRUPT)
        } else {
            find_lowest_line(self.pending_lines()).is_none()
        }
    }

    /// Tells whether `step` can be called.
    pub fn check_step(&self) -> (ok: bool)
        ensures
            ok == self.can_step(),
    {
        if self.is_idle() {
            true
        } else {
            !opcode_is_undefined(self.mem.read8(self.regs.pc))
        }
    }

    /// Fetches the next opcode at PC, carries it out, and gives the machine
    /// cycles it took; a parked processor waits one machine cycle instead.
    pub fn step(&mut self) -> (cycles: u32)
        requires
            old(self).can_step(),
        ensures
            (*final(self), cycles) == old(self).after_step(),
            1 <= cycles <= 6,
            old(self).wf() ==> final(self).wf(),
    {
        if self.is_idle() {
            return 1;
        }
        self.enabled = true;
        self.stopped = false;
        self.execute()
    }
}

} // verus!

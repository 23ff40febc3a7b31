//! The console: the processor with its address space, clocked one
//! instruction at a time.
use vstd::prelude::*;
use crate::cartridge::NoMapperCartridge;
use crate::cartridge::Slot;
use crate::cpu::Cpu;
use crate::joypad::JoypadState;
use crate::memory::Memory;
use crate::ppu::Ppu;
use crate::timer::Timer;

verus! {

pub struct Console {
    pub cpu: Cpu,
}

impl Console {
    /// The processor and every peripheral are well formed.
    pub open spec fn wf(self) -> bool {
        self.cpu.wf()
    }

    /// Whether a cycle can be taken: an interrupt will be served, or the
    /// processor can take a step.
    pub open spec fn can_cycle(self) -> bool {
        self.cpu.serves(self.cpu.pending()) || self.cpu.can_step()
    }

    /// What the processor does in one cycle of the console: it serves an
    /// interrupt if one is pending and IME is set, else it takes a step.
    pub open spec fn cpu_turn(self) -> (Cpu, u32) {
        if self.cpu.serves(self.cpu.pending()) {
            self.cpu.after_service(self.cpu.pending())
        } else {
            self.cpu.after_step()
        }
    }

    /// The peripherals caught up with `cycles` machine cycles of the
    /// processor: the pixel processing unit first, then the timer, each by
    /// four dots per machine cycle; then the lines that they and the joypad
    /// have raised are gathered into IF and taken from them. While the
    /// processor is stopped the timer stands still.
    pub open spec fn caught_up(memory: Memory, cycles: u32, stopped: bool) -> Memory {
        let ppu = memory.ppu.after_cycle((cycles * 4) as nat);
        let timer = if stopped {
            memory.timer
        } else {
            memory.timer.after_cycle((cycles * 4) as u32)
        };
        Memory {
            ppu: Ppu { vblank_line: false, stat_line: false, ..ppu },
            timer: Timer { inter: 0, ..timer },
            joy: JoypadState { inter: 0, ..memory.joy },
            interrupt_flag: memory.interrupt_flag | (ppu.lines() | timer.inter | memory.joy.inter),
            ..memory
        }
    }

    /// The console one cycle on.
    pub open spec fn after_cycle(self) -> Console {
        let turn = self.cpu_turn();
        Console { cpu: Cpu { mem: Self::caught_up(turn.0.mem, turn.1, turn.0.stopped), ..turn.0 } }
    }

    /// A console at power-on, with its cartridge slot empty.
    pub fn new() -> (console: Console)
        ensures
            console == (Console { cpu: Cpu::reset() }),
            console.wf(),
    {
        let console = Console { cpu: Default::default() };
        console
    }

    /// A console at power-on with a cartridge in its slot.
    pub fn with_cartridge(cartridge: NoMapperCartridge) -> (console: Console)
        ensures
            console == (Console {
                cpu: Cpu {
                    mem: Memory { cartridge: Slot::NoMapper(cartridge), ..Memory::reset() },
                    ..Cpu::reset()
                },
            }),
            console.wf(),
    {
        let mut console = Console::new();
        console.cpu.mem.cartridge = Slot::NoMapper(cartridge);
        console
    }

    /// Tells whether the console is well formed.
    pub fn is_well_formed(&self) -> (ok: bool)
        ensures
            ok == self.wf(),
    {
        self.cpu.is_well_formed()
    }

    /// Tells whether `cycle` can be called.
    pub fn check_cycle(&self) -> (ok: bool)
        ensures
            ok == self.can_cycle(),
    {
        let pending: u8 = self.cpu.pending_lines();
        if self.cpu.interrupts && crate::interrupts::find_lowest_line(pending).is_some() {
            true
        } else {
            self.cpu.check_step()
        }
    }

    /// Advances the console by one instruction, or by one interrupt served,
    /// and lets the peripherals catch up.
    pub fn cycle(&mut self)
        requires
            old(self).wf(),
            old(self).can_cycle(),
        ensures
            *final(self) == old(self).after_cycle(),
            final(self).wf(),
    {
        let pending: u8 = self.cpu.pending_lines();
        let cycles: u32 = if self.cpu.interrupts && crate::interrupts::find_lowest_line(
            pending,
        ).is_some() {
            self.cpu.service_interrupts(pending)
        } else {
            self.cpu.step()
        };
        let ticks: u32 = cycles * 4;
        self.cpu.mem.ppu.cycle(ticks);
        if !self.cpu.stopped {
            self.cpu.mem.timer.cycle(ticks);
        }
        let lines: u8 = self.cpu.mem.ppu.interrupt() | self.cpu.mem.timer.interrupt()
            | self.cpu.mem.joy.interrupt();
        self.cpu.mem.interrupt_flag = self.cpu.mem.interrupt_flag | lines;
        self.cpu.mem.ppu.ack();
        self.cpu.mem.timer.ack();
        self.cpu.mem.joy.ack();
    }
}

} // verus!

//! The address space: one read and one write that route a 16-bit address to
//! cartridge, video RAM, work RAM, object attribute memory, the I/O
//! registers and high RAM.
use vstd::prelude::*;
use vstd::array::spec_array_fill_for_copy_type;
use vstd::array::spec_array_update;
use crate::cartridge::Cartridge;
use crate::cartridge::Slot;
use crate::joypad::JoypadState;
use crate::ppu::Ppu;
use crate::registers::high_byte;
use crate::registers::join;
use crate::registers::low_byte;
use crate::registers::pair_of;
use crate::registers::split;
use crate::timer::Timer;

verus! {

/// Bytes of work RAM.
pub const RAM_SIZE: usize = 8_192;

/// Bytes of high RAM.
pub const HRAM_SIZE: usize = 127;

/// The address whose write starts a copy into the object attribute memory.
pub const DMA_ADDRESS: u16 = 0xFF46;

/// The bytes that one such copy moves.
pub const DMA_LENGTH: u16 = 0xA0;

pub struct Memory {
    pub ram: [u8; RAM_SIZE],
    pub hram: [u8; HRAM_SIZE],
    pub cartridge: Slot,
    pub joy: JoypadState,
    pub timer: Timer,
    pub ppu: Ppu,
    /// IF: the interrupt lines that are pending.
    pub interrupt_flag: u8,
    /// IE: the interrupt lines that may be served.
    pub interrupt_enable: u8,
}

/// The address one above, modulo 65536.
pub open spec fn next_addr(addr: u16) -> u16 {
    ((addr + 1) % 0x1_0000) as u16
}

impl Default for Memory {
    fn default() -> (memory: Memory)
        ensures
            memory == Memory::reset(),
            memory.wf(),
    {
        Memory {
            ram: [0u8; 8192],
            hram: [0u8; 127],
            cartridge: Slot::Empty,
            joy: Default::default(),
            timer: Default::default(),
            ppu: Default::default(),
            interrupt_flag: 0,
            interrupt_enable: 0,
        }
    }
}

impl Memory {
    /// The address space at power-on: RAM cleared, the slot empty, every
    /// peripheral in its power-on state, no interrupt pending or enabled.
    pub open spec fn reset() -> Memory {
        Memory {
            ram: spec_array_fill_for_copy_type::<u8, 8192>(0u8),
            hram: spec_array_fill_for_copy_type::<u8, 127>(0u8),
            cartridge: Slot::Empty,
            joy: JoypadState::reset(),
            timer: Timer::reset(),
            ppu: Ppu::reset(),
            interrupt_flag: 0,
            interrupt_enable: 0,
        }
    }

    /// Timer and pixel processing unit are well formed.
    pub open spec fn wf(self) -> bool {
        self.timer.wf() && self.ppu.wf()
    }

    /// What the I/O register at `addr`, in 0xFF00..=0xFF7F, reads as; 0xFF
    /// where there is none.
    pub open spec fn register_at(self, addr: u16) -> u8 {
        if addr == 0xFF00 {
            self.joy.matrix_byte()
        } else if addr == 0xFF04 {
            self.timer.div
        } else if addr == 0xFF05 {
            self.timer.tima
        } else if addr == 0xFF06 {
            self.timer.tma
        } else if addr == 0xFF07 {
            self.timer.tac_byte()
        } else if addr == 0xFF0F {
            self.interrupt_flag
        } else if addr == 0xFF40 {
            self.ppu.lcdc
        } else if addr == 0xFF41 {
            self.ppu.stat_byte()
        } else if addr == 0xFF42 {
            self.ppu.scy
        } else if addr == 0xFF43 {
            self.ppu.scx
        } else if addr == 0xFF44 {
            if self.ppu.lcd_enabled() {
                self.ppu.ly
            } else {
                0
            }
        } else if addr == 0xFF45 {
            self.ppu.lyc
        } else if addr == 0xFF46 {
            0
        } else if addr == 0xFF47 {
            self.ppu.bgp
        } else if addr == 0xFF48 {
            self.ppu.obp0
        } else if addr == 0xFF49 {
            self.ppu.obp1
        } else if addr == 0xFF4A {
            self.ppu.winy
        } else if addr == 0xFF4B {
            self.ppu.winx
        } else {
            0xFF
        }
    }

    /// The byte that a read at `addr` gives.
    #[verifier::opaque]
    pub open spec fn byte_at(self, addr: u16) -> u8 {
        if addr <= 0x7FFF {
            self.cartridge.rom_at(addr)
        } else if addr <= 0x9FFF {
            self.ppu.vram[addr as int % 0x2000]
        } else if addr <= 0xBFFF {
            self.cartridge.ram_at(addr)
        } else if addr <= 0xFDFF {
            self.ram[addr as int % 0x2000]
        } else if addr <= 0xFE9F {
            self.ppu.oam[addr - 0xFE00]
        } else if 0xFF00 <= addr <= 0xFF7F {
            self.register_at(addr)
        } else if 0xFF80 <= addr <= 0xFFFE {
            self.hram[addr - 0xFF80]
        } else if addr == 0xFFFF {
            self.interrupt_enable
        } else {
            0xFF
        }
    }

    /// The 16-bit value read at `addr`: its low byte at `addr`, its high
    /// byte at the address above.
    pub open spec fn word_at(self, addr: u16) -> u16 {
        pair_of(self.byte_at(next_addr(addr)), self.byte_at(addr))
    }

    /// The first `n` bytes of the page `page` copied into the object
    /// attribute memory, one after the other.
    pub open spec fn after_dma(self, page: u8, n: nat) -> Memory
        decreases n,
    {
        if n == 0 {
            self
        } else {
            let m = self.after_dma(page, (n - 1) as nat);
            let byte = m.byte_at((page * 0x100 + n - 1) as u16);
            Memory { ppu: Ppu { oam: spec_array_update(m.ppu.oam, n - 1, byte), ..m.ppu }, ..m }
        }
    }

    /// The address space after a write to the I/O register at `addr`, in
    /// 0xFF00..=0xFF7F. A write to LY, or where there is no register,
    /// changes nothing; a write to 0xFF46 copies a page into the object
    /// attribute memory.
    pub open spec fn after_write_register(self, addr: u16, val: u8) -> Memory {
        if addr == 0xFF00 {
            Memory { joy: self.joy.after_write(val), ..self }
        } else if addr == 0xFF04 {
            Memory { timer: self.timer.after_write_div(), ..self }
        } else if addr == 0xFF05 {
            Memory { timer: Timer { tima: val, ..self.timer }, ..self }
        } else if addr == 0xFF06 {
            Memory { timer: Timer { tma: val, ..self.timer }, ..self }
        } else if addr == 0xFF07 {
            Memory { timer: self.timer.after_write_tac(val), ..self }
        } else if addr == 0xFF0F {
            Memory { interrupt_flag: val, ..self }
        } else if addr == 0xFF40 {
            Memory { ppu: self.ppu.after_write_control(val), ..self }
        } else if addr == 0xFF41 {
            Memory { ppu: self.ppu.after_write_status(val), ..self }
        } else if addr == 0xFF42 {
            Memory { ppu: Ppu { scy: val, ..self.ppu }, ..self }
        } else if addr == 0xFF43 {
            Memory { ppu: Ppu { scx: val, ..self.ppu }, ..self }
        } else if addr == 0xFF45 {
            Memory { ppu: Ppu { lyc: val, ..self.ppu }, ..self }
        } else if addr == 0xFF46 {
            self.after_dma(val, 160)
        } else if addr == 0xFF47 {
            Memory { ppu: Ppu { bgp: val, ..self.ppu }, ..self }
        } else if addr == 0xFF48 {
            Memory { ppu: Ppu { obp0: (val / 4 * 4) as u8, ..self.ppu }, ..self }
        } else if addr == 0xFF49 {
            Memory { ppu: Ppu { obp1: (val / 4 * 4) as u8, ..self.ppu }, ..self }
        } else if addr == 0xFF4A {
            Memory { ppu: Ppu { winy: val, ..self.ppu }, ..self }
        } else if addr == 0xFF4B {
            Memory { ppu: Ppu { winx: val, ..self.ppu }, ..self }
        } else {
            self
        }
    }

    /// The address space after a write of `val` at `addr`.
    #[verifier::opaque]
    pub open spec fn after_write8(self, addr: u16, val: u8) -> Memory {
        if addr <= 0x7FFF {
            Memory { cartridge: self.cartridge.after_write_rom(addr, val), ..self }
        } else if addr <= 0x9FFF {
            Memory {
                ppu: Ppu {
                    vram: spec_array_update(self.ppu.vram, addr as int % 0x2000, val),
                    ..self.ppu
                },
                ..self
            }
        } else if addr <= 0xBFFF {
            Memory { cartridge: self.cartridge.after_write_ram(addr, val), ..self }
        } else if addr <= 0xFDFF {
            Memory { ram: spec_array_update(self.ram, addr as int % 0x2000, val), ..self }
        } else if addr <= 0xFE9F {
            Memory {
                ppu: Ppu { oam: spec_array_update(self.ppu.oam, addr - 0xFE00, val), ..self.ppu },
                ..self
            }
        } else if 0xFF00 <= addr <= 0xFF7F {
            self.after_write_register(addr, val)
        } else if 0xFF80 <= addr <= 0xFFFE {
            Memory { hram: spec_array_update(self.hram, addr - 0xFF80, val), ..self }
        } else if addr == 0xFFFF {
            Memory { interrupt_enable: val, ..self }
        } else {
            self
        }
    }

    /// The address space after a 16-bit write: the low byte goes to `addr`,
    /// the high byte to the address above.
    pub open spec fn after_write16(self, addr: u16, val: u16) -> Memory {
        self.after_write8(addr, low_byte(val)).after_write8(next_addr(addr), high_byte(val))
    }

    /// Tells whether the address space is well formed.
    pub fn is_well_formed(&self) -> (ok: bool)
        ensures
            ok == self.wf(),
    {
        self.timer.is_well_formed() && self.ppu.is_well_formed()
    }

    fn read_register(&self, addr: u16) -> (value: u8)
        requires
            0xFF00 <= addr <= 0xFF7F,
        ensures
            value == self.register_at(addr),
    {
        match addr {
            0xFF00 => self.joy.read(),
            0xFF04 => self.timer.read_div(),
            0xFF05 => self.timer.read_tima(),
            0xFF06 => self.timer.read_tma(),
            0xFF07 => self.timer.read_tac(),
            0xFF0F => self.interrupt_flag,
            0xFF40 => self.ppu.read_control(),
            0xFF41 => self.ppu.read_status(),
            0xFF42 => self.ppu.read_scy(),
            0xFF43 => self.ppu.read_scx(),
            0xFF44 => self.ppu.read_ly(),
            0xFF45 => self.ppu.read_lyc(),
            0xFF46 => 0,
            0xFF47 => self.ppu.read_bgp(),
            0xFF48 => self.ppu.read_obp0(),
            0xFF49 => self.ppu.read_obp1(),
            0xFF4A => self.ppu.read_wy(),
            0xFF4B => self.ppu.read_wx(),
            _ => 0xFF,
        }
    }

    fn write_register(&mut self, addr: u16, val: u8)
        requires
            0xFF00 <= addr <= 0xFF7F,
        ensures
            *final(self) == old(self).after_write_register(addr, val),
            old(self).wf() ==> final(self).wf(),
    {
        match addr {
            0xFF00 => self.joy.write(val),
            0xFF04 => self.timer.write_div(val),
            0xFF05 => self.timer.write_tima(val),
            0xFF06 => self.timer.write_tma(val),
            0xFF07 => self.timer.write_tac(val),
            0xFF0F => {
                self.interrupt_flag = val;
            },
            0xFF40 => self.ppu.write_control(val),
            0xFF41 => self.ppu.write_status(val),
            0xFF42 => self.ppu.write_scy(val),
            0xFF43 => self.ppu.write_scx(val),
            0xFF45 => self.ppu.write_lyc(val),
            0xFF46 => self.oam_dma(val),
            0xFF47 => self.ppu.write_bgp(val),
            0xFF48 => self.ppu.write_obp0(val),
            0xFF49 => self.ppu.write_obp1(val),
            0xFF4A => self.ppu.write_wy(val),
            0xFF4B => self.ppu.write_wx(val),
            _ => (),
        }
    }

    /// Reads the byte at `addr`.
    pub fn read8(&self, addr: u16) -> (value: u8)
        ensures
            value == self.byte_at(addr),
    {
        reveal(Memory::byte_at);
        match addr {
            0x0000..=0x7FFF => self.cartridge.read_rom(addr),
            0x8000..=0x9FFF => self.ppu.read_vram(addr),
            0xA000..=0xBFFF => self.cartridge.read_ram(addr),
            0xC000..=0xFDFF => self.ram[(addr % 0x2000) as usize],
            0xFE00..=0xFE9F => self.ppu.read_oam(addr),
            0xFF00..=0xFF7F => self.read_register(addr),
            0xFF80..=0xFFFE => self.hram[(addr - 0xFF80) as usize],
            0xFFFF => self.interrupt_enable,
            _ => 0xFF,
        }
    }

    /// Writes `val` at `addr`.
    pub fn write8(&mut self, addr: u16, val: u8)
        ensures
            *final(self) == old(self).after_write8(addr, val),
            old(self).wf() ==> final(self).wf(),
    {
        reveal(Memory::after_write8);
        match addr {
            0x0000..=0x7FFF => self.cartridge.write_rom(addr, val),
            0x8000..=0x9FFF => self.ppu.write_vram(addr, val),
            0xA000..=0xBFFF => self.cartridge.write_ram(addr, val),
            0xC000..=0xFDFF => {
                self.ram[(addr % 0x2000) as usize] = val;
            },
            0xFE00..=0xFE9F => self.ppu.write_oam(addr, val),
            0xFF00..=0xFF7F => self.write_register(addr, val),
            0xFF80..=0xFFFE => {
                self.hram[(addr - 0xFF80) as usize] = val;
            },
            0xFFFF => {
                self.interrupt_enable = val;
            },
            _ => (),
        }
    }

    /// Reads a 16-bit value, low byte first; the address above 0xFFFF is 0.
    pub fn read16(&self, addr: u16) -> (value: u16)
        ensures
            value == self.word_at(addr),
    {
        let lb: u8 = self.read8(addr);
        let hb: u8 = self.read8(addr.wrapping_add(1));
        join(hb, lb)
    }

    /// Writes a 16-bit value, low byte first; the address above 0xFFFF is 0.
    pub fn write16(&mut self, addr: u16, val: u16)
        ensures
            *final(self) == old(self).after_write16(addr, val),
            old(self).wf() ==> final(self).wf(),
    {
        let (hb, lb) = split(val);
        self.write8(addr, lb);
        self.write8(addr.wrapping_add(1), hb);
    }

    /// Copies the 160 bytes of the page `value` into the object attribute
    /// memory.
    pub fn oam_dma(&mut self, value: u8)
        ensures
            *final(self) == old(self).after_dma(value, 160),
            old(self).wf() ==> final(self).wf(),
    {
        let source_address: u16 = (value as u16) * 0x100;
        let mut offset: u16 = 0;
        while offset < DMA_LENGTH
            invariant
                offset <= 160,
                source_address == value * 0x100,
                *self == old(self).after_dma(value, offset as nat),
                old(self).wf() ==> self.wf(),
            decreases 160 - offset,
        {
            let byte: u8 = self.read8(source_address + offset);
            self.ppu.write_oam(0xFE00 + offset, byte);
            offset += 1;
        }
    }
}

/// After a copy from page `page`, byte `i` of the object attribute memory is
/// the byte that stood at `page * 0x100 + i` before it, and nothing else of
/// the address space has changed.
pub proof fn dma_copies_page(memory: Memory, page: u8, n: nat)
    requires
        n <= 160,
    ensures
        forall|i: int|
            0 <= i < n ==> #[trigger] memory.after_dma(page, n).ppu.oam[i] == memory.byte_at(
                (page * 0x100 + i) as u16,
            ),
        forall|i: int| n <= i < 160 ==> #[trigger] memory.after_dma(page, n).ppu.oam[i] == memory.ppu.oam[i],
        memory.after_dma(page, n) == (Memory {
            ppu: Ppu { oam: memory.after_dma(page, n).ppu.oam, ..memory.ppu },
            ..memory
        }),
    decreases n,
{
    reveal(Memory::byte_at);
    if n > 0 {
        dma_copies_page(memory, page, (n - 1) as nat);
        let m = memory.after_dma(page, (n - 1) as nat);
        let addr = (page * 0x100 + n - 1) as u16;
        assert(m.byte_at(addr) == memory.byte_at(addr));
    }
}

/// A write of `page` to 0xFF46 leaves in byte `i` of the object attribute
/// memory what a read at `page * 0x100 + i` gave before.
pub proof fn dma_write_fills_oam(memory: Memory, page: u8, i: int)
    requires
        0 <= i < 160,
    ensures
        memory.after_write8(DMA_ADDRESS, page).ppu.oam[i] == memory.byte_at(
            (page * 0x100 + i) as u16,
        ),
        memory.after_write8(DMA_ADDRESS, page).byte_at((0xFE00 + i) as u16) == memory.byte_at(
            (page * 0x100 + i) as u16,
        ),
{
    reveal(Memory::byte_at);
    reveal(Memory::after_write8);
    dma_copies_page(memory, page, 160);
}

/// What is written into the echo of work RAM is read from work RAM.
pub proof fn echo_write_shows_in_ram(memory: Memory, i: u16, val: u8)
    requires
        i <= 0x1DFF,
    ensures
        memory.after_write8((0xE000 + i) as u16, val).byte_at((0xC000 + i) as u16) == val,
        memory.after_write8((0xC000 + i) as u16, val).byte_at((0xE000 + i) as u16) == val,
{
    reveal(Memory::byte_at);
    reveal(Memory::after_write8);
}

/// A read from the echo gives what a read from work RAM gives.
pub proof fn echo_reads_ram(memory: Memory, i: u16)
    requires
        i <= 0x1DFF,
    ensures
        memory.byte_at((0xE000 + i) as u16) == memory.byte_at((0xC000 + i) as u16),
{
    reveal(Memory::byte_at);
}

} // verus!

verus! {

/// Whether `addr` lies in work RAM or in high RAM.
pub open spec fn in_ram(addr: u16) -> bool {
    0xC000 <= addr <= 0xDFFF || 0xFF80 <= addr <= 0xFFFE
}

/// A byte written into work RAM or high RAM is read back from there.
pub proof fn ram_write_reads_back(memory: Memory, addr: u16, val: u8)
    requires
        in_ram(addr),
    ensures
        memory.after_write8(addr, val).byte_at(addr) == val,
{
    reveal(Memory::byte_at);
    reveal(Memory::after_write8);
}

/// A byte written into work RAM or high RAM leaves every other byte of
/// them as it was.
pub proof fn ram_write_keeps_the_rest(memory: Memory, addr: u16, val: u8, other: u16)
    requires
        in_ram(addr),
        in_ram(other),
        other != addr,
    ensures
        memory.after_write8(addr, val).byte_at(other) == memory.byte_at(other),
{
    reveal(Memory::byte_at);
    reveal(Memory::after_write8);
}

/// A 16-bit value written into work RAM or high RAM is read back from
/// there.
pub proof fn word_write_reads_back(memory: Memory, addr: u16, val: u16)
    requires
        in_ram(addr),
        in_ram(next_addr(addr)),
    ensures
        memory.after_write16(addr, val).word_at(addr) == val,
{
    let low = memory.after_write8(addr, low_byte(val));
    ram_write_reads_back(memory, addr, low_byte(val));
    ram_write_reads_back(low, next_addr(addr), high_byte(val));
    ram_write_keeps_the_rest(low, next_addr(addr), high_byte(val), addr);
}

} // verus!

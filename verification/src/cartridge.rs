//! The cartridge slot: what a cartridge can do, the mapper kinds that a
//! header may name, and the cartridge without a mapper.
use vstd::prelude::*;

verus! {

/// Where the title starts in the header.
pub const TITLE_START: u16 = 0x0134;

/// The bytes that the title may take.
pub const TITLE_SIZE: u16 = 16;

/// Where the header names the mapper.
pub const CARTRIDGE_TYPE: u16 = 0x0147;

/// The size of a ROM image without a mapper: 32 KiB.
pub const ROM_SIZE: usize = 0x8000;

/// The memory bank controllers that a header can name.
#[derive(Clone, Copy, Debug, PartialEq, Eq, Structural)]
pub enum Mapper {
    NoMapper,
    MBC1,
    MBC2,
    MBC3,
    MBC4,
    MBC5,
    MBC6,
    MBC7,
    MMM01,
    M161,
    HuC1,
    HuC3,
    Other,
}

/// The mapper that a value of the header's cartridge-type byte stands for.
pub open spec fn mapper_of(value: u8) -> Mapper {
    if value == 0 || value == 8 || value == 9 {
        Mapper::NoMapper
    } else if 1 <= value <= 3 {
        Mapper::MBC1
    } else if value == 5 || value == 6 {
        Mapper::MBC2
    } else if 0x0B <= value <= 0x0D {
        Mapper::MMM01
    } else if 0x0F <= value <= 0x13 {
        Mapper::MBC3
    } else if 0x19 <= value <= 0x1E {
        Mapper::MBC5
    } else if value == 0x20 {
        Mapper::MBC6
    } else if value == 0x22 {
        Mapper::MBC7
    } else if value == 0xFE {
        Mapper::HuC3
    } else if value == 0xFF {
        Mapper::HuC1
    } else {
        Mapper::Other
    }
}

/// Reads a value of the header's cartridge-type byte.
pub fn mapper_from_code(value: u8) -> (kind: Mapper)
    ensures
        kind == mapper_of(value),
{
    match value {
        0 | 8 | 9 => Mapper::NoMapper,
        1..=3 => Mapper::MBC1,
        5 | 6 => Mapper::MBC2,
        0x0B..=0x0D => Mapper::MMM01,
        0x0F..=0x13 => Mapper::MBC3,
        0x19..=0x1E => Mapper::MBC5,
        0x20 => Mapper::MBC6,
        0x22 => Mapper::MBC7,
        0xFE => Mapper::HuC3,
        0xFF => Mapper::HuC1,
        _ => Mapper::Other,
    }
}

/// A byte that a title can show: a printable ASCII character.
pub open spec fn is_printable(byte: u8) -> bool {
    0x20 <= byte <= 0x7E
}

/// The index of the first byte at or after `from` that is not printable, or
/// the length if there is none.
pub open spec fn first_stop(bytes: Seq<u8>, from: int) -> int
    decreases bytes.len() - from,
{
    if from < 0 || from >= bytes.len() || !is_printable(bytes[from]) {
        from
    } else {
        first_stop(bytes, from + 1)
    }
}

/// The title that the bytes of a title field hold: the characters before
/// the first byte that is not printable.
pub open spec fn title_of(bytes: Seq<u8>) -> Seq<char> {
    Seq::new(first_stop(bytes, 0) as nat, |i: int| bytes[i] as char)
}

/// `String::push` appends the character to the end of the string and leaves
/// the characters before it as they were.
pub assume_specification[ String::push ](s: &mut String, ch: char)
    ensures
        final(s)@ == old(s)@.push(ch),
;

/// What every cartridge can do, whatever mapper it carries.
pub trait Cartridge: Sized {
    /// The byte that a read of ROM at `addr` gives.
    spec fn rom_at(&self, addr: u16) -> u8;

    /// The byte that a read of cartridge RAM at `addr` gives.
    spec fn ram_at(&self, addr: u16) -> u8;

    /// The cartridge after a write into the ROM area, which a mapper may
    /// take as a command.
    spec fn after_write_rom(&self, addr: u16, val: u8) -> Self;

    /// The cartridge after a write into its RAM area.
    spec fn after_write_ram(&self, addr: u16, val: u8) -> Self;

    /// Read at a specified address in ROM.
    fn read_rom(&self, addr: u16) -> (value: u8)
        ensures
            value == self.rom_at(addr),
    ;

    /// Read at a specified address in RAM.
    fn read_ram(&self, addr: u16) -> (value: u8)
        ensures
            value == self.ram_at(addr),
    ;

    /// Write a value at a specified address in ROM.
    fn write_rom(&mut self, addr: u16, val: u8)
        ensures
            *final(self) == old(self).after_write_rom(addr, val),
    ;

    /// Write a value at a specified address in RAM.
    fn write_ram(&mut self, addr: u16, val: u8)
        ensures
            *final(self) == old(self).after_write_ram(addr, val),
    ;

    /// The title in the header, up to its first byte that is not printable.
    fn title(&self) -> (title: String)
        ensures
            title@ == title_of(Seq::new(16, |i: int| self.rom_at((TITLE_START + i) as u16))),
    {
        let mut result = String::new();
        let ghost field = Seq::new(16, |i: int| self.rom_at((TITLE_START + i) as u16));
        let mut i: u16 = 0;
        while i < TITLE_SIZE
            invariant
                i <= 16,
                field == Seq::new(16, |i: int| self.rom_at((TITLE_START + i) as u16)),
                first_stop(field, 0) == first_stop(field, i as int),
                result@ == Seq::new(i as nat, |k: int| field[k] as char),
            decreases 16 - i,
        {
            let c: u8 = self.read_rom(TITLE_START + i);
            assert(c == field[i as int]);
            if 0x20 <= c && c <= 0x7E {
                result.push(c as char);
                assert(result@ =~= Seq::new((i + 1) as nat, |k: int| field[k] as char));
                i += 1;
            } else {
                return result;
            }
        }
        result
    }

    /// The mapper that the header names.
    fn mapper(&self) -> (kind: Mapper)
        ensures
            kind == mapper_of(self.rom_at(CARTRIDGE_TYPE)),
    {
        mapper_from_code(self.read_rom(CARTRIDGE_TYPE))
    }
}

/// Why an image could not be taken as a cartridge.
#[derive(Clone, Copy, Debug, PartialEq, Eq, Structural)]
pub enum LoadError {
    /// The image is not 32 KiB long.
    WrongSize,
    /// The header names a mapper, and only cartridges without one are built.
    UnsupportedMapper,
}

/// A cartridge of at most 32 KiB, which needs no mapper: its ROM is mapped
/// as it is.
pub struct NoMapperCartridge {
    pub data: Vec<u8>,
}

impl NoMapperCartridge {
    /// The image holds the whole ROM area.
    pub open spec fn wf(&self) -> bool {
        self.data@.len() == ROM_SIZE
    }

    /// Whether an image of these bytes can be taken, and if not, why.
    pub open spec fn check(image: Seq<u8>) -> Result<(), LoadError> {
        if image.len() != ROM_SIZE {
            Err(LoadError::WrongSize)
        } else if mapper_of(image[CARTRIDGE_TYPE as int]) != Mapper::NoMapper {
            Err(LoadError::UnsupportedMapper)
        } else {
            Ok(())
        }
    }

    /// Takes a ROM image of 32 KiB whose header names no mapper.
    pub fn new(image: Vec<u8>) -> (loaded: Result<NoMapperCartridge, LoadError>)
        ensures
            loaded is Ok <==> Self::check(image@) is Ok,
            loaded matches Ok(cartridge) ==> cartridge.data@ == image@ && cartridge.wf(),
            loaded matches Err(e) ==> Self::check(image@) == Err::<(), LoadError>(e),
    {
        if image.len() != ROM_SIZE {
            return Err(LoadError::WrongSize);
        }
        match mapper_from_code(image[CARTRIDGE_TYPE as usize]) {
            Mapper::NoMapper => Ok(NoMapperCartridge { data: image }),
            _ => Err(LoadError::UnsupportedMapper),
        }
    }
}

impl Cartridge for NoMapperCartridge {
    /// The byte of the image at `addr`; 0xFF past its end.
    open spec fn rom_at(&self, addr: u16) -> u8 {
        if addr < self.data@.len() {
            self.data@[addr as int]
        } else {
            0xFF
        }
    }

    /// There is no RAM: every read gives 0.
    open spec fn ram_at(&self, addr: u16) -> u8 {
        0
    }

    /// Writes into the ROM area change nothing.
    open spec fn after_write_rom(&self, addr: u16, val: u8) -> Self {
        *self
    }

    /// Writes into the RAM area change nothing.
    open spec fn after_write_ram(&self, addr: u16, val: u8) -> Self {
        *self
    }

    fn read_rom(&self, addr: u16) -> (value: u8) {
        if (addr as usize) < self.data.len() {
            self.data[addr as usize]
        } else {
            0xFF
        }
    }

    fn read_ram(&self, addr: u16) -> (value: u8) {
        0
    }

    fn write_rom(&mut self, addr: u16, val: u8) {
    }

    fn write_ram(&mut self, addr: u16, val: u8) {
    }
}

/// The cartridge slot of the console: empty, or holding a cartridge.
pub enum Slot {
    /// Nothing is plugged in: every read gives 0xFF.
    Empty,
    NoMapper(NoMapperCartridge),
}

impl Cartridge for Slot {
    open spec fn rom_at(&self, addr: u16) -> u8 {
        match self {
            Slot::Empty => 0xFF,
            Slot::NoMapper(cartridge) => cartridge.rom_at(addr),
        }
    }

    open spec fn ram_at(&self, addr: u16) -> u8 {
        match self {
            Slot::Empty => 0xFF,
            Slot::NoMapper(cartridge) => cartridge.ram_at(addr),
        }
    }

    open spec fn after_write_rom(&self, addr: u16, val: u8) -> Self {
        *self
    }

    open spec fn after_write_ram(&self, addr: u16, val: u8) -> Self {
        *self
    }

    fn read_rom(&self, addr: u16) -> (value: u8) {
        match self {
            Slot::Empty => 0xFF,
            Slot::NoMapper(cartridge) => cartridge.read_rom(addr),
        }
    }

    fn read_ram(&self, addr: u16) -> (value: u8) {
        match self {
            Slot::Empty => 0xFF,
            Slot::NoMapper(cartridge) => cartridge.read_ram(addr),
        }
    }

    fn write_rom(&mut self, addr: u16, val: u8) {
    }

    fn write_ram(&mut self, addr: u16, val: u8) {
    }
}

} // verus!

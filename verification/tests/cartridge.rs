use gameboy::cartridge::mapper_from_code;
use gameboy::cartridge::Cartridge;
use gameboy::cartridge::LoadError;
use gameboy::cartridge::Mapper;
use gameboy::cartridge::NoMapperCartridge;
use gameboy::cartridge::Slot;

fn image_titled(title: &[u8]) -> Vec<u8> {
    let mut image = vec![0u8; 0x8000];
    for (i, byte) in title.iter().enumerate() {
        image[0x0134 + i] = *byte;
    }
    image
}

#[test]
fn title_stops_at_the_first_zero() {
    let cart = NoMapperCartridge::new(image_titled(b"TETRIS")).unwrap();
    assert_eq!(cart.title(), "TETRIS");
}

#[test]
fn title_takes_all_sixteen_bytes() {
    let mut image = image_titled(b"ABCDEFGHIJKLMNOP");
    image[0x0144] = b'Q';
    let cart = NoMapperCartridge::new(image).unwrap();
    assert_eq!(cart.title(), "ABCDEFGHIJKLMNOP");
}

#[test]
fn title_stops_at_a_byte_that_is_not_printable() {
    let cart = NoMapperCartridge::new(image_titled(b"AB\x1FCD")).unwrap();
    assert_eq!(cart.title(), "AB");
    let cart = NoMapperCartridge::new(image_titled(b"XY\x7FZ")).unwrap();
    assert_eq!(cart.title(), "XY");
    let cart = NoMapperCartridge::new(image_titled(b"HI\x80THERE")).unwrap();
    assert_eq!(cart.title(), "HI");
}

#[test]
fn title_keeps_spaces_and_tildes() {
    let cart = NoMapperCartridge::new(image_titled(b"A B~C")).unwrap();
    assert_eq!(cart.title(), "A B~C");
}

#[test]
fn title_may_be_empty() {
    let cart = NoMapperCartridge::new(image_titled(b"")).unwrap();
    assert_eq!(cart.title(), "");
    assert_eq!(Slot::Empty.title(), "");
}

#[test]
fn title_of_the_slot_is_that_of_its_cartridge() {
    let slot = Slot::NoMapper(NoMapperCartridge::new(image_titled(b"ZELDA")).unwrap());
    assert_eq!(slot.title(), "ZELDA");
    assert_eq!(slot.mapper(), Mapper::NoMapper);
}

#[test]
fn mapper_codes() {
    let expected = [
        (0x00u8, Mapper::NoMapper),
        (0x01, Mapper::MBC1),
        (0x02, Mapper::MBC1),
        (0x03, Mapper::MBC1),
        (0x04, Mapper::Other),
        (0x05, Mapper::MBC2),
        (0x06, Mapper::MBC2),
        (0x07, Mapper::Other),
        (0x08, Mapper::NoMapper),
        (0x09, Mapper::NoMapper),
        (0x0A, Mapper::Other),
        (0x0B, Mapper::MMM01),
        (0x0D, Mapper::MMM01),
        (0x0E, Mapper::Other),
        (0x0F, Mapper::MBC3),
        (0x13, Mapper::MBC3),
        (0x14, Mapper::Other),
        (0x19, Mapper::MBC5),
        (0x1E, Mapper::MBC5),
        (0x1F, Mapper::Other),
        (0x20, Mapper::MBC6),
        (0x21, Mapper::Other),
        (0x22, Mapper::MBC7),
        (0xFD, Mapper::Other),
        (0xFE, Mapper::HuC3),
        (0xFF, Mapper::HuC1),
    ];
    for (code, mapper) in expected {
        assert_eq!(mapper_from_code(code), mapper);
    }
}

#[test]
fn mapper_is_read_from_the_header() {
    let mut image = vec![0u8; 0x8000];
    image[0x0147] = 0x09;
    let cart = NoMapperCartridge::new(image).unwrap();
    assert_eq!(cart.mapper(), Mapper::NoMapper);
    // nothing plugged in reads 0xFF everywhere
    assert_eq!(Slot::Empty.mapper(), Mapper::HuC1);
}

#[test]
fn image_of_the_wrong_size_is_refused() {
    assert_eq!(NoMapperCartridge::new(vec![0u8; 0x7FFF]).err(), Some(LoadError::WrongSize));
    assert_eq!(NoMapperCartridge::new(vec![0u8; 0x8001]).err(), Some(LoadError::WrongSize));
    assert_eq!(NoMapperCartridge::new(Vec::new()).err(), Some(LoadError::WrongSize));
}

#[test]
fn image_with_a_mapper_is_refused() {
    let mut image = vec![0u8; 0x8000];
    image[0x0147] = 0x01;
    assert_eq!(NoMapperCartridge::new(image).err(), Some(LoadError::UnsupportedMapper));
    let mut image = vec![0u8; 0x8000];
    image[0x0147] = 0x04;
    assert_eq!(NoMapperCartridge::new(image).err(), Some(LoadError::UnsupportedMapper));
}

#[test]
fn cartridge_without_mapper_reads_its_image() {
    let mut image = vec![0u8; 0x8000];
    image[0x0150] = 0xC3;
    image[0x7FFF] = 0x7E;
    let mut cart = NoMapperCartridge::new(image).unwrap();
    assert_eq!(cart.read_rom(0x0150), 0xC3);
    assert_eq!(cart.read_rom(0x7FFF), 0x7E);
    assert_eq!(cart.read_rom(0x8000), 0xFF);
    assert_eq!(cart.read_ram(0xA000), 0);
    cart.write_rom(0x0150, 0x00);
    cart.write_ram(0xA000, 0x12);
    assert_eq!(cart.read_rom(0x0150), 0xC3);
    assert_eq!(cart.read_ram(0xA000), 0);
}

#[test]
fn empty_slot_reads_ff_and_drops_writes() {
    let mut slot = Slot::Empty;
    slot.write_rom(0x0000, 0x12);
    slot.write_ram(0xA000, 0x34);
    assert_eq!(slot.read_rom(0x0000), 0xFF);
    assert_eq!(slot.read_ram(0xA000), 0xFF);
}

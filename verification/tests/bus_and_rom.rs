use nes_core::bus::Bus;
use nes_core::cartridge::{Cartridge, CartridgeError};
use nes_core::ines::{Ines, NametableArrangement, RomParseError};
use nes_core::{run, NesError};

fn container_bytes(program_blocks: u8, character_blocks: u8, mapper: u8) -> Vec<u8> {
    let mut bytes = vec![0x4E, 0x45, 0x53, 0x1A, program_blocks, character_blocks, 0x01, mapper << 4];
    bytes.resize(16, 0);
    bytes.resize(
        16 + program_blocks as usize * 16384 + character_blocks as usize * 8192,
        0xAB,
    );
    bytes
}

#[test]
fn reading_a_video_register_alias_reaches_the_register_owner() {
    // Writes through several mirrors of the third register are all seen
    // at 0x2002, however often the aliases are used.
    let mut bus = Bus::new(Cartridge::new(Ines::default()).unwrap());

    bus.write(0x2002, 0x11);
    assert_eq!(bus.read(0x2002), 0x11);

    bus.write(0x200A, 0x22);
    bus.write(0x3FFA, 0x33);
    assert_eq!(bus.read(0x2002), 0x33);
    assert_eq!(bus.read(0x200A), 0x33);
}

#[test]
fn writing_cartridge_space_reaches_the_mapper() {
    let mut bus = Bus::new(Cartridge::new(Ines::default()).unwrap());

    bus.write(0x9000, 0xCD);
    assert_eq!(bus.read(0x9000), 0xCD);

    // The write went to the cartridge, not to RAM or the registers.
    assert_eq!(bus.read(0x9000 % 0x0800), 0x00);
    assert_eq!(bus.read(0x2000 + (0x9000 - 0x2000) % 8), 0x00);
}

#[test]
fn work_ram_mirrors_every_two_kilobytes() {
    let mut bus = Bus::new(Cartridge::new(Ines::default()).unwrap());

    bus.write(0x0005, 0x99);
    assert_eq!(bus.read(0x0805), 0x99);
    assert_eq!(bus.read(0x1005), 0x99);
    assert_eq!(bus.read(0x1805), 0x99);

    bus.write(0x1806, 0x42);
    assert_eq!(bus.read(0x0006), 0x42);
}

#[test]
fn audio_range_reads_zero_and_drops_writes() {
    let mut bus = Bus::new(Cartridge::new(Ines::default()).unwrap());
    bus.write(0x4000, 0x55);
    bus.write(0x4014, 0x55);
    assert_eq!(bus.read(0x4000), 0);
    assert_eq!(bus.read(0x4014), 0);
    assert_eq!(bus.read(0x401F), 0);
}

#[test]
fn parse_round_trips_the_declared_program_size() {
    // The declared program size times its block size equals the byte
    // length actually supplied after the header.
    let bytes = container_bytes(1, 1, 0);
    let rom = Ines::parse(&bytes).unwrap();
    assert_eq!(
        rom.program_rom.len(),
        rom.header.program_rom_size_multiplier as usize * 16384
    );
    assert_eq!(rom.program_rom.len(), 16384);
    assert_eq!(rom.character_rom.len(), 8192);

    let bytes = container_bytes(2, 1, 0);
    let rom = Ines::parse(&bytes).unwrap();
    assert_eq!(
        rom.program_rom.len(),
        rom.header.program_rom_size_multiplier as usize * 16384
    );
    assert_eq!(rom.program_rom.len(), 32768);
}

#[test]
fn parse_decodes_the_header_fields() {
    let mut bytes = container_bytes(1, 1, 3);
    bytes[6] = 0x01;
    let rom = Ines::parse(&bytes).unwrap();
    assert_eq!(rom.header.mapper_number, 3);
    assert_eq!(rom.header.program_rom_size_multiplier, 1);
    assert_eq!(rom.header.character_rom_size_multiplier, 1);
    assert_eq!(
        rom.header.nametable_arrangement,
        NametableArrangement::HorizontalArrangement
    );
    assert_eq!(rom.program_rom[0], 0xAB);
}

#[test]
fn parse_rejects_bad_magic() {
    assert_eq!(
        Ines::parse(&[0x4E, 0x45, 0x53, 0x00, 1, 1, 0, 0]),
        Err(RomParseError::InvalidMagic)
    );
    assert_eq!(Ines::parse(&[]), Err(RomParseError::InvalidMagic));
}

#[test]
fn parse_rejects_truncated_sections() {
    let mut bytes = container_bytes(1, 1, 0);
    bytes.truncate(1000);
    assert_eq!(Ines::parse(&bytes), Err(RomParseError::Truncated));
}

#[test]
fn cartridge_rejects_unknown_mapper_numbers() {
    let mut rom = Ines::default();
    rom.header.mapper_number = 4;
    match Cartridge::new(rom) {
        Err(CartridgeError::UnsupportedMapper) => {},
        _ => panic!("an unknown mapper number must be a construction error"),
    }
}

#[test]
fn cartridge_rejects_odd_section_sizes() {
    let mut rom = Ines::default();
    rom.program_rom.truncate(1024);
    match Cartridge::new(rom) {
        Err(CartridgeError::UnsupportedRomLayout) => {},
        _ => panic!("a program section of an unsupported size must be refused"),
    }
}

#[test]
fn half_size_program_images_are_mirrored() {
    // A 16 KB image appears twice in the 32 KB window: the same byte
    // answers at 0x8000 and 0xC000.
    let mut bytes = container_bytes(1, 1, 0);
    bytes[16] = 0x77;
    let rom = Ines::parse(&bytes).unwrap();
    let cartridge = Cartridge::new(rom).unwrap();
    assert_eq!(cartridge.read(0x8000), 0x77);
    assert_eq!(cartridge.read(0xC000), 0x77);
}

#[test]
fn run_brings_up_a_session_from_bytes() {
    // The reset vector inside the image decides where execution starts.
    let mut bytes = container_bytes(2, 1, 0);
    bytes[16 + 0x7FFC] = 0x00;
    bytes[16 + 0x7FFD] = 0x80;
    let session = run(&bytes).unwrap();
    assert_eq!(session.cpu.program_counter, 0x8000);
    assert_eq!(session.cpu.stack_pointer, 0xFF);
    assert!(session.cpu.processor_status.interrupt_disable_flag());
}

#[test]
fn run_names_each_failure() {
    let bad_magic = run(&[0, 1, 2, 3]);
    assert!(matches!(
        bad_magic,
        Err(NesError::Rom(RomParseError::InvalidMagic))
    ));

    let mut truncated_bytes = container_bytes(2, 1, 0);
    truncated_bytes.truncate(64);
    let truncated = run(&truncated_bytes);
    assert!(matches!(
        truncated,
        Err(NesError::Rom(RomParseError::Truncated))
    ));

    let unsupported = run(&container_bytes(2, 1, 7));
    assert!(matches!(
        unsupported,
        Err(NesError::Cartridge(CartridgeError::UnsupportedMapper))
    ));

    let odd_layout = run(&container_bytes(3, 1, 0));
    assert!(matches!(
        odd_layout,
        Err(NesError::Cartridge(CartridgeError::UnsupportedRomLayout))
    ));
}

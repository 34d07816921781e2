//! The ROM container: a 16-byte header beginning with the four magic bytes
//! 0x4E 0x45 0x53 0x1A, then the program-ROM bytes, then the character-ROM
//! bytes. Byte 4 gives the program-ROM size in 16 KB units, byte 5 the
//! character-ROM size in 8 KB units, bit 0 of byte 6 the nametable
//! arrangement, and the high nibble of byte 7 the mapper number.

use vstd::prelude::*;

verus! {

pub const HEADER_BYTES: usize = 16;

pub const PROGRAM_BLOCK_BYTES: usize = 16384;

pub const CHARACTER_BLOCK_BYTES: usize = 8192;

/// Why a byte string is not a valid ROM container.
#[derive(Clone, Copy, Eq, PartialEq, Debug)]
pub enum RomParseError {
    /// The first four bytes are not the required magic values.
    InvalidMagic,
    /// The magic is right but the bytes end before the declared
    /// program-ROM and character-ROM sizes are reached.
    Truncated,
}

/// How the cartridge arranges its nametables, from bit 0 of header byte 6.
#[derive(Copy, Clone, Eq, PartialEq, Ord, PartialOrd, Hash, Debug, Default)]
pub enum NametableArrangement {
    // "horizontally mirrored"
    #[default]
    VerticalArrangement,
    // "vertically mirrored"
    HorizontalArrangement,
}

/// The decoded 16-byte header.
#[derive(Copy, Clone, Eq, PartialEq, Ord, PartialOrd, Hash, Debug)]
pub struct Header {
    /// Size of the program ROM in 16 KB units.
    pub program_rom_size_multiplier: u8,
    /// Size of the character ROM in 8 KB units.
    pub character_rom_size_multiplier: u8,
    pub nametable_arrangement: NametableArrangement,
    /// The high nibble of header byte 7.
    pub mapper_number: u8,
}

/// A parsed ROM image: the header and the two ROM sections it declares.
#[derive(Clone, Eq, PartialEq, Ord, PartialOrd, Hash, Debug)]
pub struct Ines {
    pub header: Header,
    pub program_rom: Vec<u8>,
    pub character_rom: Vec<u8>,
}

/// The four magic bytes stand at the front.
pub open spec fn magic_ok(bytes: Seq<u8>) -> bool {
    &&& bytes.len() >= HEADER_BYTES
    &&& bytes[0] == 0x4E
    &&& bytes[1] == 0x45
    &&& bytes[2] == 0x53
    &&& bytes[3] == 0x1A
}

/// The program-ROM byte count that the header declares.
pub open spec fn declared_program_bytes(bytes: Seq<u8>) -> int {
    bytes[4] * PROGRAM_BLOCK_BYTES
}

/// The character-ROM byte count that the header declares.
pub open spec fn declared_character_bytes(bytes: Seq<u8>) -> int {
    bytes[5] * CHARACTER_BLOCK_BYTES
}

/// The byte strings that parse: good magic, and enough bytes after the
/// header for both declared sections.
pub open spec fn parse_accepts(bytes: Seq<u8>) -> bool {
    &&& magic_ok(bytes)
    &&& bytes.len() >= HEADER_BYTES + declared_program_bytes(bytes) + declared_character_bytes(
        bytes,
    )
}

/// What a successful parse hands back: the header fields decoded from
/// bytes 4 to 7, and the two sections cut out behind the header at their
/// declared lengths.
pub open spec fn parse_ok(bytes: Seq<u8>, rom: Ines) -> bool {
    &&& parse_accepts(bytes)
    &&& rom.header.program_rom_size_multiplier == bytes[4]
    &&& rom.header.character_rom_size_multiplier == bytes[5]
    &&& rom.header.nametable_arrangement == (if bytes[6] % 2 == 1 {
        NametableArrangement::HorizontalArrangement
    } else {
        NametableArrangement::VerticalArrangement
    })
    &&& rom.header.mapper_number == bytes[7] / 16
    &&& rom.program_rom@ == bytes.subrange(
        HEADER_BYTES as int,
        HEADER_BYTES + declared_program_bytes(bytes),
    )
    &&& rom.character_rom@ == bytes.subrange(
        HEADER_BYTES + declared_program_bytes(bytes),
        HEADER_BYTES + declared_program_bytes(bytes) + declared_character_bytes(bytes),
    )
}

impl Ines {
    /// Reads a ROM container. Bad magic and a byte string shorter than the
    /// header declares are the two typed failures; anything else parses.
    pub fn parse(bytes: &[u8]) -> (r: Result<Ines, RomParseError>)
        ensures
            r is Ok <==> parse_accepts(bytes@),
            r matches Ok(rom) ==> parse_ok(bytes@, rom),
            r == Result::<Ines, RomParseError>::Err(RomParseError::InvalidMagic) <==> !magic_ok(
                bytes@,
            ),
    {
        if bytes.len() < HEADER_BYTES {
            return Err(RomParseError::InvalidMagic);
        }
        if !(bytes[0] == 0x4E && bytes[1] == 0x45 && bytes[2] == 0x53 && bytes[3] == 0x1A) {
            return Err(RomParseError::InvalidMagic);
        }
        let program_rom_size_multiplier = bytes[4];
        let character_rom_size_multiplier = bytes[5];
        let mapper_number = bytes[7] / 16;
        let nametable_arrangement = if bytes[6] % 2 == 1 {
            NametableArrangement::HorizontalArrangement
        } else {
            NametableArrangement::VerticalArrangement
        };

        let program_rom_size: usize = program_rom_size_multiplier as usize * PROGRAM_BLOCK_BYTES;
        let character_rom_size: usize = character_rom_size_multiplier as usize
            * CHARACTER_BLOCK_BYTES;

        if bytes.len() < HEADER_BYTES + program_rom_size
            || bytes.len() - HEADER_BYTES - program_rom_size < character_rom_size {
            return Err(RomParseError::Truncated);
        }
        let program_rom = copy_section(bytes, HEADER_BYTES, HEADER_BYTES + program_rom_size);
        let character_rom = copy_section(bytes, HEADER_BYTES + program_rom_size,
            HEADER_BYTES + program_rom_size + character_rom_size);

        let header = Header {
            program_rom_size_multiplier,
            character_rom_size_multiplier,
            nametable_arrangement,
            mapper_number,
        };

        Ok(Ines { header, program_rom, character_rom })
    }
}

/// Copies the bytes from `start` up to `end` into a fresh vector.
fn copy_section(bytes: &[u8], start: usize, end: usize) -> (r: Vec<u8>)
    requires
        start <= end <= bytes@.len(),
    ensures
        r@ == bytes@.subrange(start as int, end as int),
{
    let mut section: Vec<u8> = Vec::new();
    let mut i: usize = start;
    while i < end
        invariant
            start <= i <= end <= bytes@.len(),
            section@ == bytes@.subrange(start as int, i as int),
        decreases end - i,
    {
        section.push(bytes[i]);
        i = i + 1;
        proof {
            assert(section@ =~= bytes@.subrange(start as int, i as int));
        }
    }
    section
}

impl Default for Ines {
    /// A blank image with the default header: 32 KB of zeroed program ROM
    /// and 8 KB of zeroed character ROM.
    fn default() -> (r: Ines)
        ensures
            r.header == Header::spec_default(),
            r.program_rom@ == Seq::<u8>::new(2 * PROGRAM_BLOCK_BYTES as nat, |i: int| 0u8),
            r.character_rom@ == Seq::<u8>::new(CHARACTER_BLOCK_BYTES as nat, |i: int| 0u8),
    {
        let header = Header::default();
        let program_rom = zeroed_bytes(2 * PROGRAM_BLOCK_BYTES);
        let character_rom = zeroed_bytes(CHARACTER_BLOCK_BYTES);
        Ines { header, program_rom, character_rom }
    }
}

/// A vector of `count` zero bytes.
pub fn zeroed_bytes(count: usize) -> (r: Vec<u8>)
    ensures
        r@ == Seq::<u8>::new(count as nat, |i: int| 0u8),
{
    let mut section: Vec<u8> = Vec::new();
    let mut i: usize = 0;
    while i < count
        invariant
            i <= count,
            section@ == Seq::<u8>::new(i as nat, |j: int| 0u8),
        decreases count - i,
    {
        section.push(0);
        i = i + 1;
        proof {
            assert(section@ =~= Seq::<u8>::new(i as nat, |j: int| 0u8));
        }
    }
    section
}

impl Header {
    /// The header that `Default` builds: 32 KB of program ROM, 8 KB of
    /// character ROM, the default nametable arrangement, and mapper zero.
    pub open spec fn spec_default() -> Header {
        Header {
            program_rom_size_multiplier: 2,
            character_rom_size_multiplier: 1,
            nametable_arrangement: NametableArrangement::VerticalArrangement,
            mapper_number: 0,
        }
    }
}

impl Default for Header {
    /// The default header specifies 32KB of program rom, 8KB of character
    /// rom, the default nametable arrangement, and the fixed-bank mapper.
    fn default() -> (r: Header)
        ensures
            r == Header::spec_default(),
    {
        Header {
            program_rom_size_multiplier: 2,
            character_rom_size_multiplier: 1,
            nametable_arrangement: NametableArrangement::VerticalArrangement,
            mapper_number: 0,
        }
    }
}

/// Parsing and re-deriving the declared program-ROM size gives back the
/// byte length that actually follows the header: for any accepted byte
/// string, the program section's length equals its header multiplier times
/// the 16 KB block size, and both sections fit inside the input.
pub proof fn lemma_rom_size_round_trip(bytes: Seq<u8>, rom: Ines)
    requires
        parse_ok(bytes, rom),
    ensures
        rom.program_rom@.len() == rom.header.program_rom_size_multiplier
            * PROGRAM_BLOCK_BYTES,
        rom.character_rom@.len() == rom.header.character_rom_size_multiplier
            * CHARACTER_BLOCK_BYTES,
        HEADER_BYTES + rom.program_rom@.len() + rom.character_rom@.len() <= bytes.len(),
{
}

} // verus!

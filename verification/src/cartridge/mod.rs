//! The cartridge: a mapper selected once, by number, from the ROM header,
//! behind a closed sum so that the bus can read, write and clock it without
//! knowing the variant. One mapper is implemented: the fixed-bank board
//! with a 32 KB program window, mirrored when only 16 KB is supplied.

use crate::ines::Ines;
use vstd::prelude::*;

verus! {

/// The program window the bus sees: 32 KB, from address 0x8000 up.
pub const PROGRAM_WINDOW_BYTES: usize = 32768;

/// The character window exposed to the video subsystem: 8 KB.
pub const CHARACTER_WINDOW_BYTES: usize = 8192;

/// Why a parsed ROM image cannot become a cartridge.
#[derive(Clone, Copy, Eq, PartialEq, Debug)]
pub enum CartridgeError {
    /// The header names a mapper number this core does not implement.
    UnsupportedMapper,
    /// The mapper is known but the ROM sections do not have the sizes the
    /// board takes: 16 KB or 32 KB of program ROM and 8 KB of character ROM.
    UnsupportedRomLayout,
}

/// The fixed-bank reference mapper: a full 32 KB program window and an
/// 8 KB character window, no bank switching, nothing to do on a clock.
pub struct Nrom {
    pub program_rom: Vec<u8>,
    pub character_rom: Vec<u8>,
    pub initialized: bool,
}

/// The closed set of mapper variants a cartridge can carry.
pub enum Mapper {
    Nrom(Nrom),
}

/// The cartridge as the bus owns it.
pub struct Cartridge {
    pub mapper: Mapper,
}

/// The ROM section sizes the fixed-bank board accepts.
pub open spec fn nrom_layout_ok(rom: Ines) -> bool {
    &&& (rom.program_rom@.len() == PROGRAM_WINDOW_BYTES || rom.program_rom@.len()
        == PROGRAM_WINDOW_BYTES / 2)
    &&& rom.character_rom@.len() == CHARACTER_WINDOW_BYTES
}

/// The 32 KB window built from a program section: taken whole, or the
/// 16 KB image followed by itself.
pub open spec fn nrom_window(program: Seq<u8>) -> Seq<u8> {
    if program.len() == PROGRAM_WINDOW_BYTES {
        program
    } else {
        program + program
    }
}

/// The program bytes the cartridge holds.
pub open spec fn cart_program(c: Cartridge) -> Seq<u8> {
    match c.mapper {
        Mapper::Nrom(n) => n.program_rom@,
    }
}

/// The character bytes the cartridge holds.
pub open spec fn cart_character(c: Cartridge) -> Seq<u8> {
    match c.mapper {
        Mapper::Nrom(n) => n.character_rom@,
    }
}

pub open spec fn cart_initialized(c: Cartridge) -> bool {
    match c.mapper {
        Mapper::Nrom(n) => n.initialized,
    }
}

/// The windows keep their fixed sizes.
pub open spec fn cart_wf(c: Cartridge) -> bool {
    &&& cart_program(c).len() == PROGRAM_WINDOW_BYTES
    &&& cart_character(c).len() == CHARACTER_WINDOW_BYTES
}

/// What a byte read at `addr` in cartridge space returns: the program
/// window backs 0x8000 and up; below it this board maps nothing and the
/// read comes back zero.
pub open spec fn cart_spec_read(c: Cartridge, addr: u16) -> u8 {
    if addr >= 0x8000 {
        cart_program(c)[addr - 0x8000]
    } else {
        0
    }
}

/// What a write at `addr` does: at 0x8000 and up it lands in the program
/// window; below, the board maps nothing and the write is dropped.
pub open spec fn cart_write_ok(pre: Cartridge, post: Cartridge, addr: u16, byte: u8) -> bool {
    &&& cart_program(post) == (if addr >= 0x8000 {
        cart_program(pre).update(addr - 0x8000, byte)
    } else {
        cart_program(pre)
    })
    &&& cart_character(post) == cart_character(pre)
    &&& cart_initialized(post) == cart_initialized(pre)
}

/// Nothing in the cartridge differs.
pub open spec fn cart_same(a: Cartridge, b: Cartridge) -> bool {
    &&& cart_program(a) == cart_program(b)
    &&& cart_character(a) == cart_character(b)
    &&& cart_initialized(a) == cart_initialized(b)
}

impl Cartridge {
    /// Creates a new cartridge from a parsed ROM image. The mapper number
    /// is decoded exactly once, here; an unknown number is a construction
    /// error, never a silent fallback.
    pub fn new(rom: Ines) -> (r: Result<Cartridge, CartridgeError>)
        ensures
            r matches Err(e) ==> (e == CartridgeError::UnsupportedMapper <==> rom.header.mapper_number != 0),
            rom.header.mapper_number != 0 ==> r == Result::<Cartridge, CartridgeError>::Err(
                CartridgeError::UnsupportedMapper,
            ),
            rom.header.mapper_number == 0 && !nrom_layout_ok(rom) ==> r == Result::<
                Cartridge,
                CartridgeError,
            >::Err(CartridgeError::UnsupportedRomLayout),
            r is Ok <==> rom.header.mapper_number == 0 && nrom_layout_ok(rom),
            r matches Ok(c) ==> {
                &&& cart_wf(c)
                &&& cart_program(c) == nrom_window(rom.program_rom@)
                &&& cart_character(c) == rom.character_rom@
                &&& !cart_initialized(c)
            },
    {
        let mapper = select_mapper(rom)?;
        Ok(Cartridge { mapper })
    }

    /// Marks the cartridge ready; the bus checks this before running.
    pub fn initialize(&mut self)
        ensures
            cart_program(*final (self)) == cart_program(*old(self)),
            cart_character(*final (self)) == cart_character(*old(self)),
            cart_initialized(*final (self)),
    {
        match &mut self.mapper {
            Mapper::Nrom(n) => n.initialize(),
        }
    }

    pub fn initialized(&self) -> (r: bool)
        ensures
            r == cart_initialized(*self),
    {
        match &self.mapper {
            Mapper::Nrom(n) => n.initialized(),
        }
    }

    pub fn read(&self, address: u16) -> (r: u8)
        requires
            cart_wf(*self),
        ensures
            r == cart_spec_read(*self, address),
    {
        match &self.mapper {
            Mapper::Nrom(n) => n.read(address),
        }
    }

    pub fn write(&mut self, address: u16, byte: u8)
        requires
            cart_wf(*old(self)),
        ensures
            cart_wf(*final (self)),
            cart_write_ok(*old(self), *final (self), address, byte),
    {
        match &mut self.mapper {
            Mapper::Nrom(n) => n.write(address, byte),
        }
    }

    /// One machine-cycle tick handed down from the bus.
    pub fn clock(&mut self)
        ensures
            cart_same(*old(self), *final (self)),
    {
        match &mut self.mapper {
            Mapper::Nrom(n) => n.clock(),
        }
    }
}

/// Turns the header's mapper-number field into a mapper, a single total
/// decision with a defined failure for unknown numbers.
fn select_mapper(rom: Ines) -> (r: Result<Mapper, CartridgeError>)
    ensures
        rom.header.mapper_number != 0 ==> r == Result::<Mapper, CartridgeError>::Err(
            CartridgeError::UnsupportedMapper,
        ),
        rom.header.mapper_number == 0 && !nrom_layout_ok(rom) ==> r == Result::<
            Mapper,
            CartridgeError,
        >::Err(CartridgeError::UnsupportedRomLayout),
        r is Ok <==> rom.header.mapper_number == 0 && nrom_layout_ok(rom),
        r matches Ok(m) ==> match m {
            Mapper::Nrom(n) => {
                &&& n.program_rom@ == nrom_window(rom.program_rom@)
                &&& n.character_rom@ == rom.character_rom@
                &&& !n.initialized
            },
        },
{
    if rom.header.mapper_number != 0 {
        return Err(CartridgeError::UnsupportedMapper);
    }
    if !(rom.program_rom.len() == PROGRAM_WINDOW_BYTES || rom.program_rom.len()
        == PROGRAM_WINDOW_BYTES / 2) || rom.character_rom.len() != CHARACTER_WINDOW_BYTES {
        return Err(CartridgeError::UnsupportedRomLayout);
    }
    Ok(Mapper::Nrom(Nrom::new(rom)))
}

impl Nrom {
    /// Builds the fixed windows from a ROM image of the accepted sizes,
    /// mirroring a half-size program image into the full window.
    pub fn new(ines: Ines) -> (r: Nrom)
        requires
            nrom_layout_ok(ines),
        ensures
            r.program_rom@ == nrom_window(ines.program_rom@),
            r.character_rom@ == ines.character_rom@,
            !r.initialized,
    {
        let is_mirrored = ines.program_rom.len() != PROGRAM_WINDOW_BYTES;
        let program_rom = if is_mirrored {
            doubled(&ines.program_rom)
        } else {
            ines.program_rom
        };
        Nrom { program_rom, character_rom: ines.character_rom, initialized: false }
    }

    pub fn read(&self, address: u16) -> (r: u8)
        requires
            self.program_rom@.len() == PROGRAM_WINDOW_BYTES,
        ensures
            r == cart_spec_read(Cartridge { mapper: Mapper::Nrom(*self) }, address),
    {
        if address >= 0x8000 {
            self.program_rom[(address - 0x8000) as usize]
        } else {
            0
        }
    }

    pub fn write(&mut self, address: u16, byte: u8)
        requires
            old(self).program_rom@.len() == PROGRAM_WINDOW_BYTES,
        ensures
            final (self).program_rom@ == (if address >= 0x8000 {
                old(self).program_rom@.update(address - 0x8000, byte)
            } else {
                old(self).program_rom@
            }),
            final (self).character_rom@ == old(self).character_rom@,
            final (self).initialized == old(self).initialized,
    {
        if address >= 0x8000 {
            let i = (address - 0x8000) as usize;
            self.program_rom[i] = byte;
        }
    }

    /// This board holds no clocked state, so a tick changes nothing.
    pub fn clock(&mut self)
        ensures
            final (self).program_rom@ == old(self).program_rom@,
            final (self).character_rom@ == old(self).character_rom@,
            final (self).initialized == old(self).initialized,
    {
    }

    pub fn initialize(&mut self)
        ensures
            final (self).program_rom@ == old(self).program_rom@,
            final (self).character_rom@ == old(self).character_rom@,
            final (self).initialized,
    {
        self.initialized = true;
    }

    pub fn initialized(&self) -> (r: bool)
        ensures
            r == self.initialized,
    {
        self.initialized
    }
}

/// A vector holding the input's bytes twice over.
fn doubled(bytes: &Vec<u8>) -> (r: Vec<u8>)
    ensures
        r@ == bytes@ + bytes@,
{
    let mut out: Vec<u8> = Vec::new();
    let mut round: usize = 0;
    while round < 2
        invariant
            round <= 2,
            round == 0 ==> out@ == Seq::<u8>::empty(),
            round == 1 ==> out@ == bytes@,
            round == 2 ==> out@ == bytes@ + bytes@,
        decreases 2 - round,
    {
        let mut i: usize = 0;
        let ghost prefix = out@;
        while i < bytes.len()
            invariant
                i <= bytes@.len(),
                out@ == prefix + bytes@.subrange(0, i as int),
            decreases bytes@.len() - i,
        {
            out.push(bytes[i]);
            i = i + 1;
            proof {
                assert(out@ =~= prefix + bytes@.subrange(0, i as int));
            }
        }
        round = round + 1;
        proof {
            assert(bytes@.subrange(0, bytes@.len() as int) =~= bytes@);
        }
    }
    out
}

} // verus!

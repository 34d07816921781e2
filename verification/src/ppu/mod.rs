//! The video subsystem stub: eight raw registers that the bus reads and
//! writes without interpreting them, a packed control byte with named
//! fields, and a per-cycle tick that does no rendering work here.

use vstd::prelude::*;

verus! {

/// How many registers the video subsystem exposes on the bus.
pub const PPU_REGISTER_COUNT: usize = 8;

/// Holds the status of the ppu for its control register.
#[derive(Clone, Copy, Eq, PartialEq, Debug)]
pub struct PpuStatus(pub u8);

impl PpuStatus {
    pub fn new() -> (r: PpuStatus)
        ensures
            r.0 == 0,
    {
        PpuStatus(0)
    }

    /// Returns a code from 0-3
    /// The codes corresponding to base addresses are as follows:
    /// 0 = $2000
    /// 1 = $2400
    /// 2 = $2800
    /// 3 = $2C00
    pub fn base_nametable_address_code(&self) -> (r: u8)
        ensures
            r == self.0 % 4,
    {
        self.0 % 4
    }

    /// VRAM address increment per CPU read/write of the data register
    /// (0: add 1, going across; 1: add 32, going down)
    pub fn vram_address_increment(&self) -> (r: u8)
        ensures
            r == (self.0 / 4) % 2,
    {
        (self.0 / 4) % 2
    }

    /// Sprite pattern table address for 8x8 sprites
    /// (0: $0000; 1: $1000; ignored in 8x16 mode)
    pub fn sprite_pattern_table_address(&self) -> (r: u8)
        ensures
            r == (self.0 / 8) % 2,
    {
        (self.0 / 8) % 2
    }

    /// Background pattern table address (0: $0000; 1: $1000)
    pub fn background_pattern_table_address(&self) -> (r: u8)
        ensures
            r == (self.0 / 16) % 2,
    {
        (self.0 / 16) % 2
    }

    /// Sprite size (0: 8x8 pixels; 1: 8x16 pixels)
    pub fn sprite_size(&self) -> (r: u8)
        ensures
            r == (self.0 / 32) % 2,
    {
        (self.0 / 32) % 2
    }

    /// Master/slave select
    /// (0: read backdrop from EXT pins; 1: output color on EXT pins)
    pub fn master_slave_select(&self) -> (r: u8)
        ensures
            r == (self.0 / 64) % 2,
    {
        (self.0 / 64) % 2
    }

    /// Generate a non-maskable interrupt at the start of the
    /// vertical blanking interval (0: off; 1: on)
    pub fn generate_nmi_on_blanking(&self) -> (r: u8)
        ensures
            r == self.0 / 128,
    {
        self.0 / 128
    }
}

/// The video subsystem as the bus sees it: the raw register window and the
/// decoded control byte.
pub struct Ppu {
    pub registers: Vec<u8>,
    pub ppu_status: PpuStatus,
    pub initialized: bool,
}

/// The register file keeps its fixed size.
pub open spec fn ppu_wf(p: Ppu) -> bool {
    p.registers@.len() == PPU_REGISTER_COUNT
}

/// Both views hold the same registers, control byte and flag.
pub open spec fn ppu_same(a: Ppu, b: Ppu) -> bool {
    &&& a.registers@ == b.registers@
    &&& a.ppu_status == b.ppu_status
    &&& a.initialized == b.initialized
}

impl Ppu {
    /// Creates the PPU but does not initialize it. Please run
    /// [`Self::initialize`] to initialize the PPU.
    pub fn new() -> (r: Ppu)
        ensures
            ppu_wf(r),
            r.registers@ == Seq::<u8>::new(PPU_REGISTER_COUNT as nat, |i: int| 0u8),
            r.ppu_status.0 == 0,
            !r.initialized,
    {
        let registers = crate::ines::zeroed_bytes(PPU_REGISTER_COUNT);
        Ppu { registers, ppu_status: PpuStatus::new(), initialized: false }
    }

    /// Initialize the PPU.
    pub fn initialize(&mut self)
        ensures
            final (self).registers@ == old(self).registers@,
            final (self).ppu_status == old(self).ppu_status,
            final (self).initialized,
    {
        self.initialized = true;
    }

    /// Returns the state of initialization.
    pub fn initialized(&self) -> (r: bool)
        ensures
            r == self.initialized,
    {
        self.initialized
    }

    /// One video tick; the stub keeps all state as it is.
    pub fn clock(&mut self)
        ensures
            ppu_same(*old(self), *final (self)),
    {
    }
}

// "Read" Ppu controls
impl Ppu {
    pub fn read_ppu_status(&self) -> (r: u8)
        ensures
            r == 0,
    {
        0
    }

    pub fn read_oam_data(&self) -> (r: u8)
        ensures
            r == 0,
    {
        0
    }
}

// "Write" Ppu controls; the stub accepts and discards each write.
impl Ppu {
    pub fn write_ppu_ctrl(&mut self)
        ensures
            ppu_same(*old(self), *final (self)),
    {
    }

    pub fn write_ppu_mask(&mut self)
        ensures
            ppu_same(*old(self), *final (self)),
    {
    }

    pub fn write_oam_addr(&mut self)
        ensures
            ppu_same(*old(self), *final (self)),
    {
    }

    pub fn write_oam_data(&mut self)
        ensures
            ppu_same(*old(self), *final (self)),
    {
    }

    pub fn write_ppu_scroll(&mut self)
        ensures
            ppu_same(*old(self), *final (self)),
    {
    }

    pub fn write_ppu_addr(&mut self)
        ensures
            ppu_same(*old(self), *final (self)),
    {
    }

    pub fn write_ppu_data(&mut self)
        ensures
            ppu_same(*old(self), *final (self)),
    {
    }
}

} // verus!

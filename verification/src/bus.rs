//! The memory bus: sole owner of work RAM, the video-register window, the
//! audio stub and the cartridge. A 16-bit address decodes to exactly one of
//! those owners; mirroring is modulo arithmetic, never aliasing. The bus
//! also fans the machine-cycle tick out to the cartridge and, on a
//! one-in-four cadence, to the video subsystem.

use crate::apu::Apu;
use crate::cartridge::{cart_initialized, cart_program, cart_same, cart_spec_read, cart_wf,
    cart_write_ok, Cartridge};
use crate::ppu::{ppu_wf, Ppu, PPU_REGISTER_COUNT};
use vstd::prelude::*;

verus! {

/// Bytes of physical work RAM; the 0x0000-0x1FFF range mirrors it four
/// times over.
pub const WORK_RAM_BYTES: usize = 0x800;

/// The video subsystem ticks once for every four machine cycles.
pub const PPU_CLOCK_DIVISOR: u8 = 4;

// We use 2KB of work ram.
#[derive(Debug)]
pub struct WorkRAM(pub Vec<u8>);

/// Memory Map:
///
/// | Address range |  Size  |                         Device                         |
/// |:-------------:|:------:|:------------------------------------------------------:|
/// | $0000-$07FF   | $0800  | 2 KB internal RAM                                      |
/// | $0800-$1FFF   | $1800  | Three mirrors of $0000-$07FF                           |
/// | $2000-$2007   | $0008  | Video registers                                        |
/// | $2008-$3FFF   | $1FF8  | Mirrors of $2000-$2007 (repeats every 8 bytes)         |
/// | $4000-$401F   | $0020  | Audio and input registers, unimplemented passthrough   |
/// | $4020-$FFFF   | $BFE0  | Cartridge space, delegated to the mapper               |
pub struct Bus {
    pub work_ram: WorkRAM,
    pub ppu: Ppu,
    pub apu: Apu,
    pub cartridge: Cartridge,
    /// A counter for our current machine cycles that wraps around. We keep
    /// it so the video subsystem can tick on every 4th machine cycle.
    pub current_machine_cycles: u8,
}

/// The fixed shapes every bus operation preserves.
pub open spec fn bus_wf(b: Bus) -> bool {
    &&& b.work_ram.0@.len() == WORK_RAM_BYTES
    &&& ppu_wf(b.ppu)
    &&& cart_wf(b.cartridge)
}

/// The RAM cell an address in 0x0000-0x1FFF lands on.
pub open spec fn ram_index(addr: u16) -> int {
    (addr % 0x800) as int
}

/// The register an address in 0x2000-0x3FFF lands on.
pub open spec fn ppu_register_index(addr: u16) -> int {
    ((addr - 0x2000) % 8) as int
}

/// What a read returns: each address reaches exactly one owner. The
/// audio/input range is an unimplemented passthrough and reads as zero.
pub open spec fn bus_spec_read(b: Bus, addr: u16) -> u8 {
    if addr < 0x2000 {
        b.work_ram.0@[ram_index(addr)]
    } else if addr < 0x4000 {
        b.ppu.registers@[ppu_register_index(addr)]
    } else if addr < 0x4020 {
        0
    } else {
        cart_spec_read(b.cartridge, addr)
    }
}

/// No owner's memory differs between the two bus states.
pub open spec fn bus_same_memory(a: Bus, b: Bus) -> bool {
    &&& b.work_ram.0@ == a.work_ram.0@
    &&& b.ppu.registers@ == a.ppu.registers@
    &&& b.ppu.ppu_status == a.ppu.ppu_status
    &&& b.ppu.initialized == a.ppu.initialized
    &&& cart_same(a.cartridge, b.cartridge)
    &&& b.apu == a.apu
}

/// What one write does: the decoded owner takes the byte, every other
/// owner keeps its contents. A write into the audio/input range is
/// dropped, and the cycle counter never moves on a write.
pub open spec fn bus_write_ok(pre: Bus, post: Bus, addr: u16, byte: u8) -> bool {
    &&& post.apu == pre.apu
    &&& post.ppu.ppu_status == pre.ppu.ppu_status
    &&& post.ppu.initialized == pre.ppu.initialized
    &&& if addr < 0x2000 {
        &&& post.work_ram.0@ == pre.work_ram.0@.update(ram_index(addr), byte)
        &&& post.ppu.registers@ == pre.ppu.registers@
        &&& cart_same(pre.cartridge, post.cartridge)
    } else if addr < 0x4000 {
        &&& post.work_ram.0@ == pre.work_ram.0@
        &&& post.ppu.registers@ == pre.ppu.registers@.update(ppu_register_index(addr), byte)
        &&& cart_same(pre.cartridge, post.cartridge)
    } else if addr < 0x4020 {
        &&& post.work_ram.0@ == pre.work_ram.0@
        &&& post.ppu.registers@ == pre.ppu.registers@
        &&& cart_same(pre.cartridge, post.cartridge)
    } else {
        &&& post.work_ram.0@ == pre.work_ram.0@
        &&& post.ppu.registers@ == pre.ppu.registers@
        &&& cart_write_ok(pre.cartridge, post.cartridge, addr, byte)
    }
}

impl Bus {
    /// A bus owning zeroed RAM, fresh video and audio stubs, and the given
    /// cartridge.
    pub fn new(cartridge: Cartridge) -> (r: Bus)
        requires
            cart_wf(cartridge),
        ensures
            bus_wf(r),
            r.work_ram.0@ == Seq::<u8>::new(WORK_RAM_BYTES as nat, |i: int| 0u8),
            r.ppu.registers@ == Seq::<u8>::new(PPU_REGISTER_COUNT as nat, |i: int| 0u8),
            cart_same(r.cartridge, cartridge),
            r.current_machine_cycles == 0,
    {
        Bus {
            work_ram: WorkRAM(crate::ines::zeroed_bytes(WORK_RAM_BYTES)),
            ppu: Ppu::new(),
            apu: Apu::new(),
            cartridge,
            current_machine_cycles: 0,
        }
    }

    /// Decodes the address and reads the one owner it reaches.
    pub fn read(&self, address: u16) -> (r: u8)
        requires
            bus_wf(*self),
        ensures
            r == bus_spec_read(*self, address),
    {
        if address < 0x2000 {
            // Handle the work RAM and the mirrors.
            self.work_ram.0[(address % 0x800) as usize]
        } else if address < 0x4000 {
            // Handle video registers and the mirrors.
            self.ppu.registers[((address - 0x2000) % 8) as usize]
        } else if address < 0x4020 {
            // Audio and input range: unimplemented passthrough.
            0
        } else {
            // Route to cartridge mapper.
            self.cartridge.read(address)
        }
    }

    /// Decodes the address and hands the byte to the one owner it reaches.
    pub fn write(&mut self, address: u16, byte: u8)
        requires
            bus_wf(*old(self)),
        ensures
            bus_wf(*final (self)),
            bus_write_ok(*old(self), *final (self), address, byte),
            final (self).current_machine_cycles == old(self).current_machine_cycles,
    {
        if address < 0x2000 {
            // Handle the work RAM and the mirrors.
            let i = (address % 0x800) as usize;
            self.work_ram.0[i] = byte;
        } else if address < 0x4000 {
            // Handle video registers and the mirrors.
            let i = ((address - 0x2000) % 8) as usize;
            self.ppu.registers[i] = byte;
        } else if address < 0x4020 {
            // Audio and input range: the write is dropped.
        } else {
            // Route to cartridge mapper.
            self.cartridge.write(address, byte);
        }
    }

    /// One machine cycle: the cartridge always ticks, the video subsystem
    /// every fourth cycle, and the wrapping counter moves on by one.
    pub fn tick(&mut self)
        requires
            bus_wf(*old(self)),
        ensures
            bus_wf(*final (self)),
            bus_same_memory(*old(self), *final (self)),
            final (self).current_machine_cycles == vstd::wrapping::u8_specs::wrapping_add(
                old(self).current_machine_cycles,
                1,
            ),
    {
        if self.current_machine_cycles % PPU_CLOCK_DIVISOR == 0 {
            self.ppu.clock();
        }
        self.cartridge.clock();
        self.current_machine_cycles = self.current_machine_cycles.wrapping_add(1);
    }

    /// `count` machine cycles in a row.
    pub fn tick_many(&mut self, count: u8)
        requires
            bus_wf(*old(self)),
        ensures
            bus_wf(*final (self)),
            bus_same_memory(*old(self), *final (self)),
            final (self).current_machine_cycles == (old(self).current_machine_cycles + count)
                % 256,
    {
        let mut done: u8 = 0;
        while done < count
            invariant
                bus_wf(*self),
                bus_same_memory(*old(self), *self),
                done <= count,
                self.current_machine_cycles == (old(self).current_machine_cycles + done) % 256,
            decreases count - done,
        {
            self.tick();
            done = done + 1;
        }
    }
}

/// Address decoding is a function of the address alone: a read of 0x2002,
/// and of every address aliasing it through the 8-byte mirror, reaches the
/// video-register owner, whatever was written anywhere before.
pub proof fn lemma_read_reaches_video_registers(bus: Bus, addr: u16)
    requires
        0x2000 <= addr < 0x4000,
        (addr - 0x2000) % 8 == 2,
    ensures
        bus_spec_read(bus, addr) == bus.ppu.registers@[2],
        bus_spec_read(bus, 0x2002) == bus.ppu.registers@[2],
{
}

/// However the third video register was reached — through 0x2002 itself
/// or any address aliasing it through the 8-byte mirror — the byte that
/// was last written there is what a read of 0x2002 returns.
pub proof fn lemma_aliased_write_read_back(pre: Bus, post: Bus, addr: u16, byte: u8)
    requires
        0x2000 <= addr < 0x4000,
        (addr - 0x2000) % 8 == 2,
        bus_write_ok(pre, post, addr, byte),
        pre.ppu.registers@.len() == PPU_REGISTER_COUNT,
    ensures
        bus_spec_read(post, 0x2002) == byte,
{
}

/// A write at 0x4020 or above always reaches the cartridge mapper and
/// nothing else: RAM and the video registers keep their contents.
pub proof fn lemma_write_reaches_cartridge(pre: Bus, post: Bus, addr: u16, byte: u8)
    requires
        addr >= 0x4020,
        bus_write_ok(pre, post, addr, byte),
    ensures
        post.work_ram.0@ == pre.work_ram.0@,
        post.ppu.registers@ == pre.ppu.registers@,
        cart_write_ok(pre.cartridge, post.cartridge, addr, byte),
        addr >= 0x8000 ==> cart_program(post.cartridge) == cart_program(
            pre.cartridge,
        ).update(addr - 0x8000, byte),
{
}

} // verus!

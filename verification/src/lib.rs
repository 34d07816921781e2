//! An emulator core for the processing side of an 8-bit home console: a
//! 6502-family instruction interpreter wired to a 16-bit memory-mapped bus
//! that routes every access to work RAM, a video-register window, or the
//! cartridge mapper. Register, flag, and cycle behaviour of every
//! documented instruction is stated in the contracts and proved.

pub mod apu;
pub mod bus;
pub mod cartridge;
pub mod cpu;
pub mod ines;
pub mod ppu;
pub mod tile;

use crate::bus::{bus_same_memory, bus_spec_read, bus_wf, Bus, WORK_RAM_BYTES};
use crate::cartridge::{
    cart_character, cart_initialized, cart_program, cart_same, nrom_window, Cartridge,
    CartridgeError,
};
use crate::cpu::instruction::execution::spec_pack;
use crate::cpu::instruction::DecodeError;
use crate::cpu::{cycle_post, InterruptsContainer, CPU, RESET_VECTOR_ADDRESS};
use crate::ines::{
    declared_program_bytes, magic_ok, parse_accepts, Ines, RomParseError, HEADER_BYTES,
};
use vstd::prelude::*;

verus! {

/// Machine cycles on the shared bus per CPU cycle.
pub const CLOCK_DIVISOR: u8 = 12;

/// Why a byte string could not be brought up as a running session.
#[derive(Clone, Copy, Eq, PartialEq, Debug)]
pub enum NesError {
    Rom(RomParseError),
    Cartridge(CartridgeError),
}

/// A whole emulated system, ready to run instruction by instruction: the
/// CPU, the bus owning every other component, and the interrupt lines.
pub struct Session {
    pub cpu: CPU,
    pub bus: Bus,
    pub interrupts: InterruptsContainer,
}

pub open spec fn session_wf(s: Session) -> bool {
    bus_wf(s.bus)
}

impl Session {
    /// Assembles a powered-off system around the given cartridge: zeroed
    /// RAM and registers, inactive interrupt lines, nothing initialized.
    pub fn new(cartridge: Cartridge) -> (r: Session)
        requires
            crate::cartridge::cart_wf(cartridge),
        ensures
            session_wf(r),
            r.bus.work_ram.0@ == Seq::<u8>::new(WORK_RAM_BYTES as nat, |i: int| 0u8),
            r.bus.ppu.registers@ == Seq::<u8>::new(
                crate::ppu::PPU_REGISTER_COUNT as nat,
                |i: int| 0u8,
            ),
            cart_same(r.bus.cartridge, cartridge),
            r.bus.current_machine_cycles == 0,
            r.cpu.accumulator == 0 && r.cpu.x == 0 && r.cpu.y == 0,
            r.cpu.stack_pointer == crate::cpu::STACK_POINTER_STARTING_VALUE,
            r.cpu.processor_status.0 == 0,
            !r.cpu.initialized,
            !r.interrupts.interrupt_state,
            !r.interrupts.non_maskable_interrupt_state,
    {
        Session { cpu: CPU::new(), bus: Bus::new(cartridge), interrupts: InterruptsContainer::new() }
    }

    /// Brings every component up and resets the CPU: its program counter
    /// is loaded from the reset vector the cartridge maps. Memory contents
    /// are untouched.
    pub fn initialize(&mut self)
        requires
            session_wf(*old(self)),
        ensures
            session_wf(*final (self)),
            final (self).bus.work_ram.0@ == old(self).bus.work_ram.0@,
            final (self).bus.ppu.registers@ == old(self).bus.ppu.registers@,
            cart_program(final (self).bus.cartridge) == cart_program(old(self).bus.cartridge),
            cart_character(final (self).bus.cartridge) == cart_character(old(self).bus.cartridge),
            final (self).bus.current_machine_cycles == old(self).bus.current_machine_cycles,
            final (self).bus.ppu.initialized,
            cart_initialized(final (self).bus.cartridge),
            final (self).cpu.initialized,
            final (self).cpu.program_counter == spec_pack(
                bus_spec_read(old(self).bus, RESET_VECTOR_ADDRESS),
                bus_spec_read(old(self).bus, (RESET_VECTOR_ADDRESS + 1) as u16),
            ),
            final (self).cpu.stack_pointer == crate::cpu::STACK_POINTER_STARTING_VALUE,
            final (self).cpu.accumulator == old(self).cpu.accumulator,
            final (self).cpu.x == old(self).cpu.x,
            final (self).cpu.y == old(self).cpu.y,
            !final (self).cpu.processor_status.carry(),
            !final (self).cpu.processor_status.zero(),
            final (self).cpu.processor_status.interrupt_disable(),
            !final (self).cpu.processor_status.decimal(),
            !final (self).cpu.processor_status.break_bit(),
            !final (self).cpu.processor_status.overflow(),
            !final (self).cpu.processor_status.negative(),
            final (self).interrupts == old(self).interrupts,
    {
        self.bus.apu.initialize();
        self.bus.ppu.initialize();
        self.bus.cartridge.initialize();
        self.cpu.initialize(&self.bus);
    }

    /// As [`Self::initialize`], but execution starts at the given address
    /// instead of the one in the reset vector.
    pub fn initialize_test_mode(&mut self, start: u16)
        requires
            session_wf(*old(self)),
        ensures
            session_wf(*final (self)),
            final (self).bus.work_ram.0@ == old(self).bus.work_ram.0@,
            final (self).bus.ppu.registers@ == old(self).bus.ppu.registers@,
            cart_program(final (self).bus.cartridge) == cart_program(old(self).bus.cartridge),
            cart_character(final (self).bus.cartridge) == cart_character(old(self).bus.cartridge),
            final (self).bus.current_machine_cycles == old(self).bus.current_machine_cycles,
            final (self).cpu.initialized,
            final (self).cpu.program_counter == start,
            final (self).cpu.stack_pointer == crate::cpu::STACK_POINTER_STARTING_VALUE,
            final (self).cpu.accumulator == old(self).cpu.accumulator,
            final (self).cpu.x == old(self).cpu.x,
            final (self).cpu.y == old(self).cpu.y,
            !final (self).cpu.processor_status.carry(),
            !final (self).cpu.processor_status.zero(),
            final (self).cpu.processor_status.interrupt_disable(),
            !final (self).cpu.processor_status.decimal(),
            !final (self).cpu.processor_status.break_bit(),
            !final (self).cpu.processor_status.overflow(),
            !final (self).cpu.processor_status.negative(),
            final (self).interrupts == old(self).interrupts,
    {
        self.initialize();
        self.cpu.program_counter = start;
    }

    /// Runs one cycle of the cpu and returns how many cpu cycles it took.
    /// CPU cycles can be converted to machine cycles by multiplying by the
    /// clock divisor.
    pub fn clock_cpu(&mut self) -> (r: Result<u8, DecodeError>)
        requires
            session_wf(*old(self)),
        ensures
            session_wf(*final (self)),
            cycle_post(
                old(self).cpu,
                final (self).cpu,
                old(self).bus,
                final (self).bus,
                old(self).interrupts,
                final (self).interrupts,
                r,
            ),
            final (self).bus.current_machine_cycles == old(self).bus.current_machine_cycles,
            r matches Ok(c) ==> 2 <= c <= 7,
    {
        self.cpu.cycle(&mut self.bus, &mut self.interrupts)
    }

    /// Clocks the devices on the bus other than the cpu, such as the
    /// video subsystem and the cartridge, for the given machine cycles.
    pub fn clock_bus(&mut self, machine_cycles: u8)
        requires
            session_wf(*old(self)),
        ensures
            session_wf(*final (self)),
            final (self).cpu == old(self).cpu,
            final (self).interrupts == old(self).interrupts,
            bus_same_memory(old(self).bus, final (self).bus),
            final (self).bus.current_machine_cycles == (old(self).bus.current_machine_cycles
                + machine_cycles) % 256,
    {
        self.bus.tick_many(machine_cycles);
    }

    /// One full step of the system: the CPU runs one instruction (or one
    /// interrupt entry), then every bus device ticks once per elapsed
    /// machine cycle. No instruction executes partially: all of its reads
    /// and writes complete before any bus tick is issued.
    pub fn step(&mut self) -> (r: Result<u8, DecodeError>)
        requires
            session_wf(*old(self)),
        ensures
            session_wf(*final (self)),
            cycle_post(
                old(self).cpu,
                final (self).cpu,
                old(self).bus,
                final (self).bus,
                old(self).interrupts,
                final (self).interrupts,
                r,
            ),
            r matches Ok(c) ==> 2 <= c <= 7 && final (self).bus.current_machine_cycles == (old(
                self,
            ).bus.current_machine_cycles + c * CLOCK_DIVISOR) % 256,
    {
        let cycles = match self.clock_cpu() {
            Ok(c) => c,
            Err(e) => { return Err(e) },
        };
        let ghost mid = *self;
        self.clock_bus(cycles * CLOCK_DIVISOR);
        proof {
            lemma_cycle_post_memory_stable(
                old(self).cpu,
                self.cpu,
                old(self).bus,
                mid.bus,
                self.bus,
                old(self).interrupts,
                self.interrupts,
                Ok(cycles),
            );
        }
        Ok(cycles)
    }
}

/// A cycle's contract only speaks of memory contents and registers, so it
/// carries over to any later bus state with the same memory.
proof fn lemma_cycle_post_memory_stable(
    pre_cpu: CPU,
    post_cpu: CPU,
    pre_bus: Bus,
    mid_bus: Bus,
    post_bus: Bus,
    pre_int: InterruptsContainer,
    post_int: InterruptsContainer,
    r: Result<u8, DecodeError>,
)
    requires
        cycle_post(pre_cpu, post_cpu, pre_bus, mid_bus, pre_int, post_int, r),
        bus_same_memory(mid_bus, post_bus),
    ensures
        cycle_post(pre_cpu, post_cpu, pre_bus, post_bus, pre_int, post_int, r),
{
}

/// The stretch of `bytes` that parsing takes as the program section.
pub open spec fn program_section(bytes: Seq<u8>) -> Seq<u8> {
    bytes.subrange(HEADER_BYTES as int, HEADER_BYTES + declared_program_bytes(bytes))
}

/// The headers this core can bring up: mapper number zero, one or two
/// program blocks, and exactly one character block.
pub open spec fn rom_supported(bytes: Seq<u8>) -> bool {
    &&& bytes[7] / 16 == 0
    &&& (bytes[4] == 1 || bytes[4] == 2)
    &&& bytes[5] == 1
}

/// The programmatic entry point a host wraps: parses the ROM container,
/// selects the mapper, assembles the system and resets it. Succeeds
/// exactly on a well-formed container whose header this core supports;
/// each failure names its reason.
pub fn run(rom_bytes: &[u8]) -> (r: Result<Session, NesError>)
    ensures
        r is Ok <==> parse_accepts(rom_bytes@) && rom_supported(rom_bytes@),
        !magic_ok(rom_bytes@) ==> r == Result::<Session, NesError>::Err(
            NesError::Rom(RomParseError::InvalidMagic),
        ),
        magic_ok(rom_bytes@) && !parse_accepts(rom_bytes@) ==> r == Result::<
            Session,
            NesError,
        >::Err(NesError::Rom(RomParseError::Truncated)),
        parse_accepts(rom_bytes@) && rom_bytes@[7] / 16 != 0 ==> r == Result::<
            Session,
            NesError,
        >::Err(NesError::Cartridge(CartridgeError::UnsupportedMapper)),
        parse_accepts(rom_bytes@) && rom_bytes@[7] / 16 == 0 && !rom_supported(rom_bytes@)
            ==> r == Result::<Session, NesError>::Err(
            NesError::Cartridge(CartridgeError::UnsupportedRomLayout),
        ),
        r matches Ok(s) ==> {
            &&& session_wf(s)
            &&& cart_program(s.bus.cartridge) == nrom_window(program_section(rom_bytes@))
            &&& s.bus.work_ram.0@ == Seq::<u8>::new(WORK_RAM_BYTES as nat, |i: int| 0u8)
            &&& s.cpu.initialized
            &&& s.cpu.program_counter == spec_pack(
                bus_spec_read(s.bus, RESET_VECTOR_ADDRESS),
                bus_spec_read(s.bus, (RESET_VECTOR_ADDRESS + 1) as u16),
            )
            &&& s.cpu.stack_pointer == crate::cpu::STACK_POINTER_STARTING_VALUE
            &&& s.cpu.processor_status.interrupt_disable()
            &&& !s.cpu.processor_status.carry() && !s.cpu.processor_status.zero() && !s
                .cpu
                .processor_status
                .decimal() && !s.cpu.processor_status.overflow() && !s
                .cpu
                .processor_status
                .negative()
            &&& !s.interrupts.interrupt_state && !s.interrupts.non_maskable_interrupt_state
        },
{
    let rom = match Ines::parse(rom_bytes) {
        Ok(rom) => rom,
        Err(e) => { return Err(NesError::Rom(e)) },
    };
    let cartridge = match Cartridge::new(rom) {
        Ok(c) => c,
        Err(e) => { return Err(NesError::Cartridge(e)) },
    };
    let mut session = Session::new(cartridge);
    session.initialize();
    Ok(session)
}

} // verus!

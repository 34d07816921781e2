//! The CPU core: registers, the fetch/decode/execute loop, and interrupt
//! entry. The instruction set itself lives in `instruction`.

pub mod instruction;
pub mod processor_status;

use crate::bus::{bus_spec_read, bus_same_memory, bus_wf, Bus};
use crate::cpu::instruction::execution::{
    hi_byte, instruction_post, lo_byte, regs_same_except_pc, regs_same_except_sp_pc, spec_pack,
    stack_index, wrap16, wrap8,
};
use crate::cpu::instruction::{
    pair_legal, spec_bytes_required, spec_decode, DecodeError, FullOpcode, Instruction, Opcode,
};
use processor_status::ProcessorStatus;
use vstd::prelude::*;

verus! {

pub const STACK_POINTER_STARTING_VALUE: u8 = 0xFF;

pub const NMI_VECTOR_ADDRESS: u16 = 0xFFFA;

pub const RESET_VECTOR_ADDRESS: u16 = 0xFFFC;

pub const IRQ_BRK_VECTOR_ADDRESS: u16 = 0xFFFE;

/// The two interrupt request lines, checked between instructions.
#[derive(Debug, Clone, Copy, PartialEq, Eq)]
pub struct InterruptsContainer {
    pub interrupt_state: bool,
    pub non_maskable_interrupt_state: bool,
}

impl InterruptsContainer {
    /// Both lines start inactive.
    pub fn new() -> (r: InterruptsContainer)
        ensures
            !r.interrupt_state,
            !r.non_maskable_interrupt_state,
    {
        InterruptsContainer { interrupt_state: false, non_maskable_interrupt_state: false }
    }

    pub fn interrupt_state(&self) -> (r: bool)
        ensures
            r == self.interrupt_state,
    {
        self.interrupt_state
    }

    pub fn set_interrupt_state(&mut self, new_state: bool)
        ensures
            final (self).interrupt_state == new_state,
            final (self).non_maskable_interrupt_state == old(self).non_maskable_interrupt_state,
    {
        self.interrupt_state = new_state;
    }

    pub fn non_maskable_interrupt_state(&self) -> (r: bool)
        ensures
            r == self.non_maskable_interrupt_state,
    {
        self.non_maskable_interrupt_state
    }

    pub fn set_non_maskable_interrupt_state(&mut self, new_state: bool)
        ensures
            final (self).non_maskable_interrupt_state == new_state,
            final (self).interrupt_state == old(self).interrupt_state,
    {
        self.non_maskable_interrupt_state = new_state;
    }
}

/// The register file and the flag that construction is complete. The bus
/// is not owned here: it is passed by exclusive reference into each call
/// that needs it, so no reference cycle ever forms.
pub struct CPU {
    pub accumulator: u8,
    pub x: u8,
    pub y: u8,
    pub stack_pointer: u8,
    pub program_counter: u16,
    pub processor_status: ProcessorStatus,
    pub initialized: bool,
}

impl CPU {
    /// Creates a new CPU but does not initialize it as it needs to be
    /// connected to the bus to initialize. You can initialize it with
    /// [`Self::initialize`].
    pub fn new() -> (r: CPU)
        ensures
            r.accumulator == 0,
            r.x == 0,
            r.y == 0,
            r.stack_pointer == STACK_POINTER_STARTING_VALUE,
            r.program_counter == 0,
            r.processor_status.0 == 0,
            !r.initialized,
    {
        CPU {
            accumulator: 0,
            x: 0,
            y: 0,
            stack_pointer: STACK_POINTER_STARTING_VALUE,
            program_counter: 0,
            processor_status: ProcessorStatus::new(),
            initialized: false,
        }
    }

    /// The reset entry of the state machine: carry, zero, decimal,
    /// overflow, negative and break are cleared, interrupt disable is set,
    /// the stack pointer takes its starting value, and the program counter
    /// is loaded from the reset vector.
    pub fn initialize(&mut self, bus: &Bus)
        requires
            bus_wf(*bus),
        ensures
            final (self).accumulator == old(self).accumulator,
            final (self).x == old(self).x,
            final (self).y == old(self).y,
            final (self).stack_pointer == STACK_POINTER_STARTING_VALUE,
            final (self).program_counter == spec_pack(
                bus_spec_read(*bus, RESET_VECTOR_ADDRESS),
                bus_spec_read(*bus, (RESET_VECTOR_ADDRESS + 1) as u16),
            ),
            !final (self).processor_status.carry(),
            !final (self).processor_status.zero(),
            final (self).processor_status.interrupt_disable(),
            !final (self).processor_status.decimal(),
            !final (self).processor_status.break_bit(),
            !final (self).processor_status.overflow(),
            !final (self).processor_status.negative(),
            final (self).processor_status.bit5() == old(self).processor_status.bit5(),
            final (self).initialized,
    {
        self.processor_status.clear_carry_flag();
        self.processor_status.clear_zero_flag();
        self.processor_status.set_interrupt_disable_flag();
        self.processor_status.clear_decimal_flag();
        self.processor_status.clear_overflow_flag();
        self.processor_status.clear_negative_flag();
        self.processor_status.clear_break_flag();

        self.stack_pointer = STACK_POINTER_STARTING_VALUE;

        self.program_counter = {
            let low_byte = bus.read(RESET_VECTOR_ADDRESS);
            let high_byte = bus.read(RESET_VECTOR_ADDRESS + 1);
            instruction::execution::pack_bytes(low_byte, high_byte)
        };

        self.initialized = true;
    }

    pub fn initialized(&self) -> (r: bool)
        ensures
            r == self.initialized,
    {
        self.initialized
    }
}

/// The operand bytes an instruction carries match what its addressing mode
/// calls for.
pub open spec fn instr_operands_ok(i: Instruction) -> bool {
    &&& (spec_bytes_required(i.addressing_mode) >= 2 <==> i.low_byte is Some)
    &&& (spec_bytes_required(i.addressing_mode) == 3 <==> i.high_byte is Some)
}

/// The instruction that fetch reads at the current program counter: the
/// decoded opcode byte and, depending on the mode's length, one or two
/// operand bytes after it.
pub open spec fn fetched_instruction(pre: CPU, bus: Bus, f: FullOpcode) -> Instruction {
    Instruction {
        opcode: f.opcode,
        addressing_mode: f.addressing_mode,
        low_byte: if spec_bytes_required(f.addressing_mode) >= 2 {
            Some(bus_spec_read(bus, wrap16(pre.program_counter + 1)))
        } else {
            None
        },
        high_byte: if spec_bytes_required(f.addressing_mode) == 3 {
            Some(bus_spec_read(bus, wrap16(pre.program_counter + 2)))
        } else {
            None
        },
    }
}

impl CPU {
    /// Fetches the next instruction and advances the program counter past
    /// it. An undocumented opcode byte is reported and the processor state
    /// is left untouched.
    pub fn fetch(&mut self, bus: &Bus) -> (r: Result<Instruction, DecodeError>)
        requires
            bus_wf(*bus),
        ensures
            r is Ok <==> spec_decode(bus_spec_read(*bus, old(self).program_counter)) is Ok,
            r is Err ==> *final (self) == *old(self) && r == Result::<
                Instruction,
                DecodeError,
            >::Err(DecodeError::IllegalOpcode),
            r matches Ok(i) ==> {
                &&& spec_decode(bus_spec_read(*bus, old(self).program_counter)) matches Ok(f)
                    && i == fetched_instruction(*old(self), *bus, f)
                &&& pair_legal(i.opcode, i.addressing_mode)
                &&& instr_operands_ok(i)
                &&& final (self).program_counter == wrap16(
                    old(self).program_counter + spec_bytes_required(i.addressing_mode),
                )
                &&& regs_same_except_pc(*old(self), *final (self))
                &&& final (self).processor_status == old(self).processor_status
            },
    {
        let full_opcode = match FullOpcode::new(bus.read(self.program_counter)) {
            Ok(f) => f,
            Err(e) => { return Err(e) },
        };

        let bytes_required = full_opcode.addressing_mode.bytes_required();

        // Low byte comes first as words are in little-endian
        let (low_byte, high_byte): (Option<u8>, Option<u8>) = if bytes_required == 1 {
            (None, None)
        } else if bytes_required == 2 {
            (Some(bus.read(self.program_counter.wrapping_add(1))), None)
        } else {
            (
                Some(bus.read(self.program_counter.wrapping_add(1))),
                Some(bus.read(self.program_counter.wrapping_add(2))),
            )
        };

        // Decide how much we need to increment the PC
        proof {
            instruction::execution::lemma_wrapping_add_u16(self.program_counter, bytes_required);
            instruction::execution::lemma_wrapping_add_u16(self.program_counter, 1);
            instruction::execution::lemma_wrapping_add_u16(self.program_counter, 2);
        }
        self.program_counter = self.program_counter.wrapping_add(bytes_required);

        Ok(
            Instruction {
                opcode: full_opcode.opcode,
                addressing_mode: full_opcode.addressing_mode,
                low_byte,
                high_byte,
            },
        )
    }

    /// Executes the instruction and returns the amount of machine cycles
    /// that it took. Every opcode/addressing-mode pairing the decoder can
    /// produce has a handler here.
    pub fn execute(&mut self, instruction: Instruction, bus: &mut Bus) -> (cycles: u8)
        requires
            bus_wf(*old(bus)),
            pair_legal(instruction.opcode, instruction.addressing_mode),
        ensures
            bus_wf(*final (bus)),
            final (bus).current_machine_cycles == old(bus).current_machine_cycles,
            final (bus).current_machine_cycles == old(bus).current_machine_cycles,
            instruction_post(
                *old(self),
                *final (self),
                *old(bus),
                *final (bus),
                instruction,
                cycles,
            ),
            2 <= cycles <= 7,
    {
        let mode = instruction.addressing_mode;
        let low = match instruction.low_byte {
            Some(b) => b,
            None => 0,
        };
        let high = match instruction.high_byte {
            Some(b) => b,
            None => 0,
        };
        match instruction.opcode {
            Opcode::ADC => self.instruction_adc(bus, mode, low, high),
            Opcode::AND => self.instruction_and(bus, mode, low, high),
            Opcode::ASL => self.instruction_asl(bus, mode, low, high),
            Opcode::BCC => self.instruction_bcc(low),
            Opcode::BCS => self.instruction_bcs(low),
            Opcode::BEQ => self.instruction_beq(low),
            Opcode::BIT => self.instruction_bit(bus, mode, low, high),
            Opcode::BMI => self.instruction_bmi(low),
            Opcode::BNE => self.instruction_bne(low),
            Opcode::BPL => self.instruction_bpl(low),
            Opcode::BRK => self.instruction_brk(bus),
            Opcode::BVC => self.instruction_bvc(low),
            Opcode::BVS => self.instruction_bvs(low),
            Opcode::CLC => self.instruction_clc(),
            Opcode::CLD => self.instruction_cld(),
            Opcode::CLI => self.instruction_cli(),
            Opcode::CLV => self.instruction_clv(),
            Opcode::CMP => self.instruction_cmp(bus, mode, low, high),
            Opcode::CPX => self.instruction_cpx(bus, mode, low, high),
            Opcode::CPY => self.instruction_cpy(bus, mode, low, high),
            Opcode::DEC => self.instruction_dec(bus, mode, low, high),
            Opcode::DEX => self.instruction_dex(),
            Opcode::DEY => self.instruction_dey(),
            Opcode::EOR => self.instruction_eor(bus, mode, low, high),
            Opcode::INC => self.instruction_inc(bus, mode, low, high),
            Opcode::INX => self.instruction_inx(),
            Opcode::INY => self.instruction_iny(),
            Opcode::JMP => self.instruction_jmp(bus, mode, low, high),
            Opcode::JSR => self.instruction_jsr(bus, low, high),
            Opcode::LDA => self.instruction_lda(bus, mode, low, high),
            Opcode::LDX => self.instruction_ldx(bus, mode, low, high),
            Opcode::LDY => self.instruction_ldy(bus, mode, low, high),
            Opcode::LSR => self.instruction_lsr(bus, mode, low, high),
            Opcode::NOP => self.instruction_nop(),
            Opcode::ORA => self.instruction_ora(bus, mode, low, high),
            Opcode::PHA => self.instruction_pha(bus),
            Opcode::PHP => self.instruction_php(bus),
            Opcode::PLA => self.instruction_pla(bus),
            Opcode::PLP => self.instruction_plp(bus),
            Opcode::ROL => self.instruction_rol(bus, mode, low, high),
            Opcode::ROR => self.instruction_ror(bus, mode, low, high),
            Opcode::RTI => self.instruction_rti(bus),
            Opcode::RTS => self.instruction_rts(bus),
            Opcode::SBC => self.instruction_sbc(bus, mode, low, high),
            Opcode::SEC => self.instruction_sec(),
            Opcode::SED => self.instruction_sed(),
            Opcode::SEI => self.instruction_sei(),
            Opcode::STA => self.instruction_sta(bus, mode, low, high),
            Opcode::STX => self.instruction_stx(bus, mode, low, high),
            Opcode::STY => self.instruction_sty(bus, mode, low, high),
            Opcode::TAX => self.instruction_tax(),
            Opcode::TAY => self.instruction_tay(),
            Opcode::TSX => self.instruction_tsx(),
            Opcode::TXA => self.instruction_txa(),
            Opcode::TXS => self.instruction_txs(),
            Opcode::TYA => self.instruction_tya(),
        }
    }
}

/// What entering an interrupt does: the return address and the status
/// (break flag clear on the stored copy) go onto the stack, interrupt
/// disable is set, and the program counter is loaded from the handler's
/// vector.
pub open spec fn interrupt_entry_post(
    pre: CPU,
    post: CPU,
    pre_bus: Bus,
    post_bus: Bus,
    vector: u16,
) -> bool {
    &&& post_bus.work_ram.0@ == pre_bus.work_ram.0@.update(
        stack_index(pre.stack_pointer),
        hi_byte(pre.program_counter),
    ).update(
        stack_index(wrap8(pre.stack_pointer - 1)),
        lo_byte(pre.program_counter),
    ).update(stack_index(wrap8(pre.stack_pointer - 2)), pre.processor_status.0 & 0xEF)
    &&& post.processor_status.0 == pre.processor_status.0 | 0x04
    &&& post.stack_pointer == wrap8(pre.stack_pointer - 3)
    &&& post.program_counter == spec_pack(
        bus_spec_read(pre_bus, vector),
        bus_spec_read(pre_bus, (vector + 1) as u16),
    )
    &&& regs_same_except_sp_pc(pre, post)
    &&& post_bus.ppu.registers@ == pre_bus.ppu.registers@
    &&& post_bus.ppu.ppu_status == pre_bus.ppu.ppu_status
    &&& post_bus.ppu.initialized == pre_bus.ppu.initialized
    &&& crate::cartridge::cart_same(pre_bus.cartridge, post_bus.cartridge)
    &&& post_bus.apu == pre_bus.apu
}

/// What one full instruction cycle does. A pending non-maskable request
/// wins over a maskable one, is consumed, and enters through its vector; a
/// maskable request enters only while interrupt disable is clear and stays
/// pending (the line is level-held). Otherwise the instruction at the
/// program counter is fetched and executed, or reported as illegal with
/// nothing changed.
pub open spec fn cycle_post(
    pre: CPU,
    post: CPU,
    pre_bus: Bus,
    post_bus: Bus,
    pre_int: InterruptsContainer,
    post_int: InterruptsContainer,
    r: Result<u8, DecodeError>,
) -> bool {
    if pre_int.non_maskable_interrupt_state {
        &&& r == Result::<u8, DecodeError>::Ok(7)
        &&& interrupt_entry_post(pre, post, pre_bus, post_bus, NMI_VECTOR_ADDRESS)
        &&& !post_int.non_maskable_interrupt_state
        &&& post_int.interrupt_state == pre_int.interrupt_state
    } else if pre_int.interrupt_state && !pre.processor_status.interrupt_disable() {
        &&& r == Result::<u8, DecodeError>::Ok(7)
        &&& interrupt_entry_post(pre, post, pre_bus, post_bus, IRQ_BRK_VECTOR_ADDRESS)
        &&& post_int == pre_int
    } else {
        &&& post_int == pre_int
        &&& match spec_decode(bus_spec_read(pre_bus, pre.program_counter)) {
            Err(e) => {
                &&& r == Result::<u8, DecodeError>::Err(e)
                &&& post == pre
                &&& bus_same_memory(pre_bus, post_bus)
            },
            Ok(f) => {
                &&& r matches Ok(cycles) && instruction_post(
                    CPU {
                        program_counter: wrap16(
                            pre.program_counter + spec_bytes_required(f.addressing_mode),
                        ),
                        ..pre
                    },
                    post,
                    pre_bus,
                    post_bus,
                    fetched_instruction(pre, pre_bus, f),
                    cycles,
                )
            },
        }
    }
}

impl CPU {
    /// Pushes the interrupted position and status and redirects execution
    /// through the given vector; seven cycles, as on the hardware.
    fn interrupt_entry(&mut self, bus: &mut Bus, vector: u16) -> (cycles: u8)
        requires
            bus_wf(*old(bus)),
            0x4020 <= vector < 0xFFFF,
        ensures
            bus_wf(*final (bus)),
            final (bus).current_machine_cycles == old(bus).current_machine_cycles,
            final (bus).current_machine_cycles == old(bus).current_machine_cycles,
            interrupt_entry_post(*old(self), *final (self), *old(bus), *final (bus), vector),
            cycles == 7,
    {
        let (pc_low, pc_high) = instruction::execution::unpack_bytes(self.program_counter);

        self.push(bus, pc_high);
        self.push(bus, pc_low);

        // The stored copy has the break flag clear, which is what tells an
        // interrupt apart from a software break.
        let status_byte = self.processor_status.0 & 0xEF;
        self.push(bus, status_byte);

        self.processor_status.set_interrupt_disable_flag();

        self.program_counter = instruction::execution::pack_bytes(
            bus.read(vector),
            bus.read(vector + 1),
        );

        7
    }

    /// Runs a full instruction cycle, interrupt check included. Returns
    /// the amount of machine cycles taken, or reports the illegal opcode
    /// byte the program counter pointed at.
    pub fn cycle(&mut self, bus: &mut Bus, interrupts: &mut InterruptsContainer) -> (r: Result<
        u8,
        DecodeError,
    >)
        requires
            bus_wf(*old(bus)),
        ensures
            bus_wf(*final (bus)),
            final (bus).current_machine_cycles == old(bus).current_machine_cycles,
            final (bus).current_machine_cycles == old(bus).current_machine_cycles,
            cycle_post(
                *old(self),
                *final (self),
                *old(bus),
                *final (bus),
                *old(interrupts),
                *final (interrupts),
                r,
            ),
            r matches Ok(c) ==> 2 <= c <= 7,
    {
        // check for interrupts: a non-maskable request wins and is
        // consumed; a maskable one enters only while not disabled.
        if interrupts.non_maskable_interrupt_state() {
            interrupts.set_non_maskable_interrupt_state(false);
            let cycles = self.interrupt_entry(bus, NMI_VECTOR_ADDRESS);
            return Ok(cycles);
        }
        if interrupts.interrupt_state() && !self.processor_status.interrupt_disable_flag() {
            let cycles = self.interrupt_entry(bus, IRQ_BRK_VECTOR_ADDRESS);
            return Ok(cycles);
        }

        // fetch
        let instruction = match self.fetch(bus) {
            Ok(i) => i,
            Err(e) => { return Err(e) },
        };

        // execute
        Ok(self.execute(instruction, bus))
    }
}

} // verus!

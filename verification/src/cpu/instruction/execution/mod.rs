//! Shared machinery for the instruction handlers: byte packing, two's
//! complement, the addressing-mode resolvers with their page-crossing
//! flags, the stack, and the zero/negative flag helpers. The spec functions
//! here are the vocabulary every handler contract is written in.

pub mod arithmetic;
pub mod branches;
pub mod incr_decr;
pub mod jumps_calls;
pub mod load_store;
pub mod logical;
pub mod register_transfers;
pub mod shifts;
pub mod stack;
pub mod status_flags;
pub mod system;

use crate::bus::{bus_spec_read, bus_same_memory, bus_wf, bus_write_ok, Bus};
use crate::cpu::instruction::{AddressingMode, Instruction, Opcode};
use crate::cpu::processor_status::{eq_except_negative, eq_except_zero, ProcessorStatus};
use crate::cpu::CPU;
use vstd::prelude::*;

verus! {

/// What one executed instruction does, case by case: the dispatcher's
/// whole contract. The instructions that only read the bus, or never touch
/// it, leave it exactly as it was.
pub open spec fn instruction_post(
    pre: CPU,
    post: CPU,
    pre_bus: Bus,
    post_bus: Bus,
    i: Instruction,
    cycles: u8,
) -> bool {
    let mode = i.addressing_mode;
    let low = some_or_zero(i.low_byte);
    let high = some_or_zero(i.high_byte);
    match i.opcode {
        Opcode::ADC => arithmetic::adc_post(pre, post, pre_bus, mode, low, high, cycles)
            && bus_same_memory(pre_bus, post_bus),
        Opcode::AND => logical::and_post(pre, post, pre_bus, mode, low, high, cycles)
            && bus_same_memory(pre_bus, post_bus),
        Opcode::ASL => shifts::asl_post(pre, post, pre_bus, post_bus, mode, low, high, cycles),
        Opcode::BCC => branches::branch_post(pre, post, low, !pre.processor_status.carry(), cycles)
            && bus_same_memory(pre_bus, post_bus),
        Opcode::BCS => branches::branch_post(pre, post, low, pre.processor_status.carry(), cycles)
            && bus_same_memory(pre_bus, post_bus),
        Opcode::BEQ => branches::branch_post(pre, post, low, pre.processor_status.zero(), cycles)
            && bus_same_memory(pre_bus, post_bus),
        Opcode::BIT => logical::bit_post(pre, post, pre_bus, mode, low, high, cycles)
            && bus_same_memory(pre_bus, post_bus),
        Opcode::BMI => branches::branch_post(
            pre,
            post,
            low,
            pre.processor_status.negative(),
            cycles,
        ) && bus_same_memory(pre_bus, post_bus),
        Opcode::BNE => branches::branch_post(pre, post, low, !pre.processor_status.zero(), cycles)
            && bus_same_memory(pre_bus, post_bus),
        Opcode::BPL => branches::branch_post(
            pre,
            post,
            low,
            !pre.processor_status.negative(),
            cycles,
        ) && bus_same_memory(pre_bus, post_bus),
        Opcode::BRK => system::brk_post(pre, post, pre_bus, post_bus, cycles),
        Opcode::BVC => branches::branch_post(
            pre,
            post,
            low,
            !pre.processor_status.overflow(),
            cycles,
        ) && bus_same_memory(pre_bus, post_bus),
        Opcode::BVS => branches::branch_post(
            pre,
            post,
            low,
            pre.processor_status.overflow(),
            cycles,
        ) && bus_same_memory(pre_bus, post_bus),
        Opcode::CLC => status_flags::clc_post(pre, post, cycles) && bus_same_memory(
            pre_bus,
            post_bus,
        ),
        Opcode::CLD => status_flags::cld_post(pre, post, cycles) && bus_same_memory(
            pre_bus,
            post_bus,
        ),
        Opcode::CLI => status_flags::cli_post(pre, post, cycles) && bus_same_memory(
            pre_bus,
            post_bus,
        ),
        Opcode::CLV => status_flags::clv_post(pre, post, cycles) && bus_same_memory(
            pre_bus,
            post_bus,
        ),
        Opcode::CMP => arithmetic::compare_post(
            pre,
            post,
            pre_bus,
            mode,
            low,
            high,
            pre.accumulator,
            cycles,
        ) && bus_same_memory(pre_bus, post_bus),
        Opcode::CPX => arithmetic::compare_post(
            pre,
            post,
            pre_bus,
            mode,
            low,
            high,
            pre.x,
            cycles,
        ) && bus_same_memory(pre_bus, post_bus),
        Opcode::CPY => arithmetic::compare_post(
            pre,
            post,
            pre_bus,
            mode,
            low,
            high,
            pre.y,
            cycles,
        ) && bus_same_memory(pre_bus, post_bus),
        Opcode::DEC => incr_decr::dec_post(pre, post, pre_bus, post_bus, mode, low, high, cycles),
        Opcode::DEX => incr_decr::dex_post(pre, post, cycles) && bus_same_memory(pre_bus, post_bus),
        Opcode::DEY => incr_decr::dey_post(pre, post, cycles) && bus_same_memory(pre_bus, post_bus),
        Opcode::EOR => logical::eor_post(pre, post, pre_bus, mode, low, high, cycles)
            && bus_same_memory(pre_bus, post_bus),
        Opcode::INC => incr_decr::inc_post(pre, post, pre_bus, post_bus, mode, low, high, cycles),
        Opcode::INX => incr_decr::inx_post(pre, post, cycles) && bus_same_memory(pre_bus, post_bus),
        Opcode::INY => incr_decr::iny_post(pre, post, cycles) && bus_same_memory(pre_bus, post_bus),
        Opcode::JMP => jumps_calls::jmp_post(pre, post, pre_bus, mode, low, high, cycles)
            && bus_same_memory(pre_bus, post_bus),
        Opcode::JSR => jumps_calls::jsr_post(pre, post, pre_bus, post_bus, low, high, cycles),
        Opcode::LDA => load_store::lda_post(pre, post, pre_bus, mode, low, high, cycles)
            && bus_same_memory(pre_bus, post_bus),
        Opcode::LDX => load_store::ldx_post(pre, post, pre_bus, mode, low, high, cycles)
            && bus_same_memory(pre_bus, post_bus),
        Opcode::LDY => load_store::ldy_post(pre, post, pre_bus, mode, low, high, cycles)
            && bus_same_memory(pre_bus, post_bus),
        Opcode::LSR => shifts::lsr_post(pre, post, pre_bus, post_bus, mode, low, high, cycles),
        Opcode::NOP => system::nop_post(pre, post, cycles) && bus_same_memory(pre_bus, post_bus),
        Opcode::ORA => logical::ora_post(pre, post, pre_bus, mode, low, high, cycles)
            && bus_same_memory(pre_bus, post_bus),
        Opcode::PHA => stack::pha_post(pre, post, pre_bus, post_bus, cycles),
        Opcode::PHP => stack::php_post(pre, post, pre_bus, post_bus, cycles),
        Opcode::PLA => stack::pla_post(pre, post, pre_bus, cycles) && bus_same_memory(
            pre_bus,
            post_bus,
        ),
        Opcode::PLP => stack::plp_post(pre, post, pre_bus, cycles) && bus_same_memory(
            pre_bus,
            post_bus,
        ),
        Opcode::ROL => shifts::rol_post(pre, post, pre_bus, post_bus, mode, low, high, cycles),
        Opcode::ROR => shifts::ror_post(pre, post, pre_bus, post_bus, mode, low, high, cycles),
        Opcode::RTI => system::rti_post(pre, post, pre_bus, cycles) && bus_same_memory(
            pre_bus,
            post_bus,
        ),
        Opcode::RTS => jumps_calls::rts_post(pre, post, pre_bus, cycles) && bus_same_memory(
            pre_bus,
            post_bus,
        ),
        Opcode::SBC => arithmetic::sbc_post(pre, post, pre_bus, mode, low, high, cycles)
            && bus_same_memory(pre_bus, post_bus),
        Opcode::SEC => status_flags::sec_post(pre, post, cycles) && bus_same_memory(
            pre_bus,
            post_bus,
        ),
        Opcode::SED => status_flags::sed_post(pre, post, cycles) && bus_same_memory(
            pre_bus,
            post_bus,
        ),
        Opcode::SEI => status_flags::sei_post(pre, post, cycles) && bus_same_memory(
            pre_bus,
            post_bus,
        ),
        Opcode::STA => load_store::store_post(
            pre,
            post,
            pre_bus,
            post_bus,
            mode,
            low,
            high,
            pre.accumulator,
            cycles,
        ),
        Opcode::STX => load_store::store_post(
            pre,
            post,
            pre_bus,
            post_bus,
            mode,
            low,
            high,
            pre.x,
            cycles,
        ),
        Opcode::STY => load_store::store_post(
            pre,
            post,
            pre_bus,
            post_bus,
            mode,
            low,
            high,
            pre.y,
            cycles,
        ),
        Opcode::TAX => register_transfers::tax_post(pre, post, cycles) && bus_same_memory(
            pre_bus,
            post_bus,
        ),
        Opcode::TAY => register_transfers::tay_post(pre, post, cycles) && bus_same_memory(
            pre_bus,
            post_bus,
        ),
        Opcode::TSX => stack::tsx_post(pre, post, cycles) && bus_same_memory(pre_bus, post_bus),
        Opcode::TXA => register_transfers::txa_post(pre, post, cycles) && bus_same_memory(
            pre_bus,
            post_bus,
        ),
        Opcode::TXS => stack::txs_post(pre, post, cycles) && bus_same_memory(pre_bus, post_bus),
        Opcode::TYA => register_transfers::tya_post(pre, post, cycles) && bus_same_memory(
            pre_bus,
            post_bus,
        ),
    }
}

/// The operand byte, or zero where the mode carries none.
pub open spec fn some_or_zero(o: Option<u8>) -> u8 {
    match o {
        Some(b) => b,
        None => 0,
    }
}

/// The 16-bit word with `low` in its low half and `high` in its high half.
pub open spec fn spec_pack(low: u8, high: u8) -> u16 {
    (256 * high + low) as u16
}

pub open spec fn lo_byte(word: u16) -> u8 {
    (word % 256) as u8
}

pub open spec fn hi_byte(word: u16) -> u8 {
    (word / 256) as u8
}

/// Reduction modulo 256, for 8-bit wraparound stated over `int`.
pub open spec fn wrap8(value: int) -> u8 {
    (value % 256) as u8
}

/// Reduction modulo 65536, for 16-bit wraparound stated over `int`.
pub open spec fn wrap16(value: int) -> u16 {
    (value % 0x10000) as u16
}

/// Where the stack pointer points: the fixed page 0x0100-0x01FF.
pub open spec fn stack_addr(sp: u8) -> u16 {
    (0x100 + sp) as u16
}

/// The work-RAM cell behind a stack address.
pub open spec fn stack_index(sp: u8) -> int {
    0x100 + sp
}

/// The effective address a memory-operand mode resolves to. The zero-page
/// indexed modes wrap within page zero; so do the pointers that the
/// indirect modes dereference.
pub open spec fn operand_addr(
    cpu: CPU,
    bus: Bus,
    mode: AddressingMode,
    low: u8,
    high: u8,
) -> u16 {
    match mode {
        AddressingMode::Zeropage => low as u16,
        AddressingMode::ZeropageXIndexed => wrap8(low + cpu.x) as u16,
        AddressingMode::ZeropageYIndexed => wrap8(low + cpu.y) as u16,
        AddressingMode::Absolute => spec_pack(low, high),
        AddressingMode::AbsoluteXIndexed => wrap16(spec_pack(low, high) + cpu.x),
        AddressingMode::AbsoluteYIndexed => wrap16(spec_pack(low, high) + cpu.y),
        AddressingMode::IndirectXIndexed => spec_pack(
            bus_spec_read(bus, wrap8(low + cpu.x) as u16),
            bus_spec_read(bus, wrap8(low + cpu.x + 1) as u16),
        ),
        AddressingMode::IndirectYIndexed => wrap16(
            spec_pack(
                bus_spec_read(bus, low as u16),
                bus_spec_read(bus, wrap8(low + 1) as u16),
            ) + cpu.y,
        ),
        _ => 0,
    }
}

/// The byte an operand-reading instruction works on.
pub open spec fn operand_value(
    cpu: CPU,
    bus: Bus,
    mode: AddressingMode,
    low: u8,
    high: u8,
) -> u8 {
    if mode == AddressingMode::Immediate {
        low
    } else {
        bus_spec_read(bus, operand_addr(cpu, bus, mode, low, high))
    }
}

/// Whether indexing moved the effective address onto another 256-byte page
/// than the pre-index base, which costs the read one extra cycle.
pub open spec fn page_crossed(cpu: CPU, bus: Bus, mode: AddressingMode, low: u8) -> bool {
    match mode {
        AddressingMode::AbsoluteXIndexed => low + cpu.x > 255,
        AddressingMode::AbsoluteYIndexed => low + cpu.y > 255,
        AddressingMode::IndirectYIndexed => bus_spec_read(bus, low as u16) + cpu.y > 255,
        _ => false,
    }
}

/// Cycle cost of the operand-reading group, page-crossing penalty included.
pub open spec fn read_cycles(mode: AddressingMode, crossed: bool) -> u8 {
    match mode {
        AddressingMode::Immediate => 2,
        AddressingMode::Zeropage => 3,
        AddressingMode::ZeropageXIndexed => 4,
        AddressingMode::ZeropageYIndexed => 4,
        AddressingMode::Absolute => 4,
        AddressingMode::AbsoluteXIndexed => if crossed {
            5
        } else {
            4
        },
        AddressingMode::AbsoluteYIndexed => if crossed {
            5
        } else {
            4
        },
        AddressingMode::IndirectXIndexed => 6,
        AddressingMode::IndirectYIndexed => if crossed {
            6
        } else {
            5
        },
        _ => 0,
    }
}

/// Cycle cost of the store group; stores always pay the indexed penalty.
pub open spec fn store_cycles(mode: AddressingMode) -> u8 {
    match mode {
        AddressingMode::Zeropage => 3,
        AddressingMode::ZeropageXIndexed => 4,
        AddressingMode::ZeropageYIndexed => 4,
        AddressingMode::Absolute => 4,
        AddressingMode::AbsoluteXIndexed => 5,
        AddressingMode::AbsoluteYIndexed => 5,
        AddressingMode::IndirectXIndexed => 6,
        AddressingMode::IndirectYIndexed => 6,
        _ => 0,
    }
}

/// Cycle cost of the read-modify-write group (shifts, increments).
pub open spec fn rmw_cycles(mode: AddressingMode) -> u8 {
    match mode {
        AddressingMode::Accumulator => 2,
        AddressingMode::Zeropage => 5,
        AddressingMode::ZeropageXIndexed => 6,
        AddressingMode::Absolute => 6,
        AddressingMode::AbsoluteXIndexed => 7,
        _ => 0,
    }
}

/// Every register but the accumulator and the status byte is unchanged.
pub open spec fn regs_same_except_a(pre: CPU, post: CPU) -> bool {
    &&& post.x == pre.x
    &&& post.y == pre.y
    &&& post.stack_pointer == pre.stack_pointer
    &&& post.program_counter == pre.program_counter
    &&& post.initialized == pre.initialized
}

/// Every register but X and the status byte is unchanged.
pub open spec fn regs_same_except_x(pre: CPU, post: CPU) -> bool {
    &&& post.accumulator == pre.accumulator
    &&& post.y == pre.y
    &&& post.stack_pointer == pre.stack_pointer
    &&& post.program_counter == pre.program_counter
    &&& post.initialized == pre.initialized
}

/// Every register but Y and the status byte is unchanged.
pub open spec fn regs_same_except_y(pre: CPU, post: CPU) -> bool {
    &&& post.accumulator == pre.accumulator
    &&& post.x == pre.x
    &&& post.stack_pointer == pre.stack_pointer
    &&& post.program_counter == pre.program_counter
    &&& post.initialized == pre.initialized
}

/// Every register but the program counter and the status byte is unchanged.
pub open spec fn regs_same_except_pc(pre: CPU, post: CPU) -> bool {
    &&& post.accumulator == pre.accumulator
    &&& post.x == pre.x
    &&& post.y == pre.y
    &&& post.stack_pointer == pre.stack_pointer
    &&& post.initialized == pre.initialized
}

/// Every register but the stack pointer and the status byte is unchanged.
pub open spec fn regs_same_except_sp(pre: CPU, post: CPU) -> bool {
    &&& post.accumulator == pre.accumulator
    &&& post.x == pre.x
    &&& post.y == pre.y
    &&& post.program_counter == pre.program_counter
    &&& post.initialized == pre.initialized
}

/// Every register but the stack pointer, the program counter and the
/// status byte is unchanged.
pub open spec fn regs_same_except_sp_pc(pre: CPU, post: CPU) -> bool {
    &&& post.accumulator == pre.accumulator
    &&& post.x == pre.x
    &&& post.y == pre.y
    &&& post.initialized == pre.initialized
}

/// All five registers are unchanged; only the status byte may differ.
pub open spec fn regs_same_all(pre: CPU, post: CPU) -> bool {
    &&& post.accumulator == pre.accumulator
    &&& post.x == pre.x
    &&& post.y == pre.y
    &&& post.stack_pointer == pre.stack_pointer
    &&& post.program_counter == pre.program_counter
    &&& post.initialized == pre.initialized
}

/// Everything of the CPU but the status byte is unchanged.
pub open spec fn cpu_same_except_status(pre: CPU, post: CPU) -> bool {
    regs_same_all(pre, post)
}

/// Zero and negative follow the value `v`; the other six bits keep their
/// old values. This is what every load and transfer does to the flags.
pub open spec fn nz_flags_set(pre: ProcessorStatus, post: ProcessorStatus, v: u8) -> bool {
    &&& post.zero() == (v == 0)
    &&& post.negative() == (v >= 0x80)
    &&& post.carry() == pre.carry()
    &&& post.interrupt_disable() == pre.interrupt_disable()
    &&& post.decimal() == pre.decimal()
    &&& post.break_bit() == pre.break_bit()
    &&& post.bit5() == pre.bit5()
    &&& post.overflow() == pre.overflow()
}

/// The library's wrapping additions agree with reduction modulo 65536.
pub proof fn lemma_wrapping_add_u16(x: u16, y: u16)
    ensures
        vstd::wrapping::u16_specs::wrapping_add(x, y) == wrap16(x + y),
{
}

/// Wrapping subtraction agrees with reduction modulo 65536 over `int`.
pub proof fn lemma_wrapping_sub_u16(x: u16, y: u16)
    ensures
        vstd::wrapping::u16_specs::wrapping_sub(x, y) == wrap16(x - y),
{
}

/// The library's wrapping additions agree with reduction modulo 256.
pub proof fn lemma_wrapping_add_u8(x: u8, y: u8)
    ensures
        vstd::wrapping::u8_specs::wrapping_add(x, y) == wrap8(x + y),
{
}

/// Wrapping subtraction agrees with reduction modulo 256 over `int`.
pub proof fn lemma_wrapping_sub_u8(x: u8, y: u8)
    ensures
        vstd::wrapping::u8_specs::wrapping_sub(x, y) == wrap8(x - y),
{
}

pub fn pack_bytes(low_byte: u8, high_byte: u8) -> (r: u16)
    ensures
        r == spec_pack(low_byte, high_byte),
{
    (high_byte as u16) * 256 + (low_byte as u16)
}

/// As `pack_bytes`, on operand bytes that fetch has guaranteed present.
pub fn pack_bytes_wrapped(low_byte: Option<u8>, high_byte: Option<u8>) -> (r: u16)
    requires
        low_byte is Some,
        high_byte is Some,
    ensures
        r == spec_pack(some_or_zero(low_byte), some_or_zero(high_byte)),
{
    match (low_byte, high_byte) {
        (Some(low), Some(high)) => pack_bytes(low, high),
        _ => 0,
    }
}

pub fn unpack_bytes(packed: u16) -> (r: (u8, u8))
    ensures
        r.0 == lo_byte(packed),
        r.1 == hi_byte(packed),
{
    ((packed % 256) as u8, (packed / 256) as u8)
}

/// Reads an 8-bit two's-complement byte as a signed displacement.
pub fn twos_compliment_to_signed(value: u8) -> (r: i8)
    ensures
        value < 128 ==> r as int == value as int,
        value >= 128 ==> r as int == value - 256,
{
    if value >= 128 {
        let magnitude: i16 = 256 - (value as i16);
        (-magnitude) as i8
    } else {
        value as i8
    }
}

impl CPU {
    /// Sets the zero flag iff the given byte is 0; no other bit moves.
    pub fn modify_zero_flag(&mut self, byte: u8)
        ensures
            regs_same_all(*old(self), *final (self)),
            final (self).processor_status.zero() == (byte == 0),
            eq_except_zero(old(self).processor_status, final (self).processor_status),
    {
        if byte == 0 {
            self.processor_status.set_zero_flag();
        } else {
            self.processor_status.clear_zero_flag();
        }
    }

    /// Sets the negative flag iff bit 7 of the byte is set; no other bit
    /// moves.
    pub fn modify_negative_flag(&mut self, byte: u8)
        ensures
            regs_same_all(*old(self), *final (self)),
            final (self).processor_status.negative() == (byte >= 0x80),
            eq_except_negative(old(self).processor_status, final (self).processor_status),
    {
        if byte >= 0x80 {
            self.processor_status.set_negative_flag();
        } else {
            self.processor_status.clear_negative_flag();
        }
    }

    /// Pushes a byte: it lands at the stack address, and the pointer steps
    /// down with silent 8-bit wraparound, as the hardware does.
    pub fn push(&mut self, bus: &mut Bus, byte: u8)
        requires
            bus_wf(*old(bus)),
        ensures
            bus_wf(*final (bus)),
            final (bus).current_machine_cycles == old(bus).current_machine_cycles,
            bus_write_ok(*old(bus), *final (bus), stack_addr(old(self).stack_pointer), byte),
            final (self).stack_pointer == wrap8(old(self).stack_pointer - 1),
            regs_same_except_sp(*old(self), *final (self)),
            final (self).processor_status == old(self).processor_status,
    {
        let address = 0x100u16 + (self.stack_pointer as u16);
        bus.write(address, byte);
        self.stack_pointer = self.stack_pointer.wrapping_sub(1);
    }

    /// Pops a byte: the pointer steps up with silent wraparound and the
    /// byte at the new stack address comes back.
    pub fn pop(&mut self, bus: &Bus) -> (r: u8)
        requires
            bus_wf(*bus),
        ensures
            final (self).stack_pointer == wrap8(old(self).stack_pointer + 1),
            r == bus_spec_read(*bus, stack_addr(wrap8(old(self).stack_pointer + 1))),
            regs_same_except_sp(*old(self), *final (self)),
            final (self).processor_status == old(self).processor_status,
    {
        self.stack_pointer = self.stack_pointer.wrapping_add(1);
        bus.read(0x100u16 + (self.stack_pointer as u16))
    }
}

// rough and dirty addressing shortcuts
pub fn immediate_read(low_byte: u8) -> (r: u8)
    ensures
        r == low_byte,
{
    low_byte
}

pub fn zeropage_read(cpu: &CPU, bus: &Bus, low_byte: u8) -> (r: u8)
    requires
        bus_wf(*bus),
    ensures
        r == operand_value(*cpu, *bus, AddressingMode::Zeropage, low_byte, 0),
{
    bus.read(low_byte as u16)
}

// value is the value written to memory
pub fn zeropage_write(cpu: &CPU, bus: &mut Bus, low_byte: u8, value: u8)
    requires
        bus_wf(*old(bus)),
    ensures
        bus_wf(*final (bus)),
        final (bus).current_machine_cycles == old(bus).current_machine_cycles,
        bus_write_ok(
            *old(bus),
            *final (bus),
            operand_addr(*cpu, *old(bus), AddressingMode::Zeropage, low_byte, 0),
            value,
        ),
{
    bus.write(low_byte as u16, value);
}

pub fn zeropage_x_read(cpu: &CPU, bus: &Bus, low_byte: u8) -> (r: u8)
    requires
        bus_wf(*bus),
    ensures
        r == operand_value(*cpu, *bus, AddressingMode::ZeropageXIndexed, low_byte, 0),
{
    bus.read(low_byte.wrapping_add(cpu.x) as u16)
}

pub fn zeropage_x_write(cpu: &CPU, bus: &mut Bus, low_byte: u8, value: u8)
    requires
        bus_wf(*old(bus)),
    ensures
        bus_wf(*final (bus)),
        final (bus).current_machine_cycles == old(bus).current_machine_cycles,
        bus_write_ok(
            *old(bus),
            *final (bus),
            operand_addr(*cpu, *old(bus), AddressingMode::ZeropageXIndexed, low_byte, 0),
            value,
        ),
{
    bus.write(low_byte.wrapping_add(cpu.x) as u16, value);
}

pub fn zeropage_y_read(cpu: &CPU, bus: &Bus, low_byte: u8) -> (r: u8)
    requires
        bus_wf(*bus),
    ensures
        r == operand_value(*cpu, *bus, AddressingMode::ZeropageYIndexed, low_byte, 0),
{
    bus.read(low_byte.wrapping_add(cpu.y) as u16)
}

pub fn zeropage_y_write(cpu: &CPU, bus: &mut Bus, low_byte: u8, value: u8)
    requires
        bus_wf(*old(bus)),
    ensures
        bus_wf(*final (bus)),
        final (bus).current_machine_cycles == old(bus).current_machine_cycles,
        bus_write_ok(
            *old(bus),
            *final (bus),
            operand_addr(*cpu, *old(bus), AddressingMode::ZeropageYIndexed, low_byte, 0),
            value,
        ),
{
    bus.write(low_byte.wrapping_add(cpu.y) as u16, value);
}

pub fn absolute_read(cpu: &CPU, bus: &Bus, low_byte: u8, high_byte: u8) -> (r: u8)
    requires
        bus_wf(*bus),
    ensures
        r == operand_value(*cpu, *bus, AddressingMode::Absolute, low_byte, high_byte),
{
    bus.read(pack_bytes(low_byte, high_byte))
}

pub fn absolute_write(cpu: &CPU, bus: &mut Bus, low_byte: u8, high_byte: u8, value: u8)
    requires
        bus_wf(*old(bus)),
    ensures
        bus_wf(*final (bus)),
        final (bus).current_machine_cycles == old(bus).current_machine_cycles,
        bus_write_ok(
            *old(bus),
            *final (bus),
            operand_addr(*cpu, *old(bus), AddressingMode::Absolute, low_byte, high_byte),
            value,
        ),
{
    bus.write(pack_bytes(low_byte, high_byte), value);
}

/// Returns the value and whether a page boundary was crossed.
pub fn absolute_x_read(cpu: &CPU, bus: &Bus, low_byte: u8, high_byte: u8) -> (r: (u8, bool))
    requires
        bus_wf(*bus),
    ensures
        r.0 == operand_value(*cpu, *bus, AddressingMode::AbsoluteXIndexed, low_byte, high_byte),
        r.1 == page_crossed(*cpu, *bus, AddressingMode::AbsoluteXIndexed, low_byte),
{
    let pre_add_address = pack_bytes(low_byte, high_byte);
    let address = pre_add_address.wrapping_add(cpu.x as u16);

    let page_changed = low_byte.checked_add(cpu.x).is_none();

    (bus.read(address), page_changed)
}

pub fn absolute_x_write(cpu: &CPU, bus: &mut Bus, low_byte: u8, high_byte: u8, value: u8)
    requires
        bus_wf(*old(bus)),
    ensures
        bus_wf(*final (bus)),
        final (bus).current_machine_cycles == old(bus).current_machine_cycles,
        bus_write_ok(
            *old(bus),
            *final (bus),
            operand_addr(*cpu, *old(bus), AddressingMode::AbsoluteXIndexed, low_byte, high_byte),
            value,
        ),
{
    let pre_add_address = pack_bytes(low_byte, high_byte);
    let address = pre_add_address.wrapping_add(cpu.x as u16);
    bus.write(address, value);
}

/// Returns the value and whether a page boundary was crossed.
pub fn absolute_y_read(cpu: &CPU, bus: &Bus, low_byte: u8, high_byte: u8) -> (r: (u8, bool))
    requires
        bus_wf(*bus),
    ensures
        r.0 == operand_value(*cpu, *bus, AddressingMode::AbsoluteYIndexed, low_byte, high_byte),
        r.1 == page_crossed(*cpu, *bus, AddressingMode::AbsoluteYIndexed, low_byte),
{
    let pre_add_address = pack_bytes(low_byte, high_byte);
    let address = pre_add_address.wrapping_add(cpu.y as u16);

    let page_changed = low_byte.checked_add(cpu.y).is_none();

    (bus.read(address), page_changed)
}

pub fn absolute_y_write(cpu: &CPU, bus: &mut Bus, low_byte: u8, high_byte: u8, value: u8)
    requires
        bus_wf(*old(bus)),
    ensures
        bus_wf(*final (bus)),
        final (bus).current_machine_cycles == old(bus).current_machine_cycles,
        bus_write_ok(
            *old(bus),
            *final (bus),
            operand_addr(*cpu, *old(bus), AddressingMode::AbsoluteYIndexed, low_byte, high_byte),
            value,
        ),
{
    let pre_add_address = pack_bytes(low_byte, high_byte);
    let address = pre_add_address.wrapping_add(cpu.y as u16);
    bus.write(address, value);
}

/// The zero-page pointer for the indexed-indirect mode wraps within page
/// zero, both for its low and for its high half.
pub fn indirect_x_read(cpu: &CPU, bus: &Bus, low_byte: u8) -> (r: u8)
    requires
        bus_wf(*bus),
    ensures
        r == operand_value(*cpu, *bus, AddressingMode::IndirectXIndexed, low_byte, 0),
{
    let base = low_byte.wrapping_add(cpu.x);
    let resolved_address = pack_bytes(
        bus.read(base as u16),
        bus.read(base.wrapping_add(1) as u16),
    );
    bus.read(resolved_address)
}

pub fn indirect_x_write(cpu: &CPU, bus: &mut Bus, low_byte: u8, value: u8)
    requires
        bus_wf(*old(bus)),
    ensures
        bus_wf(*final (bus)),
        final (bus).current_machine_cycles == old(bus).current_machine_cycles,
        bus_write_ok(
            *old(bus),
            *final (bus),
            operand_addr(*cpu, *old(bus), AddressingMode::IndirectXIndexed, low_byte, 0),
            value,
        ),
{
    let base = low_byte.wrapping_add(cpu.x);
    let resolved_address = pack_bytes(
        bus.read(base as u16),
        bus.read(base.wrapping_add(1) as u16),
    );
    bus.write(resolved_address, value);
}

/// Returns the value and whether a page boundary was crossed; the
/// zero-page pointer wraps within page zero, and the crossing compares the
/// indexed address against the pre-index base.
pub fn indirect_y_read(cpu: &CPU, bus: &Bus, low_byte: u8) -> (r: (u8, bool))
    requires
        bus_wf(*bus),
    ensures
        r.0 == operand_value(*cpu, *bus, AddressingMode::IndirectYIndexed, low_byte, 0),
        r.1 == page_crossed(*cpu, *bus, AddressingMode::IndirectYIndexed, low_byte),
{
    let base_low = bus.read(low_byte as u16);
    let base_high = bus.read(low_byte.wrapping_add(1) as u16);

    let page_changed = base_low.checked_add(cpu.y).is_none();

    let resolved_address = pack_bytes(base_low, base_high).wrapping_add(cpu.y as u16);

    (bus.read(resolved_address), page_changed)
}

pub fn indirect_y_write(cpu: &CPU, bus: &mut Bus, low_byte: u8, value: u8)
    requires
        bus_wf(*old(bus)),
    ensures
        bus_wf(*final (bus)),
        final (bus).current_machine_cycles == old(bus).current_machine_cycles,
        bus_write_ok(
            *old(bus),
            *final (bus),
            operand_addr(*cpu, *old(bus), AddressingMode::IndirectYIndexed, low_byte, 0),
            value,
        ),
{
    let base_low = bus.read(low_byte as u16);
    let base_high = bus.read(low_byte.wrapping_add(1) as u16);

    let resolved_address = pack_bytes(base_low, base_high).wrapping_add(cpu.y as u16);

    bus.write(resolved_address, value);
}

} // verus!

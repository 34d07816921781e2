//! Bitwise instructions: AND, EOR and ORA combine the operand with the
//! accumulator and set zero/negative from the result; BIT tests memory
//! against the accumulator without changing it, copying the operand's top
//! two bits into negative and overflow.

use super::{
    absolute_read, absolute_x_read, absolute_y_read, immediate_read, indirect_x_read,
    indirect_y_read, nz_flags_set, operand_value, page_crossed, read_cycles, regs_same_all,
    regs_same_except_a, zeropage_read, zeropage_x_read,
};
use crate::bus::{bus_wf, Bus};
use crate::cpu::instruction::{accumulator_read_mode, bit_mode, AddressingMode};
use crate::cpu::processor_status::ProcessorStatus;
use crate::cpu::CPU;
use vstd::pervasive::unreached;
use vstd::prelude::*;

verus! {

/// The combining instructions share one shape; only the operator differs.
pub open spec fn combine_post(
    pre: CPU,
    post: CPU,
    bus: Bus,
    mode: AddressingMode,
    low: u8,
    high: u8,
    result: u8,
    cycles: u8,
) -> bool {
    &&& post.accumulator == result
    &&& regs_same_except_a(pre, post)
    &&& nz_flags_set(pre.processor_status, post.processor_status, result)
    &&& cycles == read_cycles(mode, page_crossed(pre, bus, mode, low))
}

pub open spec fn and_post(
    pre: CPU,
    post: CPU,
    bus: Bus,
    mode: AddressingMode,
    low: u8,
    high: u8,
    cycles: u8,
) -> bool {
    combine_post(
        pre,
        post,
        bus,
        mode,
        low,
        high,
        operand_value(pre, bus, mode, low, high) & pre.accumulator,
        cycles,
    )
}

pub open spec fn eor_post(
    pre: CPU,
    post: CPU,
    bus: Bus,
    mode: AddressingMode,
    low: u8,
    high: u8,
    cycles: u8,
) -> bool {
    combine_post(
        pre,
        post,
        bus,
        mode,
        low,
        high,
        operand_value(pre, bus, mode, low, high) ^ pre.accumulator,
        cycles,
    )
}

pub open spec fn ora_post(
    pre: CPU,
    post: CPU,
    bus: Bus,
    mode: AddressingMode,
    low: u8,
    high: u8,
    cycles: u8,
) -> bool {
    combine_post(
        pre,
        post,
        bus,
        mode,
        low,
        high,
        operand_value(pre, bus, mode, low, high) | pre.accumulator,
        cycles,
    )
}

/// BIT: zero from `memory & accumulator`, bit 7 of the operand into
/// negative and bit 6 into overflow; the accumulator itself is untouched.
pub open spec fn bit_flags(pre: ProcessorStatus, post: ProcessorStatus, a: u8, v: u8) -> bool {
    &&& post.zero() == ((v & a) == 0)
    &&& post.negative() == (v >= 0x80)
    &&& post.overflow() == ((v / 64) % 2 == 1)
    &&& post.carry() == pre.carry()
    &&& post.interrupt_disable() == pre.interrupt_disable()
    &&& post.decimal() == pre.decimal()
    &&& post.break_bit() == pre.break_bit()
    &&& post.bit5() == pre.bit5()
}

pub open spec fn bit_post(
    pre: CPU,
    post: CPU,
    bus: Bus,
    mode: AddressingMode,
    low: u8,
    high: u8,
    cycles: u8,
) -> bool {
    let v = operand_value(pre, bus, mode, low, high);
    &&& regs_same_all(pre, post)
    &&& bit_flags(pre.processor_status, post.processor_status, pre.accumulator, v)
    &&& cycles == (if mode == AddressingMode::Zeropage {
        3u8
    } else {
        4u8
    })
}

impl CPU {
    /// Combines the operand into the accumulator and fixes the flags; the
    /// callers below supply the combined value their operator gives.
    pub(crate) fn combine_into_accumulator(&mut self, value: u8)
        ensures
            final (self).accumulator == value,
            regs_same_except_a(*old(self), *final (self)),
            nz_flags_set(old(self).processor_status, final (self).processor_status, value),
    {
        self.accumulator = value;
        self.modify_negative_flag(value);
        self.modify_zero_flag(value);
    }

    /// Reads the operand of a combining instruction and reports the cycle
    /// cost, page-crossing penalty included.
    pub(crate) fn read_combining_operand(
        &mut self,
        bus: &Bus,
        addressing_mode: AddressingMode,
        low_byte: u8,
        high_byte: u8,
    ) -> (r: (u8, u8))
        requires
            bus_wf(*bus),
            accumulator_read_mode(addressing_mode),
        ensures
            *final (self) == *old(self),
            r.0 == operand_value(*old(self), *bus, addressing_mode, low_byte, high_byte),
            r.1 == read_cycles(
                addressing_mode,
                page_crossed(*old(self), *bus, addressing_mode, low_byte),
            ),
    {
        match addressing_mode {
            AddressingMode::Immediate => (immediate_read(low_byte), 2),
            AddressingMode::Zeropage => (zeropage_read(self, bus, low_byte), 3),
            AddressingMode::ZeropageXIndexed => (zeropage_x_read(self, bus, low_byte), 4),
            AddressingMode::Absolute => (absolute_read(self, bus, low_byte, high_byte), 4),
            AddressingMode::AbsoluteXIndexed => {
                let (value, page_changed) = absolute_x_read(self, bus, low_byte, high_byte);
                (value, if page_changed { 5 } else { 4 })
            },
            AddressingMode::AbsoluteYIndexed => {
                let (value, page_changed) = absolute_y_read(self, bus, low_byte, high_byte);
                (value, if page_changed { 5 } else { 4 })
            },
            AddressingMode::IndirectXIndexed => (indirect_x_read(self, bus, low_byte), 6),
            AddressingMode::IndirectYIndexed => {
                let (value, page_changed) = indirect_y_read(self, bus, low_byte);
                (value, if page_changed { 6 } else { 5 })
            },
            _ => unreached(),
        }
    }

    pub fn instruction_and(
        &mut self,
        bus: &Bus,
        addressing_mode: AddressingMode,
        low_byte: u8,
        high_byte: u8,
    ) -> (cycles: u8)
        requires
            bus_wf(*bus),
            accumulator_read_mode(addressing_mode),
        ensures
            and_post(*old(self), *final (self), *bus, addressing_mode, low_byte, high_byte, cycles),
    {
        let (raw, cycles) = self.read_combining_operand(bus, addressing_mode, low_byte, high_byte);
        let value = raw & self.accumulator;
        self.combine_into_accumulator(value);
        cycles
    }

    pub fn instruction_eor(
        &mut self,
        bus: &Bus,
        addressing_mode: AddressingMode,
        low_byte: u8,
        high_byte: u8,
    ) -> (cycles: u8)
        requires
            bus_wf(*bus),
            accumulator_read_mode(addressing_mode),
        ensures
            eor_post(*old(self), *final (self), *bus, addressing_mode, low_byte, high_byte, cycles),
    {
        let (raw, cycles) = self.read_combining_operand(bus, addressing_mode, low_byte, high_byte);
        let value = raw ^ self.accumulator;
        self.combine_into_accumulator(value);
        cycles
    }

    pub fn instruction_ora(
        &mut self,
        bus: &Bus,
        addressing_mode: AddressingMode,
        low_byte: u8,
        high_byte: u8,
    ) -> (cycles: u8)
        requires
            bus_wf(*bus),
            accumulator_read_mode(addressing_mode),
        ensures
            ora_post(*old(self), *final (self), *bus, addressing_mode, low_byte, high_byte, cycles),
    {
        let (raw, cycles) = self.read_combining_operand(bus, addressing_mode, low_byte, high_byte);
        let value = raw | self.accumulator;
        self.combine_into_accumulator(value);
        cycles
    }

    pub fn instruction_bit(
        &mut self,
        bus: &Bus,
        addressing_mode: AddressingMode,
        low_byte: u8,
        high_byte: u8,
    ) -> (cycles: u8)
        requires
            bus_wf(*bus),
            bit_mode(addressing_mode),
        ensures
            bit_post(*old(self), *final (self), *bus, addressing_mode, low_byte, high_byte, cycles),
    {
        let (raw, cycles): (u8, u8) = match addressing_mode {
            AddressingMode::Zeropage => (zeropage_read(self, bus, low_byte), 3),
            AddressingMode::Absolute => (absolute_read(self, bus, low_byte, high_byte), 4),
            _ => unreached(),
        };

        // check bit 7
        self.modify_negative_flag(raw);

        // check bit 6
        if (raw / 64) % 2 == 1 {
            self.processor_status.set_overflow_flag();
        } else {
            self.processor_status.clear_overflow_flag();
        }

        let masked = raw & self.accumulator;
        self.modify_zero_flag(masked);

        cycles
    }
}

} // verus!

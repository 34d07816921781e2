//! Loads and stores: a load moves the resolved operand into a register and
//! sets zero/negative from it; a store writes a register out through the
//! bus and leaves every flag alone.

use super::{
    absolute_read, absolute_write, absolute_x_read, absolute_x_write, absolute_y_read,
    absolute_y_write, immediate_read, indirect_x_read, indirect_x_write, indirect_y_read,
    indirect_y_write, nz_flags_set, operand_addr, operand_value, page_crossed, read_cycles,
    regs_same_all, regs_same_except_a, regs_same_except_x, regs_same_except_y, store_cycles,
    zeropage_read, zeropage_write, zeropage_x_read, zeropage_x_write, zeropage_y_read,
    zeropage_y_write,
};
use crate::bus::{bus_wf, bus_write_ok, Bus};
use crate::cpu::instruction::{
    accumulator_read_mode, ldx_mode, ldy_mode, sta_mode, stx_mode, sty_mode, AddressingMode,
};
use crate::cpu::CPU;
use vstd::pervasive::unreached;
use vstd::prelude::*;

verus! {

/// Loading the accumulator: it takes the operand, zero and negative follow
/// the value whatever the addressing mode, everything else stays.
pub open spec fn lda_post(
    pre: CPU,
    post: CPU,
    bus: Bus,
    mode: AddressingMode,
    low: u8,
    high: u8,
    cycles: u8,
) -> bool {
    let v = operand_value(pre, bus, mode, low, high);
    &&& post.accumulator == v
    &&& regs_same_except_a(pre, post)
    &&& nz_flags_set(pre.processor_status, post.processor_status, v)
    &&& cycles == read_cycles(mode, page_crossed(pre, bus, mode, low))
}

/// Loading X, in the same shape.
pub open spec fn ldx_post(
    pre: CPU,
    post: CPU,
    bus: Bus,
    mode: AddressingMode,
    low: u8,
    high: u8,
    cycles: u8,
) -> bool {
    let v = operand_value(pre, bus, mode, low, high);
    &&& post.x == v
    &&& regs_same_except_x(pre, post)
    &&& nz_flags_set(pre.processor_status, post.processor_status, v)
    &&& cycles == read_cycles(mode, page_crossed(pre, bus, mode, low))
}

/// Loading Y, in the same shape.
pub open spec fn ldy_post(
    pre: CPU,
    post: CPU,
    bus: Bus,
    mode: AddressingMode,
    low: u8,
    high: u8,
    cycles: u8,
) -> bool {
    let v = operand_value(pre, bus, mode, low, high);
    &&& post.y == v
    &&& regs_same_except_y(pre, post)
    &&& nz_flags_set(pre.processor_status, post.processor_status, v)
    &&& cycles == read_cycles(mode, page_crossed(pre, bus, mode, low))
}

/// Storing a register: the byte lands at the resolved address, registers
/// and flags are untouched, and the store always pays the indexed cycle.
pub open spec fn store_post(
    pre: CPU,
    post: CPU,
    pre_bus: Bus,
    post_bus: Bus,
    mode: AddressingMode,
    low: u8,
    high: u8,
    stored: u8,
    cycles: u8,
) -> bool {
    &&& regs_same_all(pre, post)
    &&& post.processor_status == pre.processor_status
    &&& bus_write_ok(pre_bus, post_bus, operand_addr(pre, pre_bus, mode, low, high), stored)
    &&& cycles == store_cycles(mode)
}

/// For every 8-bit value, loading it into the accumulator sets the zero
/// flag exactly when the value is zero and the negative flag exactly when
/// its bit 7 is set, whatever addressing mode carried the value; no other
/// flag moves.
pub proof fn lemma_load_sets_zero_and_negative(
    pre: CPU,
    post: CPU,
    bus: Bus,
    mode: AddressingMode,
    low: u8,
    high: u8,
    cycles: u8,
)
    requires
        lda_post(pre, post, bus, mode, low, high, cycles),
    ensures
        post.accumulator == operand_value(pre, bus, mode, low, high),
        post.processor_status.zero() <==> operand_value(pre, bus, mode, low, high) == 0,
        post.processor_status.negative() <==> operand_value(pre, bus, mode, low, high) >= 0x80,
        post.processor_status.carry() == pre.processor_status.carry(),
        post.processor_status.overflow() == pre.processor_status.overflow(),
        post.processor_status.interrupt_disable() == pre.processor_status.interrupt_disable(),
        post.processor_status.decimal() == pre.processor_status.decimal(),
{
}

impl CPU {
    pub fn instruction_lda(
        &mut self,
        bus: &Bus,
        addressing_mode: AddressingMode,
        low_byte: u8,
        high_byte: u8,
    ) -> (cycles: u8)
        requires
            bus_wf(*bus),
            accumulator_read_mode(addressing_mode),
        ensures
            lda_post(*old(self), *final (self), *bus, addressing_mode, low_byte, high_byte, cycles),
    {
        match addressing_mode {
            AddressingMode::Immediate => {
                let value = immediate_read(low_byte);
                self.accumulator = value;
                self.modify_negative_flag(value);
                self.modify_zero_flag(value);
                2
            },
            AddressingMode::Zeropage => {
                let value = zeropage_read(self, bus, low_byte);
                self.accumulator = value;
                self.modify_negative_flag(value);
                self.modify_zero_flag(value);
                3
            },
            AddressingMode::ZeropageXIndexed => {
                let value = zeropage_x_read(self, bus, low_byte);
                self.accumulator = value;
                self.modify_negative_flag(value);
                self.modify_zero_flag(value);
                4
            },
            AddressingMode::Absolute => {
                let value = absolute_read(self, bus, low_byte, high_byte);
                self.accumulator = value;
                self.modify_negative_flag(value);
                self.modify_zero_flag(value);
                4
            },
            AddressingMode::AbsoluteXIndexed => {
                let (value, page_changed) = absolute_x_read(self, bus, low_byte, high_byte);
                self.accumulator = value;
                self.modify_negative_flag(value);
                self.modify_zero_flag(value);
                if page_changed {
                    5
                } else {
                    4
                }
            },
            AddressingMode::AbsoluteYIndexed => {
                let (value, page_changed) = absolute_y_read(self, bus, low_byte, high_byte);
                self.accumulator = value;
                self.modify_negative_flag(value);
                self.modify_zero_flag(value);
                if page_changed {
                    5
                } else {
                    4
                }
            },
            AddressingMode::IndirectXIndexed => {
                let value = indirect_x_read(self, bus, low_byte);
                self.accumulator = value;
                self.modify_negative_flag(value);
                self.modify_zero_flag(value);
                6
            },
            AddressingMode::IndirectYIndexed => {
                let (value, page_changed) = indirect_y_read(self, bus, low_byte);
                self.accumulator = value;
                self.modify_negative_flag(value);
                self.modify_zero_flag(value);
                if page_changed {
                    6
                } else {
                    5
                }
            },
            _ => unreached(),
        }
    }

    pub fn instruction_ldx(
        &mut self,
        bus: &Bus,
        addressing_mode: AddressingMode,
        low_byte: u8,
        high_byte: u8,
    ) -> (cycles: u8)
        requires
            bus_wf(*bus),
            ldx_mode(addressing_mode),
        ensures
            ldx_post(*old(self), *final (self), *bus, addressing_mode, low_byte, high_byte, cycles),
    {
        match addressing_mode {
            AddressingMode::Immediate => {
                let value = immediate_read(low_byte);
                self.x = value;
                self.modify_negative_flag(value);
                self.modify_zero_flag(value);
                2
            },
            AddressingMode::Zeropage => {
                let value = zeropage_read(self, bus, low_byte);
                self.x = value;
                self.modify_negative_flag(value);
                self.modify_zero_flag(value);
                3
            },
            AddressingMode::ZeropageYIndexed => {
                let value = zeropage_y_read(self, bus, low_byte);
                self.x = value;
                self.modify_negative_flag(value);
                self.modify_zero_flag(value);
                4
            },
            AddressingMode::Absolute => {
                let value = absolute_read(self, bus, low_byte, high_byte);
                self.x = value;
                self.modify_negative_flag(value);
                self.modify_zero_flag(value);
                4
            },
            AddressingMode::AbsoluteYIndexed => {
                let (value, page_changed) = absolute_y_read(self, bus, low_byte, high_byte);
                self.x = value;
                self.modify_negative_flag(value);
                self.modify_zero_flag(value);
                if page_changed {
                    5
                } else {
                    4
                }
            },
            _ => unreached(),
        }
    }

    pub fn instruction_ldy(
        &mut self,
        bus: &Bus,
        addressing_mode: AddressingMode,
        low_byte: u8,
        high_byte: u8,
    ) -> (cycles: u8)
        requires
            bus_wf(*bus),
            ldy_mode(addressing_mode),
        ensures
            ldy_post(*old(self), *final (self), *bus, addressing_mode, low_byte, high_byte, cycles),
    {
        match addressing_mode {
            AddressingMode::Immediate => {
                let value = immediate_read(low_byte);
                self.y = value;
                self.modify_negative_flag(value);
                self.modify_zero_flag(value);
                2
            },
            AddressingMode::Zeropage => {
                let value = zeropage_read(self, bus, low_byte);
                self.y = value;
                self.modify_negative_flag(value);
                self.modify_zero_flag(value);
                3
            },
            AddressingMode::ZeropageXIndexed => {
                let value = zeropage_x_read(self, bus, low_byte);
                self.y = value;
                self.modify_negative_flag(value);
                self.modify_zero_flag(value);
                4
            },
            AddressingMode::Absolute => {
                let value = absolute_read(self, bus, low_byte, high_byte);
                self.y = value;
                self.modify_negative_flag(value);
                self.modify_zero_flag(value);
                4
            },
            AddressingMode::AbsoluteXIndexed => {
                let (value, page_changed) = absolute_x_read(self, bus, low_byte, high_byte);
                self.y = value;
                self.modify_negative_flag(value);
                self.modify_zero_flag(value);
                if page_changed {
                    5
                } else {
                    4
                }
            },
            _ => unreached(),
        }
    }

    pub fn instruction_sta(
        &mut self,
        bus: &mut Bus,
        addressing_mode: AddressingMode,
        low_byte: u8,
        high_byte: u8,
    ) -> (cycles: u8)
        requires
            bus_wf(*old(bus)),
            sta_mode(addressing_mode),
        ensures
            bus_wf(*final (bus)),
            final (bus).current_machine_cycles == old(bus).current_machine_cycles,
            store_post(
                *old(self),
                *final (self),
                *old(bus),
                *final (bus),
                addressing_mode,
                low_byte,
                high_byte,
                old(self).accumulator,
                cycles,
            ),
    {
        match addressing_mode {
            AddressingMode::Zeropage => {
                let value = self.accumulator;
                zeropage_write(self, bus, low_byte, value);
                3
            },
            AddressingMode::ZeropageXIndexed => {
                let value = self.accumulator;
                zeropage_x_write(self, bus, low_byte, value);
                4
            },
            AddressingMode::Absolute => {
                let value = self.accumulator;
                absolute_write(self, bus, low_byte, high_byte, value);
                4
            },
            AddressingMode::AbsoluteXIndexed => {
                let value = self.accumulator;
                absolute_x_write(self, bus, low_byte, high_byte, value);
                5
            },
            AddressingMode::AbsoluteYIndexed => {
                let value = self.accumulator;
                absolute_y_write(self, bus, low_byte, high_byte, value);
                5
            },
            AddressingMode::IndirectXIndexed => {
                let value = self.accumulator;
                indirect_x_write(self, bus, low_byte, value);
                6
            },
            AddressingMode::IndirectYIndexed => {
                let value = self.accumulator;
                indirect_y_write(self, bus, low_byte, value);
                6
            },
            _ => unreached(),
        }
    }

    pub fn instruction_stx(
        &mut self,
        bus: &mut Bus,
        addressing_mode: AddressingMode,
        low_byte: u8,
        high_byte: u8,
    ) -> (cycles: u8)
        requires
            bus_wf(*old(bus)),
            stx_mode(addressing_mode),
        ensures
            bus_wf(*final (bus)),
            final (bus).current_machine_cycles == old(bus).current_machine_cycles,
            store_post(
                *old(self),
                *final (self),
                *old(bus),
                *final (bus),
                addressing_mode,
                low_byte,
                high_byte,
                old(self).x,
                cycles,
            ),
    {
        match addressing_mode {
            AddressingMode::Zeropage => {
                let value = self.x;
                zeropage_write(self, bus, low_byte, value);
                3
            },
            AddressingMode::ZeropageYIndexed => {
                let value = self.x;
                zeropage_y_write(self, bus, low_byte, value);
                4
            },
            AddressingMode::Absolute => {
                let value = self.x;
                absolute_write(self, bus, low_byte, high_byte, value);
                4
            },
            _ => unreached(),
        }
    }

    pub fn instruction_sty(
        &mut self,
        bus: &mut Bus,
        addressing_mode: AddressingMode,
        low_byte: u8,
        high_byte: u8,
    ) -> (cycles: u8)
        requires
            bus_wf(*old(bus)),
            sty_mode(addressing_mode),
        ensures
            bus_wf(*final (bus)),
            final (bus).current_machine_cycles == old(bus).current_machine_cycles,
            store_post(
                *old(self),
                *final (self),
                *old(bus),
                *final (bus),
                addressing_mode,
                low_byte,
                high_byte,
                old(self).y,
                cycles,
            ),
    {
        match addressing_mode {
            AddressingMode::Zeropage => {
                let value = self.y;
                zeropage_write(self, bus, low_byte, value);
                3
            },
            AddressingMode::ZeropageXIndexed => {
                let value = self.y;
                zeropage_x_write(self, bus, low_byte, value);
                4
            },
            AddressingMode::Absolute => {
                let value = self.y;
                absolute_write(self, bus, low_byte, high_byte, value);
                4
            },
            _ => unreached(),
        }
    }
}

} // verus!

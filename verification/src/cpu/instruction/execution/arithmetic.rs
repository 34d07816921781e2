//! Add-with-carry, subtract-with-carry and the compares. SBC is ADC of the
//! one's complement of the operand. Carry out is the unsigned overflow of
//! the 9-bit sum; signed overflow is judged from the operand signs before
//! the operation, never from the result byte alone.

use super::{
    absolute_read, immediate_read, lemma_wrapping_sub_u8, operand_value, page_crossed,
    read_cycles, regs_same_all, regs_same_except_a, wrap8, zeropage_read,
};
use crate::bus::{bus_wf, Bus};
use crate::cpu::instruction::{accumulator_read_mode, compare_index_mode, AddressingMode};
use crate::cpu::processor_status::ProcessorStatus;
use crate::cpu::CPU;
use vstd::pervasive::unreached;
use vstd::prelude::*;

verus! {

/// The carry-in as a number.
pub open spec fn carry_in(ps: ProcessorStatus) -> int {
    if ps.carry() {
        1
    } else {
        0
    }
}

/// The byte an addition leaves in the accumulator.
pub open spec fn adc_result(a: u8, v: u8, cin: int) -> u8 {
    wrap8(a + v + cin)
}

/// Carry out: the unsigned 9-bit sum overflows 8 bits.
pub open spec fn adc_carry_out(a: u8, v: u8, cin: int) -> bool {
    a + v + cin > 255
}

/// Signed overflow: both operands share a sign and the result's sign
/// differs from it.
pub open spec fn adc_overflow_out(a: u8, v: u8, cin: int) -> bool {
    ((a >= 0x80) == (v >= 0x80)) && ((adc_result(a, v, cin) >= 0x80) != (a >= 0x80))
}

/// What an addition of `v` does to the flags.
pub open spec fn adc_flags(pre: ProcessorStatus, post: ProcessorStatus, a: u8, v: u8) -> bool {
    let cin = carry_in(pre);
    &&& post.carry() == adc_carry_out(a, v, cin)
    &&& post.overflow() == adc_overflow_out(a, v, cin)
    &&& post.zero() == (adc_result(a, v, cin) == 0)
    &&& post.negative() == (adc_result(a, v, cin) >= 0x80)
    &&& post.interrupt_disable() == pre.interrupt_disable()
    &&& post.decimal() == pre.decimal()
    &&& post.break_bit() == pre.break_bit()
    &&& post.bit5() == pre.bit5()
}

pub open spec fn adc_post(
    pre: CPU,
    post: CPU,
    bus: Bus,
    mode: AddressingMode,
    low: u8,
    high: u8,
    cycles: u8,
) -> bool {
    let v = operand_value(pre, bus, mode, low, high);
    &&& post.accumulator == adc_result(pre.accumulator, v, carry_in(pre.processor_status))
    &&& regs_same_except_a(pre, post)
    &&& adc_flags(pre.processor_status, post.processor_status, pre.accumulator, v)
    &&& cycles == read_cycles(mode, page_crossed(pre, bus, mode, low))
}

/// SBC works on the one's complement of the operand.
pub open spec fn sbc_post(
    pre: CPU,
    post: CPU,
    bus: Bus,
    mode: AddressingMode,
    low: u8,
    high: u8,
    cycles: u8,
) -> bool {
    let v = (255 - operand_value(pre, bus, mode, low, high)) as u8;
    &&& post.accumulator == adc_result(pre.accumulator, v, carry_in(pre.processor_status))
    &&& regs_same_except_a(pre, post)
    &&& adc_flags(pre.processor_status, post.processor_status, pre.accumulator, v)
    &&& cycles == read_cycles(mode, page_crossed(pre, bus, mode, low))
}

/// A compare: carry when the register is at least the operand (unsigned),
/// zero when equal, negative from bit 7 of the unstored difference.
pub open spec fn compare_flags(
    pre: ProcessorStatus,
    post: ProcessorStatus,
    reg: u8,
    v: u8,
) -> bool {
    &&& post.carry() == (reg >= v)
    &&& post.zero() == (reg == v)
    &&& post.negative() == (wrap8(reg - v) >= 0x80)
    &&& post.interrupt_disable() == pre.interrupt_disable()
    &&& post.decimal() == pre.decimal()
    &&& post.break_bit() == pre.break_bit()
    &&& post.bit5() == pre.bit5()
    &&& post.overflow() == pre.overflow()
}

/// One shape for CMP, CPX and CPY: `reg` picks the register compared.
pub open spec fn compare_post(
    pre: CPU,
    post: CPU,
    bus: Bus,
    mode: AddressingMode,
    low: u8,
    high: u8,
    reg: u8,
    cycles: u8,
) -> bool {
    let v = operand_value(pre, bus, mode, low, high);
    &&& regs_same_all(pre, post)
    &&& compare_flags(pre.processor_status, post.processor_status, reg, v)
    &&& cycles == read_cycles(mode, page_crossed(pre, bus, mode, low))
}

impl CPU {
    /// The intermediate code for ADC. Modifies the accumulator inside this
    /// method.
    fn adc_intermediate(&mut self, value: u8)
        ensures
            final (self).accumulator == adc_result(
                old(self).accumulator,
                value,
                carry_in(old(self).processor_status),
            ),
            regs_same_except_a(*old(self), *final (self)),
            adc_flags(
                old(self).processor_status,
                final (self).processor_status,
                old(self).accumulator,
                value,
            ),
    {
        let a = self.accumulator;
        let cin: u16 = if self.processor_status.carry_flag() {
            1
        } else {
            0
        };
        let sum: u16 = a as u16 + value as u16 + cin;
        let result: u8 = (sum % 256) as u8;

        self.accumulator = result;

        // Carry out of the 9-bit sum.
        if sum > 255 {
            self.processor_status.set_carry_flag();
        } else {
            self.processor_status.clear_carry_flag();
        }

        // Signed overflow, judged from the operand signs before the
        // operation.
        if (a >= 0x80) == (value >= 0x80) && ((result >= 0x80) != (a >= 0x80)) {
            self.processor_status.set_overflow_flag();
        } else {
            self.processor_status.clear_overflow_flag();
        }

        self.modify_zero_flag(result);
        self.modify_negative_flag(result);
    }

    /// The intermediate code for SBC: the addition above, on the one's
    /// complement of the operand.
    fn sbc_intermediate(&mut self, value: u8)
        ensures
            final (self).accumulator == adc_result(
                old(self).accumulator,
                (255 - value) as u8,
                carry_in(old(self).processor_status),
            ),
            regs_same_except_a(*old(self), *final (self)),
            adc_flags(
                old(self).processor_status,
                final (self).processor_status,
                old(self).accumulator,
                (255 - value) as u8,
            ),
    {
        self.adc_intermediate(255 - value);
    }

    pub fn instruction_adc(
        &mut self,
        bus: &Bus,
        addressing_mode: AddressingMode,
        low_byte: u8,
        high_byte: u8,
    ) -> (cycles: u8)
        requires
            bus_wf(*bus),
            accumulator_read_mode(addressing_mode),
        ensures
            adc_post(*old(self), *final (self), *bus, addressing_mode, low_byte, high_byte, cycles),
    {
        let (value, cycles) = self.read_combining_operand(bus, addressing_mode, low_byte,
            high_byte);
        self.adc_intermediate(value);
        cycles
    }

    pub fn instruction_sbc(
        &mut self,
        bus: &Bus,
        addressing_mode: AddressingMode,
        low_byte: u8,
        high_byte: u8,
    ) -> (cycles: u8)
        requires
            bus_wf(*bus),
            accumulator_read_mode(addressing_mode),
        ensures
            sbc_post(*old(self), *final (self), *bus, addressing_mode, low_byte, high_byte, cycles),
    {
        let (value, cycles) = self.read_combining_operand(bus, addressing_mode, low_byte,
            high_byte);
        self.sbc_intermediate(value);
        cycles
    }

    /// Subtract without storing: only the flags move.
    fn compare_intermediate(&mut self, reg: u8, value: u8)
        ensures
            regs_same_all(*old(self), *final (self)),
            compare_flags(old(self).processor_status, final (self).processor_status, reg, value),
    {
        proof {
            lemma_wrapping_sub_u8(reg, value);
        }
        let difference = reg.wrapping_sub(value);
        if reg >= value {
            self.processor_status.set_carry_flag();
        } else {
            self.processor_status.clear_carry_flag();
        }
        self.modify_zero_flag(difference);
        self.modify_negative_flag(difference);
    }

    pub fn instruction_cmp(
        &mut self,
        bus: &Bus,
        addressing_mode: AddressingMode,
        low_byte: u8,
        high_byte: u8,
    ) -> (cycles: u8)
        requires
            bus_wf(*bus),
            accumulator_read_mode(addressing_mode),
        ensures
            compare_post(
                *old(self),
                *final (self),
                *bus,
                addressing_mode,
                low_byte,
                high_byte,
                old(self).accumulator,
                cycles,
            ),
    {
        let (value, cycles) = self.read_combining_operand(bus, addressing_mode, low_byte,
            high_byte);
        let reg = self.accumulator;
        self.compare_intermediate(reg, value);
        cycles
    }

    pub fn instruction_cpx(
        &mut self,
        bus: &Bus,
        addressing_mode: AddressingMode,
        low_byte: u8,
        high_byte: u8,
    ) -> (cycles: u8)
        requires
            bus_wf(*bus),
            compare_index_mode(addressing_mode),
        ensures
            compare_post(
                *old(self),
                *final (self),
                *bus,
                addressing_mode,
                low_byte,
                high_byte,
                old(self).x,
                cycles,
            ),
    {
        let (value, cycles): (u8, u8) = match addressing_mode {
            AddressingMode::Immediate => (immediate_read(low_byte), 2),
            AddressingMode::Zeropage => (zeropage_read(self, bus, low_byte), 3),
            AddressingMode::Absolute => (absolute_read(self, bus, low_byte, high_byte), 4),
            _ => unreached(),
        };
        let reg = self.x;
        self.compare_intermediate(reg, value);
        cycles
    }

    pub fn instruction_cpy(
        &mut self,
        bus: &Bus,
        addressing_mode: AddressingMode,
        low_byte: u8,
        high_byte: u8,
    ) -> (cycles: u8)
        requires
            bus_wf(*bus),
            compare_index_mode(addressing_mode),
        ensures
            compare_post(
                *old(self),
                *final (self),
                *bus,
                addressing_mode,
                low_byte,
                high_byte,
                old(self).y,
                cycles,
            ),
    {
        let (value, cycles): (u8, u8) = match addressing_mode {
            AddressingMode::Immediate => (immediate_read(low_byte), 2),
            AddressingMode::Zeropage => (zeropage_read(self, bus, low_byte), 3),
            AddressingMode::Absolute => (absolute_read(self, bus, low_byte, high_byte), 4),
            _ => unreached(),
        };
        let reg = self.y;
        self.compare_intermediate(reg, value);
        cycles
    }
}

} // verus!

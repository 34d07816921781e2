//! Shifts and rotates, on the accumulator or on a memory cell depending on
//! the addressing mode. The carry takes the bit shifted off the affected
//! end; the rotates shift the prior carry into the vacated bit; zero and
//! negative follow the result.

use super::{
    operand_addr, operand_value, regs_same_all, regs_same_except_a, rmw_cycles, wrap8,
};
use crate::bus::{bus_same_memory, bus_wf, bus_write_ok, Bus};
use crate::cpu::instruction::{shift_mode, AddressingMode};
use crate::cpu::processor_status::ProcessorStatus;
use crate::cpu::CPU;
use vstd::pervasive::unreached;
use vstd::prelude::*;

verus! {

/// The byte a read-modify-write instruction starts from: the accumulator
/// in accumulator mode, the addressed cell otherwise.
pub open spec fn rmw_operand(
    pre: CPU,
    bus: Bus,
    mode: AddressingMode,
    low: u8,
    high: u8,
) -> u8 {
    if mode == AddressingMode::Accumulator {
        pre.accumulator
    } else {
        operand_value(pre, bus, mode, low, high)
    }
}

/// Where a read-modify-write result lands: back in the accumulator, or
/// back in the addressed cell with registers untouched.
pub open spec fn rmw_target_ok(
    pre: CPU,
    post: CPU,
    pre_bus: Bus,
    post_bus: Bus,
    mode: AddressingMode,
    low: u8,
    high: u8,
    res: u8,
) -> bool {
    if mode == AddressingMode::Accumulator {
        &&& post.accumulator == res
        &&& regs_same_except_a(pre, post)
        &&& bus_same_memory(pre_bus, post_bus)
    } else {
        &&& regs_same_all(pre, post)
        &&& bus_write_ok(pre_bus, post_bus, operand_addr(pre, pre_bus, mode, low, high), res)
    }
}

/// The flag effect every shift and rotate shares: carry takes the ejected
/// bit, zero and negative follow the result, the rest hold still.
pub open spec fn shift_flags(
    pre: ProcessorStatus,
    post: ProcessorStatus,
    carry_out: bool,
    res: u8,
) -> bool {
    &&& post.carry() == carry_out
    &&& post.zero() == (res == 0)
    &&& post.negative() == (res >= 0x80)
    &&& post.interrupt_disable() == pre.interrupt_disable()
    &&& post.decimal() == pre.decimal()
    &&& post.break_bit() == pre.break_bit()
    &&& post.bit5() == pre.bit5()
    &&& post.overflow() == pre.overflow()
}

pub open spec fn asl_result(v: u8) -> u8 {
    wrap8(2 * v)
}

pub open spec fn lsr_result(v: u8) -> u8 {
    v / 2
}

pub open spec fn rol_result(v: u8, cin: bool) -> u8 {
    wrap8(2 * v + if cin {
        1int
    } else {
        0int
    })
}

pub open spec fn ror_result(v: u8, cin: bool) -> u8 {
    (v / 2 + if cin {
        128int
    } else {
        0int
    }) as u8
}

pub open spec fn asl_post(
    pre: CPU,
    post: CPU,
    pre_bus: Bus,
    post_bus: Bus,
    mode: AddressingMode,
    low: u8,
    high: u8,
    cycles: u8,
) -> bool {
    let v = rmw_operand(pre, pre_bus, mode, low, high);
    &&& rmw_target_ok(pre, post, pre_bus, post_bus, mode, low, high, asl_result(v))
    &&& shift_flags(pre.processor_status, post.processor_status, v >= 0x80, asl_result(v))
    &&& cycles == rmw_cycles(mode)
}

pub open spec fn lsr_post(
    pre: CPU,
    post: CPU,
    pre_bus: Bus,
    post_bus: Bus,
    mode: AddressingMode,
    low: u8,
    high: u8,
    cycles: u8,
) -> bool {
    let v = rmw_operand(pre, pre_bus, mode, low, high);
    &&& rmw_target_ok(pre, post, pre_bus, post_bus, mode, low, high, lsr_result(v))
    &&& shift_flags(pre.processor_status, post.processor_status, v % 2 == 1, lsr_result(v))
    &&& cycles == rmw_cycles(mode)
}

pub open spec fn rol_post(
    pre: CPU,
    post: CPU,
    pre_bus: Bus,
    post_bus: Bus,
    mode: AddressingMode,
    low: u8,
    high: u8,
    cycles: u8,
) -> bool {
    let v = rmw_operand(pre, pre_bus, mode, low, high);
    let res = rol_result(v, pre.processor_status.carry());
    &&& rmw_target_ok(pre, post, pre_bus, post_bus, mode, low, high, res)
    &&& shift_flags(pre.processor_status, post.processor_status, v >= 0x80, res)
    &&& cycles == rmw_cycles(mode)
}

pub open spec fn ror_post(
    pre: CPU,
    post: CPU,
    pre_bus: Bus,
    post_bus: Bus,
    mode: AddressingMode,
    low: u8,
    high: u8,
    cycles: u8,
) -> bool {
    let v = rmw_operand(pre, pre_bus, mode, low, high);
    let res = ror_result(v, pre.processor_status.carry());
    &&& rmw_target_ok(pre, post, pre_bus, post_bus, mode, low, high, res)
    &&& shift_flags(pre.processor_status, post.processor_status, v % 2 == 1, res)
    &&& cycles == rmw_cycles(mode)
}

impl CPU {
    /// Reads the memory operand of a read-modify-write instruction and the
    /// cycle cost of its mode.
    pub(crate) fn read_rmw_operand(
        &self,
        bus: &Bus,
        addressing_mode: AddressingMode,
        low_byte: u8,
        high_byte: u8,
    ) -> (r: (u8, u8))
        requires
            bus_wf(*bus),
            addressing_mode == AddressingMode::Zeropage || addressing_mode
                == AddressingMode::ZeropageXIndexed || addressing_mode == AddressingMode::Absolute
                || addressing_mode == AddressingMode::AbsoluteXIndexed,
        ensures
            r.0 == operand_value(*self, *bus, addressing_mode, low_byte, high_byte),
            r.1 == rmw_cycles(addressing_mode),
    {
        match addressing_mode {
            AddressingMode::Zeropage => (super::zeropage_read(self, bus, low_byte), 5),
            AddressingMode::ZeropageXIndexed => (super::zeropage_x_read(self, bus, low_byte), 6),
            AddressingMode::Absolute => (super::absolute_read(self, bus, low_byte, high_byte), 6),
            AddressingMode::AbsoluteXIndexed => {
                let (value, _) = super::absolute_x_read(self, bus, low_byte, high_byte);
                (value, 7)
            },
            _ => unreached(),
        }
    }

    /// Writes a read-modify-write result back to the addressed cell.
    pub(crate) fn write_rmw_operand(
        &self,
        bus: &mut Bus,
        addressing_mode: AddressingMode,
        low_byte: u8,
        high_byte: u8,
        value: u8,
    )
        requires
            bus_wf(*old(bus)),
            addressing_mode == AddressingMode::Zeropage || addressing_mode
                == AddressingMode::ZeropageXIndexed || addressing_mode == AddressingMode::Absolute
                || addressing_mode == AddressingMode::AbsoluteXIndexed,
        ensures
            bus_wf(*final (bus)),
            final (bus).current_machine_cycles == old(bus).current_machine_cycles,
            bus_write_ok(
                *old(bus),
                *final (bus),
                operand_addr(*self, *old(bus), addressing_mode, low_byte, high_byte),
                value,
            ),
    {
        match addressing_mode {
            AddressingMode::Zeropage => super::zeropage_write(self, bus, low_byte, value),
            AddressingMode::ZeropageXIndexed => super::zeropage_x_write(self, bus, low_byte, value),
            AddressingMode::Absolute => super::absolute_write(
                self,
                bus,
                low_byte,
                high_byte,
                value,
            ),
            AddressingMode::AbsoluteXIndexed => super::absolute_x_write(
                self,
                bus,
                low_byte,
                high_byte,
                value,
            ),
            _ => unreached(),
        }
    }

    /// Leaves `carry_out`, then zero and negative from `res`, in the
    /// status byte.
    fn shift_fix_flags(&mut self, carry_out: bool, res: u8)
        ensures
            regs_same_all(*old(self), *final (self)),
            shift_flags(old(self).processor_status, final (self).processor_status, carry_out, res),
    {
        if carry_out {
            self.processor_status.set_carry_flag();
        } else {
            self.processor_status.clear_carry_flag();
        }
        self.modify_zero_flag(res);
        self.modify_negative_flag(res);
    }

    pub fn instruction_asl(
        &mut self,
        bus: &mut Bus,
        addressing_mode: AddressingMode,
        low_byte: u8,
        high_byte: u8,
    ) -> (cycles: u8)
        requires
            bus_wf(*old(bus)),
            shift_mode(addressing_mode),
        ensures
            bus_wf(*final (bus)),
            final (bus).current_machine_cycles == old(bus).current_machine_cycles,
            asl_post(
                *old(self),
                *final (self),
                *old(bus),
                *final (bus),
                addressing_mode,
                low_byte,
                high_byte,
                cycles,
            ),
    {
        if let AddressingMode::Accumulator = addressing_mode {
            let v = self.accumulator;
            let res: u8 = ((v as u16 * 2) % 256) as u8;
            self.accumulator = res;
            self.shift_fix_flags(v >= 0x80, res);
            2
        } else {
            let (v, cycles) = self.read_rmw_operand(bus, addressing_mode, low_byte, high_byte);
            let res: u8 = ((v as u16 * 2) % 256) as u8;
            self.shift_fix_flags(v >= 0x80, res);
            self.write_rmw_operand(bus, addressing_mode, low_byte, high_byte, res);
            cycles
        }
    }

    pub fn instruction_lsr(
        &mut self,
        bus: &mut Bus,
        addressing_mode: AddressingMode,
        low_byte: u8,
        high_byte: u8,
    ) -> (cycles: u8)
        requires
            bus_wf(*old(bus)),
            shift_mode(addressing_mode),
        ensures
            bus_wf(*final (bus)),
            final (bus).current_machine_cycles == old(bus).current_machine_cycles,
            lsr_post(
                *old(self),
                *final (self),
                *old(bus),
                *final (bus),
                addressing_mode,
                low_byte,
                high_byte,
                cycles,
            ),
    {
        if let AddressingMode::Accumulator = addressing_mode {
            let v = self.accumulator;
            let res: u8 = v / 2;
            self.accumulator = res;
            self.shift_fix_flags(v % 2 == 1, res);
            2
        } else {
            let (v, cycles) = self.read_rmw_operand(bus, addressing_mode, low_byte, high_byte);
            let res: u8 = v / 2;
            self.shift_fix_flags(v % 2 == 1, res);
            self.write_rmw_operand(bus, addressing_mode, low_byte, high_byte, res);
            cycles
        }
    }

    pub fn instruction_rol(
        &mut self,
        bus: &mut Bus,
        addressing_mode: AddressingMode,
        low_byte: u8,
        high_byte: u8,
    ) -> (cycles: u8)
        requires
            bus_wf(*old(bus)),
            shift_mode(addressing_mode),
        ensures
            bus_wf(*final (bus)),
            final (bus).current_machine_cycles == old(bus).current_machine_cycles,
            rol_post(
                *old(self),
                *final (self),
                *old(bus),
                *final (bus),
                addressing_mode,
                low_byte,
                high_byte,
                cycles,
            ),
    {
        let old_carry: u16 = if self.processor_status.carry_flag() {
            1
        } else {
            0
        };
        if let AddressingMode::Accumulator = addressing_mode {
            let v = self.accumulator;
            let res: u8 = ((v as u16 * 2 + old_carry) % 256) as u8;
            self.accumulator = res;
            self.shift_fix_flags(v >= 0x80, res);
            2
        } else {
            let (v, cycles) = self.read_rmw_operand(bus, addressing_mode, low_byte, high_byte);
            let res: u8 = ((v as u16 * 2 + old_carry) % 256) as u8;
            self.shift_fix_flags(v >= 0x80, res);
            self.write_rmw_operand(bus, addressing_mode, low_byte, high_byte, res);
            cycles
        }
    }

    pub fn instruction_ror(
        &mut self,
        bus: &mut Bus,
        addressing_mode: AddressingMode,
        low_byte: u8,
        high_byte: u8,
    ) -> (cycles: u8)
        requires
            bus_wf(*old(bus)),
            shift_mode(addressing_mode),
        ensures
            bus_wf(*final (bus)),
            final (bus).current_machine_cycles == old(bus).current_machine_cycles,
            ror_post(
                *old(self),
                *final (self),
                *old(bus),
                *final (bus),
                addressing_mode,
                low_byte,
                high_byte,
                cycles,
            ),
    {
        let old_carry: u8 = if self.processor_status.carry_flag() {
            128
        } else {
            0
        };
        if let AddressingMode::Accumulator = addressing_mode {
            let v = self.accumulator;
            let res: u8 = v / 2 + old_carry;
            self.accumulator = res;
            self.shift_fix_flags(v % 2 == 1, res);
            2
        } else {
            let (v, cycles) = self.read_rmw_operand(bus, addressing_mode, low_byte, high_byte);
            let res: u8 = v / 2 + old_carry;
            self.shift_fix_flags(v % 2 == 1, res);
            self.write_rmw_operand(bus, addressing_mode, low_byte, high_byte, res);
            cycles
        }
    }
}

} // verus!

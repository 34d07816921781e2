//! Increments and decrements: one up or down on a memory cell or an index
//! register, wrapping modulo 256, touching zero and negative only.

use super::{
    nz_flags_set, operand_addr, regs_same_all, regs_same_except_x, regs_same_except_y,
    rmw_cycles, wrap8,
};
use crate::bus::{bus_wf, bus_write_ok, Bus};
use crate::cpu::instruction::{incdec_mode, AddressingMode};
use crate::cpu::CPU;
use crate::cpu::instruction::execution::shifts::rmw_operand;
use vstd::prelude::*;

verus! {

/// INC and DEC share one shape: `res` is the stored byte.
pub open spec fn incdec_post(
    pre: CPU,
    post: CPU,
    pre_bus: Bus,
    post_bus: Bus,
    mode: AddressingMode,
    low: u8,
    high: u8,
    res: u8,
    cycles: u8,
) -> bool {
    &&& regs_same_all(pre, post)
    &&& bus_write_ok(pre_bus, post_bus, operand_addr(pre, pre_bus, mode, low, high), res)
    &&& nz_flags_set(pre.processor_status, post.processor_status, res)
    &&& cycles == rmw_cycles(mode)
}

pub open spec fn inc_post(
    pre: CPU,
    post: CPU,
    pre_bus: Bus,
    post_bus: Bus,
    mode: AddressingMode,
    low: u8,
    high: u8,
    cycles: u8,
) -> bool {
    incdec_post(
        pre,
        post,
        pre_bus,
        post_bus,
        mode,
        low,
        high,
        wrap8(rmw_operand(pre, pre_bus, mode, low, high) + 1),
        cycles,
    )
}

pub open spec fn dec_post(
    pre: CPU,
    post: CPU,
    pre_bus: Bus,
    post_bus: Bus,
    mode: AddressingMode,
    low: u8,
    high: u8,
    cycles: u8,
) -> bool {
    incdec_post(
        pre,
        post,
        pre_bus,
        post_bus,
        mode,
        low,
        high,
        wrap8(rmw_operand(pre, pre_bus, mode, low, high) - 1),
        cycles,
    )
}

pub open spec fn inx_post(pre: CPU, post: CPU, cycles: u8) -> bool {
    &&& post.x == wrap8(pre.x + 1)
    &&& regs_same_except_x(pre, post)
    &&& nz_flags_set(pre.processor_status, post.processor_status, wrap8(pre.x + 1))
    &&& cycles == 2
}

pub open spec fn iny_post(pre: CPU, post: CPU, cycles: u8) -> bool {
    &&& post.y == wrap8(pre.y + 1)
    &&& regs_same_except_y(pre, post)
    &&& nz_flags_set(pre.processor_status, post.processor_status, wrap8(pre.y + 1))
    &&& cycles == 2
}

pub open spec fn dex_post(pre: CPU, post: CPU, cycles: u8) -> bool {
    &&& post.x == wrap8(pre.x - 1)
    &&& regs_same_except_x(pre, post)
    &&& nz_flags_set(pre.processor_status, post.processor_status, wrap8(pre.x - 1))
    &&& cycles == 2
}

pub open spec fn dey_post(pre: CPU, post: CPU, cycles: u8) -> bool {
    &&& post.y == wrap8(pre.y - 1)
    &&& regs_same_except_y(pre, post)
    &&& nz_flags_set(pre.processor_status, post.processor_status, wrap8(pre.y - 1))
    &&& cycles == 2
}

impl CPU {
    pub fn instruction_inc(
        &mut self,
        bus: &mut Bus,
        addressing_mode: AddressingMode,
        low_byte: u8,
        high_byte: u8,
    ) -> (cycles: u8)
        requires
            bus_wf(*old(bus)),
            incdec_mode(addressing_mode),
        ensures
            bus_wf(*final (bus)),
            final (bus).current_machine_cycles == old(bus).current_machine_cycles,
            inc_post(
                *old(self),
                *final (self),
                *old(bus),
                *final (bus),
                addressing_mode,
                low_byte,
                high_byte,
                cycles,
            ),
    {
        let (v, cycles) = self.read_rmw_operand(bus, addressing_mode, low_byte, high_byte);
        proof {
            super::lemma_wrapping_add_u8(v, 1);
        }
        let res = v.wrapping_add(1);
        self.modify_zero_flag(res);
        self.modify_negative_flag(res);
        self.write_rmw_operand(bus, addressing_mode, low_byte, high_byte, res);
        cycles
    }

    pub fn instruction_dec(
        &mut self,
        bus: &mut Bus,
        addressing_mode: AddressingMode,
        low_byte: u8,
        high_byte: u8,
    ) -> (cycles: u8)
        requires
            bus_wf(*old(bus)),
            incdec_mode(addressing_mode),
        ensures
            bus_wf(*final (bus)),
            final (bus).current_machine_cycles == old(bus).current_machine_cycles,
            dec_post(
                *old(self),
                *final (self),
                *old(bus),
                *final (bus),
                addressing_mode,
                low_byte,
                high_byte,
                cycles,
            ),
    {
        let (v, cycles) = self.read_rmw_operand(bus, addressing_mode, low_byte, high_byte);
        proof {
            super::lemma_wrapping_sub_u8(v, 1);
        }
        let res = v.wrapping_sub(1);
        self.modify_zero_flag(res);
        self.modify_negative_flag(res);
        self.write_rmw_operand(bus, addressing_mode, low_byte, high_byte, res);
        cycles
    }

    pub fn instruction_inx(&mut self) -> (cycles: u8)
        ensures
            inx_post(*old(self), *final (self), cycles),
    {
        proof {
            super::lemma_wrapping_add_u8(self.x, 1);
        }
        self.x = self.x.wrapping_add(1);
        let res = self.x;
        self.modify_zero_flag(res);
        self.modify_negative_flag(res);
        2
    }

    pub fn instruction_iny(&mut self) -> (cycles: u8)
        ensures
            iny_post(*old(self), *final (self), cycles),
    {
        proof {
            super::lemma_wrapping_add_u8(self.y, 1);
        }
        self.y = self.y.wrapping_add(1);
        let res = self.y;
        self.modify_zero_flag(res);
        self.modify_negative_flag(res);
        2
    }

    pub fn instruction_dex(&mut self) -> (cycles: u8)
        ensures
            dex_post(*old(self), *final (self), cycles),
    {
        proof {
            super::lemma_wrapping_sub_u8(self.x, 1);
        }
        self.x = self.x.wrapping_sub(1);
        let res = self.x;
        self.modify_zero_flag(res);
        self.modify_negative_flag(res);
        2
    }

    pub fn instruction_dey(&mut self) -> (cycles: u8)
        ensures
            dey_post(*old(self), *final (self), cycles),
    {
        proof {
            super::lemma_wrapping_sub_u8(self.y, 1);
        }
        self.y = self.y.wrapping_sub(1);
        let res = self.y;
        self.modify_zero_flag(res);
        self.modify_negative_flag(res);
        2
    }
}

} // verus!

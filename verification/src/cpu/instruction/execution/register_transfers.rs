//! Register transfers: each copies one register into another in two
//! cycles and sets zero/negative from the moved byte.

use super::{nz_flags_set, regs_same_except_a, regs_same_except_x, regs_same_except_y};
use crate::cpu::CPU;
use vstd::prelude::*;

verus! {

pub open spec fn tax_post(pre: CPU, post: CPU, cycles: u8) -> bool {
    &&& post.x == pre.accumulator
    &&& regs_same_except_x(pre, post)
    &&& nz_flags_set(pre.processor_status, post.processor_status, pre.accumulator)
    &&& cycles == 2
}

pub open spec fn tay_post(pre: CPU, post: CPU, cycles: u8) -> bool {
    &&& post.y == pre.accumulator
    &&& regs_same_except_y(pre, post)
    &&& nz_flags_set(pre.processor_status, post.processor_status, pre.accumulator)
    &&& cycles == 2
}

pub open spec fn txa_post(pre: CPU, post: CPU, cycles: u8) -> bool {
    &&& post.accumulator == pre.x
    &&& regs_same_except_a(pre, post)
    &&& nz_flags_set(pre.processor_status, post.processor_status, pre.x)
    &&& cycles == 2
}

pub open spec fn tya_post(pre: CPU, post: CPU, cycles: u8) -> bool {
    &&& post.accumulator == pre.y
    &&& regs_same_except_a(pre, post)
    &&& nz_flags_set(pre.processor_status, post.processor_status, pre.y)
    &&& cycles == 2
}

impl CPU {
    pub fn instruction_tax(&mut self) -> (cycles: u8)
        ensures
            tax_post(*old(self), *final (self), cycles),
    {
        self.x = self.accumulator;
        let moved = self.x;
        self.modify_negative_flag(moved);
        self.modify_zero_flag(moved);
        2
    }

    pub fn instruction_tay(&mut self) -> (cycles: u8)
        ensures
            tay_post(*old(self), *final (self), cycles),
    {
        self.y = self.accumulator;
        let moved = self.y;
        self.modify_negative_flag(moved);
        self.modify_zero_flag(moved);
        2
    }

    pub fn instruction_txa(&mut self) -> (cycles: u8)
        ensures
            txa_post(*old(self), *final (self), cycles),
    {
        self.accumulator = self.x;
        let moved = self.accumulator;
        self.modify_negative_flag(moved);
        self.modify_zero_flag(moved);
        2
    }

    pub fn instruction_tya(&mut self) -> (cycles: u8)
        ensures
            tya_post(*old(self), *final (self), cycles),
    {
        self.accumulator = self.y;
        let moved = self.accumulator;
        self.modify_negative_flag(moved);
        self.modify_zero_flag(moved);
        2
    }
}

} // verus!

//! The flag instructions: a direct single-bit set or clear, two cycles,
//! no other side effect.

use super::regs_same_all;
use crate::cpu::processor_status::{
    eq_except_carry, eq_except_decimal, eq_except_interrupt_disable, eq_except_overflow,
};
use crate::cpu::CPU;
use vstd::prelude::*;

verus! {

pub open spec fn clc_post(pre: CPU, post: CPU, cycles: u8) -> bool {
    &&& regs_same_all(pre, post)
    &&& !post.processor_status.carry()
    &&& eq_except_carry(pre.processor_status, post.processor_status)
    &&& cycles == 2
}

pub open spec fn sec_post(pre: CPU, post: CPU, cycles: u8) -> bool {
    &&& regs_same_all(pre, post)
    &&& post.processor_status.carry()
    &&& eq_except_carry(pre.processor_status, post.processor_status)
    &&& cycles == 2
}

pub open spec fn cld_post(pre: CPU, post: CPU, cycles: u8) -> bool {
    &&& regs_same_all(pre, post)
    &&& !post.processor_status.decimal()
    &&& eq_except_decimal(pre.processor_status, post.processor_status)
    &&& cycles == 2
}

pub open spec fn sed_post(pre: CPU, post: CPU, cycles: u8) -> bool {
    &&& regs_same_all(pre, post)
    &&& post.processor_status.decimal()
    &&& eq_except_decimal(pre.processor_status, post.processor_status)
    &&& cycles == 2
}

pub open spec fn cli_post(pre: CPU, post: CPU, cycles: u8) -> bool {
    &&& regs_same_all(pre, post)
    &&& !post.processor_status.interrupt_disable()
    &&& eq_except_interrupt_disable(pre.processor_status, post.processor_status)
    &&& cycles == 2
}

pub open spec fn sei_post(pre: CPU, post: CPU, cycles: u8) -> bool {
    &&& regs_same_all(pre, post)
    &&& post.processor_status.interrupt_disable()
    &&& eq_except_interrupt_disable(pre.processor_status, post.processor_status)
    &&& cycles == 2
}

pub open spec fn clv_post(pre: CPU, post: CPU, cycles: u8) -> bool {
    &&& regs_same_all(pre, post)
    &&& !post.processor_status.overflow()
    &&& eq_except_overflow(pre.processor_status, post.processor_status)
    &&& cycles == 2
}

impl CPU {
    pub fn instruction_clc(&mut self) -> (cycles: u8)
        ensures
            clc_post(*old(self), *final (self), cycles),
    {
        self.processor_status.clear_carry_flag();
        2
    }

    pub fn instruction_cld(&mut self) -> (cycles: u8)
        ensures
            cld_post(*old(self), *final (self), cycles),
    {
        self.processor_status.clear_decimal_flag();
        2
    }

    pub fn instruction_cli(&mut self) -> (cycles: u8)
        ensures
            cli_post(*old(self), *final (self), cycles),
    {
        self.processor_status.clear_interrupt_disable_flag();
        2
    }

    pub fn instruction_clv(&mut self) -> (cycles: u8)
        ensures
            clv_post(*old(self), *final (self), cycles),
    {
        self.processor_status.clear_overflow_flag();
        2
    }

    pub fn instruction_sec(&mut self) -> (cycles: u8)
        ensures
            sec_post(*old(self), *final (self), cycles),
    {
        self.processor_status.set_carry_flag();
        2
    }

    pub fn instruction_sed(&mut self) -> (cycles: u8)
        ensures
            sed_post(*old(self), *final (self), cycles),
    {
        self.processor_status.set_decimal_flag();
        2
    }

    pub fn instruction_sei(&mut self) -> (cycles: u8)
        ensures
            sei_post(*old(self), *final (self), cycles),
    {
        self.processor_status.set_interrupt_disable_flag();
        2
    }
}

} // verus!

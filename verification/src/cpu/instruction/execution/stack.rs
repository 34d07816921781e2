//! Stack and stack-pointer instructions. Pushes and pulls go through the
//! fixed page 0x0100-0x01FF; the pointer wraps silently. PHP pushes the
//! status with the break flag's stored copy set, without touching the live
//! flag. Pulling the accumulator sets zero/negative from the pulled byte;
//! moving the pointer to X does too, while loading the pointer from X
//! leaves every flag alone.

use super::{
    nz_flags_set, regs_same_all, regs_same_except_sp, regs_same_except_x, stack_addr,
    stack_index, wrap8,
};
use crate::bus::{bus_spec_read, bus_same_memory, bus_wf, bus_write_ok, Bus};
use crate::cpu::processor_status::ProcessorStatus;
use crate::cpu::CPU;
use vstd::prelude::*;

verus! {

pub open spec fn tsx_post(pre: CPU, post: CPU, cycles: u8) -> bool {
    &&& post.x == pre.stack_pointer
    &&& regs_same_except_x(pre, post)
    &&& nz_flags_set(pre.processor_status, post.processor_status, pre.stack_pointer)
    &&& cycles == 2
}

pub open spec fn txs_post(pre: CPU, post: CPU, cycles: u8) -> bool {
    &&& post.stack_pointer == pre.x
    &&& regs_same_except_sp(pre, post)
    &&& post.processor_status == pre.processor_status
    &&& cycles == 2
}

/// A push: the byte lands at the stack address, the pointer steps down.
pub open spec fn push_post(
    pre: CPU,
    post: CPU,
    pre_bus: Bus,
    post_bus: Bus,
    byte: u8,
    cycles: u8,
) -> bool {
    &&& bus_write_ok(pre_bus, post_bus, stack_addr(pre.stack_pointer), byte)
    &&& post.stack_pointer == wrap8(pre.stack_pointer - 1)
    &&& regs_same_except_sp(pre, post)
    &&& cycles == 3
}

pub open spec fn pha_post(pre: CPU, post: CPU, pre_bus: Bus, post_bus: Bus, cycles: u8) -> bool {
    &&& push_post(pre, post, pre_bus, post_bus, pre.accumulator, cycles)
    &&& post.processor_status == pre.processor_status
}

pub open spec fn php_post(pre: CPU, post: CPU, pre_bus: Bus, post_bus: Bus, cycles: u8) -> bool {
    &&& push_post(pre, post, pre_bus, post_bus, pre.processor_status.0 | 0x10, cycles)
    &&& post.processor_status == pre.processor_status
}

pub open spec fn pla_post(pre: CPU, post: CPU, bus: Bus, cycles: u8) -> bool {
    let pulled = bus_spec_read(bus, stack_addr(wrap8(pre.stack_pointer + 1)));
    &&& post.accumulator == pulled
    &&& post.stack_pointer == wrap8(pre.stack_pointer + 1)
    &&& post.x == pre.x
    &&& post.y == pre.y
    &&& post.program_counter == pre.program_counter
    &&& post.initialized == pre.initialized
    &&& nz_flags_set(pre.processor_status, post.processor_status, pulled)
    &&& cycles == 4
}

pub open spec fn plp_post(pre: CPU, post: CPU, bus: Bus, cycles: u8) -> bool {
    &&& post.processor_status.0 == bus_spec_read(
        bus,
        stack_addr(wrap8(pre.stack_pointer + 1)),
    )
    &&& post.stack_pointer == wrap8(pre.stack_pointer + 1)
    &&& post.accumulator == pre.accumulator
    &&& post.x == pre.x
    &&& post.y == pre.y
    &&& post.program_counter == pre.program_counter
    &&& post.initialized == pre.initialized
    &&& cycles == 4
}

impl CPU {
    pub fn instruction_tsx(&mut self) -> (cycles: u8)
        ensures
            tsx_post(*old(self), *final (self), cycles),
    {
        self.x = self.stack_pointer;
        let moved = self.x;
        self.modify_negative_flag(moved);
        self.modify_zero_flag(moved);
        2
    }

    pub fn instruction_txs(&mut self) -> (cycles: u8)
        ensures
            txs_post(*old(self), *final (self), cycles),
    {
        self.stack_pointer = self.x;
        2
    }

    pub fn instruction_pha(&mut self, bus: &mut Bus) -> (cycles: u8)
        requires
            bus_wf(*old(bus)),
        ensures
            bus_wf(*final (bus)),
            final (bus).current_machine_cycles == old(bus).current_machine_cycles,
            pha_post(*old(self), *final (self), *old(bus), *final (bus), cycles),
    {
        let byte = self.accumulator;
        self.push(bus, byte);
        3
    }

    pub fn instruction_php(&mut self, bus: &mut Bus) -> (cycles: u8)
        requires
            bus_wf(*old(bus)),
        ensures
            bus_wf(*final (bus)),
            final (bus).current_machine_cycles == old(bus).current_machine_cycles,
            php_post(*old(self), *final (self), *old(bus), *final (bus), cycles),
    {
        // The stored copy carries the break flag set; the live flag stays.
        let byte = self.processor_status.0 | 0x10;
        self.push(bus, byte);
        3
    }

    pub fn instruction_pla(&mut self, bus: &Bus) -> (cycles: u8)
        requires
            bus_wf(*bus),
        ensures
            pla_post(*old(self), *final (self), *bus, cycles),
    {
        let pulled = self.pop(bus);
        self.accumulator = pulled;
        self.modify_negative_flag(pulled);
        self.modify_zero_flag(pulled);
        4
    }

    pub fn instruction_plp(&mut self, bus: &Bus) -> (cycles: u8)
        requires
            bus_wf(*bus),
        ensures
            plp_post(*old(self), *final (self), *bus, cycles),
    {
        let pulled = self.pop(bus);
        self.processor_status = ProcessorStatus(pulled);
        4
    }
}

} // verus!

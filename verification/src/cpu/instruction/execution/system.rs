//! The system instructions. BRK pushes the program counter and the status
//! with the break flag set, then loads the program counter from the
//! interrupt vector; RTI reverses it, masking the pulled byte's break and
//! spare bits back to their live values; NOP only consumes cycles.

use super::{
    hi_byte, lo_byte, pack_bytes, regs_same_all, regs_same_except_sp_pc, spec_pack, stack_addr,
    stack_index, unpack_bytes, wrap8,
};
use crate::bus::{bus_spec_read, bus_wf, Bus};
use crate::cartridge::cart_same;
use crate::cpu::processor_status::ProcessorStatus;
use crate::cpu::{CPU, IRQ_BRK_VECTOR_ADDRESS};
use vstd::prelude::*;

verus! {

/// What BRK does: the program counter and the status byte (break flag set,
/// both on the stack copy and live) are pushed, and execution continues at
/// the address held in the interrupt vector.
pub open spec fn brk_post(pre: CPU, post: CPU, pre_bus: Bus, post_bus: Bus, cycles: u8) -> bool {
    &&& post_bus.work_ram.0@ == pre_bus.work_ram.0@.update(
        stack_index(pre.stack_pointer),
        hi_byte(pre.program_counter),
    ).update(stack_index(wrap8(pre.stack_pointer - 1)), lo_byte(pre.program_counter)).update(
        stack_index(wrap8(pre.stack_pointer - 2)),
        pre.processor_status.0 | 0x10,
    )
    &&& post.processor_status.0 == pre.processor_status.0 | 0x10
    &&& post.stack_pointer == wrap8(pre.stack_pointer - 3)
    &&& post.program_counter == spec_pack(
        bus_spec_read(pre_bus, IRQ_BRK_VECTOR_ADDRESS),
        bus_spec_read(pre_bus, (IRQ_BRK_VECTOR_ADDRESS + 1) as u16),
    )
    &&& regs_same_except_sp_pc(pre, post)
    &&& post_bus.ppu.registers@ == pre_bus.ppu.registers@
    &&& post_bus.ppu.ppu_status == pre_bus.ppu.ppu_status
    &&& post_bus.ppu.initialized == pre_bus.ppu.initialized
    &&& cart_same(pre_bus.cartridge, post_bus.cartridge)
    &&& post_bus.apu == pre_bus.apu
    &&& cycles == 7
}

/// What RTI does: the status comes back with the break and spare bits held
/// at their live values, then the program counter follows.
pub open spec fn rti_post(pre: CPU, post: CPU, bus: Bus, cycles: u8) -> bool {
    let pulled_status = bus_spec_read(bus, stack_addr(wrap8(pre.stack_pointer + 1)));
    let lo = bus_spec_read(bus, stack_addr(wrap8(pre.stack_pointer + 2)));
    let hi = bus_spec_read(bus, stack_addr(wrap8(pre.stack_pointer + 3)));
    &&& post.processor_status.0 == (pulled_status & 0xCF) | (pre.processor_status.0 & 0x30)
    &&& post.program_counter == spec_pack(lo, hi)
    &&& post.stack_pointer == wrap8(pre.stack_pointer + 3)
    &&& regs_same_except_sp_pc(pre, post)
    &&& cycles == 6
}

pub open spec fn nop_post(pre: CPU, post: CPU, cycles: u8) -> bool {
    &&& regs_same_all(pre, post)
    &&& post.processor_status == pre.processor_status
    &&& cycles == 2
}

impl CPU {
    pub fn instruction_brk(&mut self, bus: &mut Bus) -> (cycles: u8)
        requires
            bus_wf(*old(bus)),
        ensures
            bus_wf(*final (bus)),
            final (bus).current_machine_cycles == old(bus).current_machine_cycles,
            brk_post(*old(self), *final (self), *old(bus), *final (bus), cycles),
    {
        let (pc_low, pc_high) = unpack_bytes(self.program_counter);

        self.push(bus, pc_high);
        self.push(bus, pc_low);

        self.processor_status.set_break_flag();

        let status_byte = self.processor_status.0;
        self.push(bus, status_byte);

        self.program_counter = pack_bytes(
            bus.read(IRQ_BRK_VECTOR_ADDRESS),
            bus.read(IRQ_BRK_VECTOR_ADDRESS + 1),
        );

        7
    }

    pub fn instruction_nop(&mut self) -> (cycles: u8)
        ensures
            nop_post(*old(self), *final (self), cycles),
    {
        2
    }

    pub fn instruction_rti(&mut self, bus: &Bus) -> (cycles: u8)
        requires
            bus_wf(*bus),
        ensures
            rti_post(*old(self), *final (self), *bus, cycles),
    {
        // Ignore the pulled break flag and spare bit: they keep their
        // live values across the return.
        let pulled = self.pop(bus);
        self.processor_status = ProcessorStatus(
            (pulled & 0b1100_1111) | (self.processor_status.0 & 0b0011_0000),
        );

        let pc_low = self.pop(bus);
        let pc_high = self.pop(bus);

        self.program_counter = pack_bytes(pc_low, pc_high);

        6
    }
}

} // verus!

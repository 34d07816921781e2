//! Jumps and subroutine calls. The indirect jump reproduces the hardware
//! boundary quirk on purpose: a vector at the end of a page reads its high
//! byte from the start of that same page. JSR pushes the return address
//! minus one, high byte first; RTS pops it and adds the one back.

use super::{
    hi_byte, lo_byte, pack_bytes, regs_same_except_pc, regs_same_except_sp_pc, spec_pack,
    stack_addr, stack_index, unpack_bytes, wrap16, wrap8,
};
use crate::bus::{bus_spec_read, bus_same_memory, bus_wf, bus_write_ok, ram_index, Bus};
use crate::cpu::instruction::{jmp_mode, AddressingMode};
use crate::cpu::CPU;
use vstd::pervasive::unreached;
use vstd::prelude::*;

verus! {

/// Where an indirect jump reads the high byte of its vector: one past the
/// pointer, except that crossing out of the page wraps back to its start.
pub open spec fn indirect_high_addr(base: u16) -> u16 {
    if base % 256 == 255 {
        (base - 255) as u16
    } else {
        (base + 1) as u16
    }
}

/// What JMP does: absolute takes the operand word in 3 cycles; indirect
/// reads the vector through the bus in 5, with the page-wrap quirk on the
/// high byte.
pub open spec fn jmp_post(
    pre: CPU,
    post: CPU,
    bus: Bus,
    mode: AddressingMode,
    low: u8,
    high: u8,
    cycles: u8,
) -> bool {
    &&& regs_same_except_pc(pre, post)
    &&& post.processor_status == pre.processor_status
    &&& if mode == AddressingMode::Absolute {
        &&& post.program_counter == spec_pack(low, high)
        &&& cycles == 3
    } else {
        &&& post.program_counter == spec_pack(
            bus_spec_read(bus, spec_pack(low, high)),
            bus_spec_read(bus, indirect_high_addr(spec_pack(low, high))),
        )
        &&& cycles == 5
    }
}

/// What JSR does: the word before the return address goes onto the stack,
/// high byte then low byte, and the program counter takes the operand.
pub open spec fn jsr_post(
    pre: CPU,
    post: CPU,
    pre_bus: Bus,
    post_bus: Bus,
    low: u8,
    high: u8,
    cycles: u8,
) -> bool {
    let ret = wrap16(pre.program_counter - 1);
    &&& post.program_counter == spec_pack(low, high)
    &&& post.stack_pointer == wrap8(pre.stack_pointer - 2)
    &&& regs_same_except_sp_pc(pre, post)
    &&& post.processor_status == pre.processor_status
    &&& post_bus.work_ram.0@ == pre_bus.work_ram.0@.update(
        stack_index(pre.stack_pointer),
        hi_byte(ret),
    ).update(stack_index(wrap8(pre.stack_pointer - 1)), lo_byte(ret))
    &&& post_bus.ppu.registers@ == pre_bus.ppu.registers@
    &&& post_bus.ppu.ppu_status == pre_bus.ppu.ppu_status
    &&& post_bus.ppu.initialized == pre_bus.ppu.initialized
    &&& crate::cartridge::cart_same(pre_bus.cartridge, post_bus.cartridge)
    &&& post_bus.apu == pre_bus.apu
    &&& cycles == 6
}

/// What RTS does: the pushed word comes back off the stack, low byte
/// first, and one is added to it.
pub open spec fn rts_post(pre: CPU, post: CPU, bus: Bus, cycles: u8) -> bool {
    let lo = bus_spec_read(bus, stack_addr(wrap8(pre.stack_pointer + 1)));
    let hi = bus_spec_read(bus, stack_addr(wrap8(pre.stack_pointer + 2)));
    &&& post.program_counter == wrap16(spec_pack(lo, hi) + 1)
    &&& post.stack_pointer == wrap8(pre.stack_pointer + 2)
    &&& regs_same_except_sp_pc(pre, post)
    &&& post.processor_status == pre.processor_status
    &&& cycles == 6
}

impl CPU {
    pub fn instruction_jmp(
        &mut self,
        bus: &Bus,
        addressing_mode: AddressingMode,
        low_byte: u8,
        high_byte: u8,
    ) -> (cycles: u8)
        requires
            bus_wf(*bus),
            jmp_mode(addressing_mode),
        ensures
            jmp_post(*old(self), *final (self), *bus, addressing_mode, low_byte, high_byte, cycles),
    {
        match addressing_mode {
            AddressingMode::Absolute => {
                self.program_counter = pack_bytes(low_byte, high_byte);
                3
            },
            AddressingMode::Indirect => {
                // The vector read wraps within its page: a pointer at
                // $xxFF takes its high byte from $xx00, as the hardware
                // does, so the wrap is written out rather than left to
                // address arithmetic.
                let base_address = pack_bytes(low_byte, high_byte);
                let high_address: u16 = if low_byte == 0xFF {
                    base_address - 255
                } else {
                    base_address + 1
                };
                self.program_counter = pack_bytes(bus.read(base_address), bus.read(high_address));
                5
            },
            _ => unreached(),
        }
    }

    pub fn instruction_jsr(&mut self, bus: &mut Bus, low_byte: u8, high_byte: u8) -> (cycles: u8)
        requires
            bus_wf(*old(bus)),
        ensures
            bus_wf(*final (bus)),
            final (bus).current_machine_cycles == old(bus).current_machine_cycles,
            jsr_post(
                *old(self),
                *final (self),
                *old(bus),
                *final (bus),
                low_byte,
                high_byte,
                cycles,
            ),
    {
        let subroutine_address = pack_bytes(low_byte, high_byte);

        // The documented behaviour pushes the return address minus one;
        // the matching RTS adds the one back.
        proof {
            super::lemma_wrapping_sub_u16(self.program_counter, 1);
        }
        let (pc_low, pc_high) = unpack_bytes(self.program_counter.wrapping_sub(1));

        self.push(bus, pc_high);
        self.push(bus, pc_low);

        self.program_counter = subroutine_address;

        6
    }

    pub fn instruction_rts(&mut self, bus: &Bus) -> (cycles: u8)
        requires
            bus_wf(*bus),
        ensures
            rts_post(*old(self), *final (self), *bus, cycles),
    {
        let pc_low = self.pop(bus);
        let pc_high = self.pop(bus);

        // Add back the one that the call subtracted before pushing.
        let pulled = pack_bytes(pc_low, pc_high);
        proof {
            super::lemma_wrapping_add_u16(pulled, 1);
        }
        self.program_counter = pulled.wrapping_add(1);

        6
    }
}

/// The indirect-jump boundary quirk, on its own: a vector whose pointer
/// sits at the last byte of a page takes its low byte from there and its
/// high byte from the first byte of that same page, not of the next one.
pub proof fn lemma_indirect_jmp_page_wrap(
    pre: CPU,
    post: CPU,
    bus: Bus,
    high: u8,
    cycles: u8,
)
    requires
        jmp_post(pre, post, bus, AddressingMode::Indirect, 0xFF, high, cycles),
    ensures
        post.program_counter == spec_pack(
            bus_spec_read(bus, spec_pack(0xFF, high)),
            bus_spec_read(bus, spec_pack(0x00, high)),
        ),
{
    assert(indirect_high_addr(spec_pack(0xFF, high)) == spec_pack(0x00, high));
}

/// A call bracketed at once by its return is a net no-op on control state:
/// after `JSR $hhll` and then `RTS` against the bus the call produced, the
/// program counter is back at the address following the call instruction
/// and the stack pointer is exactly where it started.
pub proof fn lemma_jsr_rts_round_trip(
    cpu0: CPU,
    bus0: Bus,
    cpu1: CPU,
    bus1: Bus,
    cpu2: CPU,
    low: u8,
    high: u8,
    c1: u8,
    c2: u8,
)
    requires
        bus_wf(bus0),
        jsr_post(cpu0, cpu1, bus0, bus1, low, high, c1),
        rts_post(cpu1, cpu2, bus1, c2),
    ensures
        cpu2.program_counter == cpu0.program_counter,
        cpu2.stack_pointer == cpu0.stack_pointer,
        cpu2.accumulator == cpu0.accumulator,
        cpu2.x == cpu0.x,
        cpu2.y == cpu0.y,
        cpu2.processor_status == cpu0.processor_status,
{
    let ret = wrap16(cpu0.program_counter - 1);
    let i_hi = stack_index(cpu0.stack_pointer);
    let i_lo = stack_index(wrap8(cpu0.stack_pointer - 1));
    assert(i_hi != i_lo);

    // The two pops read back exactly the two pushed bytes.
    assert(wrap8(cpu1.stack_pointer + 1) == wrap8(cpu0.stack_pointer - 1));
    assert(wrap8(cpu1.stack_pointer + 2) == cpu0.stack_pointer);
    assert(ram_index(stack_addr(wrap8(cpu0.stack_pointer - 1))) == i_lo);
    assert(ram_index(stack_addr(cpu0.stack_pointer)) == i_hi);
    assert(bus_spec_read(bus1, stack_addr(wrap8(cpu1.stack_pointer + 1))) == lo_byte(ret));
    assert(bus_spec_read(bus1, stack_addr(wrap8(cpu1.stack_pointer + 2))) == hi_byte(ret));

    // Reassembling the bytes gives the pushed word, and the added one
    // undoes the subtracted one, modulo 65536.
    assert(spec_pack(lo_byte(ret), hi_byte(ret)) == ret);
    assert(cpu2.program_counter == wrap16(ret + 1));
    assert(wrap16(wrap16(cpu0.program_counter - 1) + 1) == cpu0.program_counter);
}

} // verus!

//! The conditional branches. A branch not taken costs 2 cycles; taken, 3;
//! taken onto another 256-byte page than the instruction-following
//! address, 4. The operand is a two's-complement displacement applied to
//! the program counter after it has already advanced past the instruction.

use super::{regs_same_except_pc, twos_compliment_to_signed, wrap16};
use crate::cpu::CPU;
use vstd::prelude::*;

verus! {

/// Where a taken branch lands: the displacement is the operand byte read
/// as two's complement.
pub open spec fn branch_target(pc: u16, low: u8) -> u16 {
    wrap16(
        pc + if low < 0x80 {
            low as int
        } else {
            low - 256
        },
    )
}

/// The cycle cost of a branch: two when not taken, three when taken on the
/// same page, four when the target sits on another page than the
/// instruction-following address.
pub open spec fn branch_cycles(pc: u16, low: u8, taken: bool) -> u8 {
    if !taken {
        2
    } else if branch_target(pc, low) / 256 != pc / 256 {
        4
    } else {
        3
    }
}

/// What every branch instruction does, given whether its condition held:
/// the program counter moves (or not), nothing else does, and the cycle
/// count follows the taken/page-crossing rule.
pub open spec fn branch_post(pre: CPU, post: CPU, low: u8, taken: bool, cycles: u8) -> bool {
    &&& post.program_counter == (if taken {
        branch_target(pre.program_counter, low)
    } else {
        pre.program_counter
    })
    &&& regs_same_except_pc(pre, post)
    &&& post.processor_status == pre.processor_status
    &&& cycles == branch_cycles(pre.program_counter, low, taken)
}

/// Executes a branch based on whether it needs a branch.
fn branch(cpu: &mut CPU, low_byte: u8, needs_branch: bool) -> (cycles: u8)
    ensures
        branch_post(*old(cpu), *final (cpu), low_byte, needs_branch, cycles),
{
    let original_page = cpu.program_counter / 256;

    if needs_branch {
        let displacement = twos_compliment_to_signed(low_byte);
        proof {
            super::lemma_wrapping_add_u16(cpu.program_counter, low_byte as u16);
            super::lemma_wrapping_sub_u16(
                vstd::wrapping::u16_specs::wrapping_add(cpu.program_counter, low_byte as u16),
                256,
            );
        }
        if displacement >= 0 {
            cpu.program_counter = cpu.program_counter.wrapping_add(low_byte as u16);
        } else {
            cpu.program_counter = cpu.program_counter.wrapping_add(low_byte as u16).wrapping_sub(
                256,
            );
        }
    }
    let new_page = cpu.program_counter / 256;
    let page_crossed = original_page != new_page;

    if needs_branch {
        if page_crossed {
            4
        } else {
            3
        }
    } else {
        2
    }
}

impl CPU {
    pub fn instruction_bcc(&mut self, low_byte: u8) -> (cycles: u8)
        ensures
            branch_post(
                *old(self),
                *final (self),
                low_byte,
                !old(self).processor_status.carry(),
                cycles,
            ),
    {
        let needs_branch = !self.processor_status.carry_flag();
        branch(self, low_byte, needs_branch)
    }

    pub fn instruction_bcs(&mut self, low_byte: u8) -> (cycles: u8)
        ensures
            branch_post(
                *old(self),
                *final (self),
                low_byte,
                old(self).processor_status.carry(),
                cycles,
            ),
    {
        let needs_branch = self.processor_status.carry_flag();
        branch(self, low_byte, needs_branch)
    }

    pub fn instruction_beq(&mut self, low_byte: u8) -> (cycles: u8)
        ensures
            branch_post(
                *old(self),
                *final (self),
                low_byte,
                old(self).processor_status.zero(),
                cycles,
            ),
    {
        let needs_branch = self.processor_status.zero_flag();
        branch(self, low_byte, needs_branch)
    }

    pub fn instruction_bmi(&mut self, low_byte: u8) -> (cycles: u8)
        ensures
            branch_post(
                *old(self),
                *final (self),
                low_byte,
                old(self).processor_status.negative(),
                cycles,
            ),
    {
        let needs_branch = self.processor_status.negative_flag();
        branch(self, low_byte, needs_branch)
    }

    pub fn instruction_bne(&mut self, low_byte: u8) -> (cycles: u8)
        ensures
            branch_post(
                *old(self),
                *final (self),
                low_byte,
                !old(self).processor_status.zero(),
                cycles,
            ),
    {
        let needs_branch = !self.processor_status.zero_flag();
        branch(self, low_byte, needs_branch)
    }

    pub fn instruction_bpl(&mut self, low_byte: u8) -> (cycles: u8)
        ensures
            branch_post(
                *old(self),
                *final (self),
                low_byte,
                !old(self).processor_status.negative(),
                cycles,
            ),
    {
        let needs_branch = !self.processor_status.negative_flag();
        branch(self, low_byte, needs_branch)
    }

    pub fn instruction_bvc(&mut self, low_byte: u8) -> (cycles: u8)
        ensures
            branch_post(
                *old(self),
                *final (self),
                low_byte,
                !old(self).processor_status.overflow(),
                cycles,
            ),
    {
        let needs_branch = !self.processor_status.overflow_flag();
        branch(self, low_byte, needs_branch)
    }

    pub fn instruction_bvs(&mut self, low_byte: u8) -> (cycles: u8)
        ensures
            branch_post(
                *old(self),
                *final (self),
                low_byte,
                old(self).processor_status.overflow(),
                cycles,
            ),
    {
        let needs_branch = self.processor_status.overflow_flag();
        branch(self, low_byte, needs_branch)
    }
}

/// The branch cycle rule on its own: a branch whose condition fails costs
/// 2 cycles; one taken within the page costs 3; one taken across a page
/// boundary, relative to the instruction-following address, costs 4.
pub proof fn lemma_branch_cycle_cost(pre: CPU, post: CPU, low: u8, taken: bool, cycles: u8)
    requires
        branch_post(pre, post, low, taken, cycles),
    ensures
        !taken ==> cycles == 2,
        taken && branch_target(pre.program_counter, low) / 256 == pre.program_counter / 256
            ==> cycles == 3,
        taken && branch_target(pre.program_counter, low) / 256 != pre.program_counter / 256
            ==> cycles == 4,
{
}

} // verus!

use nes_core::cartridge::Cartridge;
use nes_core::cpu::instruction::DecodeError;
use nes_core::ines::Ines;
use nes_core::Session;

fn session_with_program(program: Vec<u8>) -> Session {
    let mut rom = Ines::default();
    for (i, byte) in program.into_iter().enumerate() {
        rom.program_rom[i] = byte;
    }
    let mut session = Session::new(Cartridge::new(rom).unwrap());
    session.initialize_test_mode(0x8000);
    session
}

#[test]
fn jsr_then_rts_is_a_net_no_op_on_pc_and_stack() {
    // JSR $8005 at 0x8000, RTS at 0x8005: after both, the program
    // counter sits at the byte following the JSR and the stack pointer
    // is back where it started.
    let mut session = session_with_program(vec![0x20, 0x05, 0x80, 0xEA, 0xEA, 0x60]);
    let sp_before = session.cpu.stack_pointer;

    let jsr_cycles = session.clock_cpu().unwrap();
    assert_eq!(jsr_cycles, 6);
    assert_eq!(session.cpu.program_counter, 0x8005);

    let rts_cycles = session.clock_cpu().unwrap();
    assert_eq!(rts_cycles, 6);
    assert_eq!(session.cpu.program_counter, 0x8003);
    assert_eq!(session.cpu.stack_pointer, sp_before);
}

#[test]
fn branch_not_taken_costs_two_cycles() {
    // LDA #$01 clears zero, so BEQ falls through in two cycles.
    let mut session = session_with_program(vec![0xA9, 0x01, 0xF0, 0x10]);
    session.clock_cpu().unwrap();

    let cycles = session.clock_cpu().unwrap();
    assert_eq!(cycles, 2);
    assert_eq!(session.cpu.program_counter, 0x8004);
}

#[test]
fn branch_taken_same_page_costs_three_cycles() {
    // LDA #$00 sets zero; BEQ +0x10 stays on the page: three cycles.
    let mut session = session_with_program(vec![0xA9, 0x00, 0xF0, 0x10]);
    session.clock_cpu().unwrap();

    let cycles = session.clock_cpu().unwrap();
    assert_eq!(cycles, 3);
    assert_eq!(session.cpu.program_counter, 0x8014);
}

#[test]
fn branch_taken_across_page_costs_four_cycles() {
    // The same taken BEQ placed so that target and following address
    // straddle a 256-byte boundary: four cycles.
    let mut rom = Ines::default();
    let base = 0x00F8;
    for (i, byte) in [0xA9u8, 0x00, 0xF0, 0x10].into_iter().enumerate() {
        rom.program_rom[base + i] = byte;
    }
    let mut session = Session::new(Cartridge::new(rom).unwrap());
    session.initialize_test_mode(0x80F8);
    session.clock_cpu().unwrap();

    let cycles = session.clock_cpu().unwrap();
    assert_eq!(cycles, 4);
    assert_eq!(session.cpu.program_counter, 0x810C);
}

#[test]
fn branch_backwards_takes_negative_displacement() {
    // LDA #$00 at 0x8000, BEQ -4 at 0x8002: the branch lands back at
    // 0x8000.
    let mut session = session_with_program(vec![0xA9, 0x00, 0xF0, 0xFC]);
    session.clock_cpu().unwrap();
    session.clock_cpu().unwrap();
    assert_eq!(session.cpu.program_counter, 0x8000);
}

#[test]
fn indirect_jmp_reads_high_byte_from_same_page() {
    // A vector at $02FF: the low byte comes from $02FF, the high byte
    // from $0200 - not from $0300, which holds a decoy.
    let mut session = session_with_program(vec![0x6C, 0xFF, 0x02]);
    session.bus.write(0x02FF, 0x34);
    session.bus.write(0x0200, 0x12);
    session.bus.write(0x0300, 0x99);

    let cycles = session.clock_cpu().unwrap();
    assert_eq!(cycles, 5);
    assert_eq!(session.cpu.program_counter, 0x1234);
}

#[test]
fn absolute_jmp_takes_the_operand() {
    let mut session = session_with_program(vec![0x4C, 0x21, 0x43]);
    let cycles = session.clock_cpu().unwrap();
    assert_eq!(cycles, 3);
    assert_eq!(session.cpu.program_counter, 0x4321);
}

#[test]
fn brk_enters_through_the_interrupt_vector() {
    let mut session = session_with_program(vec![0x00]);
    session.bus.write(0xFFFE, 0x00);
    session.bus.write(0xFFFF, 0x90);
    let sp_before = session.cpu.stack_pointer;

    let cycles = session.clock_cpu().unwrap();
    assert_eq!(cycles, 7);
    assert_eq!(session.cpu.program_counter, 0x9000);
    assert!(session.cpu.processor_status.break_flag());
    assert_eq!(session.cpu.stack_pointer, sp_before.wrapping_sub(3));
}

#[test]
fn rti_restores_status_and_position() {
    // BRK jumps to 0x9000 where RTI sits; the return restores the
    // pushed program counter, and the break bit seen after the return is
    // the live one, not the pushed copy.
    let mut rom = Ines::default();
    rom.program_rom[0] = 0x00;
    rom.program_rom[0x1000] = 0x40;
    let mut session = Session::new(Cartridge::new(rom).unwrap());
    session.initialize_test_mode(0x8000);
    session.bus.write(0xFFFE, 0x00);
    session.bus.write(0xFFFF, 0x90);

    session.clock_cpu().unwrap();
    let cycles = session.clock_cpu().unwrap();

    assert_eq!(cycles, 6);
    assert_eq!(session.cpu.program_counter, 0x8001);
}

#[test]
fn nmi_wins_and_is_consumed() {
    let mut session = session_with_program(vec![0xEA]);
    session.bus.write(0xFFFA, 0x00);
    session.bus.write(0xFFFB, 0xA0);
    session.interrupts.set_non_maskable_interrupt_state(true);
    session.interrupts.set_interrupt_state(true);

    let cycles = session.clock_cpu().unwrap();
    assert_eq!(cycles, 7);
    assert_eq!(session.cpu.program_counter, 0xA000);
    assert!(session.cpu.processor_status.interrupt_disable_flag());
    assert!(!session.interrupts.non_maskable_interrupt_state());
    assert!(session.interrupts.interrupt_state());
}

#[test]
fn masked_irq_does_not_enter() {
    // Reset leaves interrupt disable set, so a pending maskable request
    // is ignored and the next instruction runs instead.
    let mut session = session_with_program(vec![0xEA]);
    session.interrupts.set_interrupt_state(true);

    let cycles = session.clock_cpu().unwrap();
    assert_eq!(cycles, 2);
    assert_eq!(session.cpu.program_counter, 0x8001);
}

#[test]
fn irq_enters_once_interrupts_are_enabled() {
    // CLI first, then the pending maskable request takes the vector.
    let mut session = session_with_program(vec![0x58, 0xEA]);
    session.bus.write(0xFFFE, 0x00);
    session.bus.write(0xFFFF, 0xB0);
    session.interrupts.set_interrupt_state(true);

    session.clock_cpu().unwrap();
    let cycles = session.clock_cpu().unwrap();

    assert_eq!(cycles, 7);
    assert_eq!(session.cpu.program_counter, 0xB000);
    assert!(session.interrupts.interrupt_state());
}

#[test]
fn illegal_opcode_is_reported_not_skipped() {
    let mut session = session_with_program(vec![0x02]);
    let pc_before = session.cpu.program_counter;

    let r = session.clock_cpu();
    assert_eq!(r, Err(DecodeError::IllegalOpcode));
    assert_eq!(session.cpu.program_counter, pc_before);
}

#[test]
fn step_ticks_the_bus_with_the_clock_divisor() {
    // One two-cycle instruction moves the machine-cycle counter by
    // twenty-four.
    let mut session = session_with_program(vec![0xEA]);
    let counter_before = session.bus.current_machine_cycles;

    let cycles = session.step().unwrap();
    assert_eq!(cycles, 2);
    assert_eq!(
        session.bus.current_machine_cycles,
        counter_before.wrapping_add(24)
    );
}

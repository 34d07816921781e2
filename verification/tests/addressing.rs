use nes_core::cartridge::Cartridge;
use nes_core::ines::Ines;
use nes_core::Session;

fn session_with_program(program: Vec<u8>) -> Session {
    let mut rom = Ines::default();
    for (i, byte) in program.into_iter().enumerate() {
        rom.program_rom[i] = byte;
    }
    let mut session = Session::new(Cartridge::new(rom).unwrap());
    session.initialize_test_mode(0x8000);
    session
}

#[test]
fn zeropage_indexed_wraps_within_page_zero() {
    // LDX #$FF, LDA $80,X: the index wraps inside page zero, so the
    // load reads $007F, never $017F.
    let mut session = session_with_program(vec![0xA2, 0xFF, 0xB5, 0x80]);
    session.bus.write(0x007F, 0x42);
    session.bus.write(0x017F, 0x99);

    session.clock_cpu().unwrap();
    session.clock_cpu().unwrap();

    assert_eq!(session.cpu.accumulator, 0x42);
}

#[test]
fn indexed_indirect_dereferences_a_zero_page_pointer() {
    // LDX #$04, LDA ($10,X): the pointer sits at $14/$15 and names
    // $0300.
    let mut session = session_with_program(vec![0xA2, 0x04, 0xA1, 0x10]);
    session.bus.write(0x0014, 0x00);
    session.bus.write(0x0015, 0x03);
    session.bus.write(0x0300, 0x5A);

    session.clock_cpu().unwrap();
    let cycles = session.clock_cpu().unwrap();

    assert_eq!(cycles, 6);
    assert_eq!(session.cpu.accumulator, 0x5A);
}

#[test]
fn indexed_indirect_pointer_wraps_within_page_zero() {
    // LDX #$FF, LDA ($00,X): the pointer's low half comes from $00FF
    // and its high half wraps back to $0000.
    let mut session = session_with_program(vec![0xA2, 0xFF, 0xA1, 0x00]);
    session.bus.write(0x00FF, 0x20);
    session.bus.write(0x0000, 0x03);
    session.bus.write(0x0320, 0x77);

    session.clock_cpu().unwrap();
    session.clock_cpu().unwrap();

    assert_eq!(session.cpu.accumulator, 0x77);
}

#[test]
fn indirect_indexed_pays_the_crossing_cycle() {
    // LDY #$01, LDA ($10),Y with the pointer naming $02FF: indexing
    // crosses onto the next page, six cycles.
    let mut session = session_with_program(vec![0xA0, 0x01, 0xB1, 0x10]);
    session.bus.write(0x0010, 0xFF);
    session.bus.write(0x0011, 0x02);
    session.bus.write(0x0300, 0x66);

    session.clock_cpu().unwrap();
    let cycles = session.clock_cpu().unwrap();

    assert_eq!(cycles, 6);
    assert_eq!(session.cpu.accumulator, 0x66);

    // The same shape without a crossing costs five.
    let mut session = session_with_program(vec![0xA0, 0x01, 0xB1, 0x10]);
    session.bus.write(0x0010, 0x10);
    session.bus.write(0x0011, 0x02);
    session.bus.write(0x0211, 0x55);

    session.clock_cpu().unwrap();
    let cycles = session.clock_cpu().unwrap();

    assert_eq!(cycles, 5);
    assert_eq!(session.cpu.accumulator, 0x55);
}

#[test]
fn logical_operators_combine_with_the_accumulator() {
    // LDA #$CC, AND #$0F.
    let session = {
        let mut s = session_with_program(vec![0xA9, 0xCC, 0x29, 0x0F]);
        s.clock_cpu().unwrap();
        s.clock_cpu().unwrap();
        s
    };
    assert_eq!(session.cpu.accumulator, 0x0C);
    assert!(!session.cpu.processor_status.zero_flag());
    assert!(!session.cpu.processor_status.negative_flag());

    // LDA #$C0, ORA #$03.
    let session = {
        let mut s = session_with_program(vec![0xA9, 0xC0, 0x09, 0x03]);
        s.clock_cpu().unwrap();
        s.clock_cpu().unwrap();
        s
    };
    assert_eq!(session.cpu.accumulator, 0xC3);
    assert!(session.cpu.processor_status.negative_flag());

    // LDA #$FF, EOR #$FF leaves zero.
    let session = {
        let mut s = session_with_program(vec![0xA9, 0xFF, 0x49, 0xFF]);
        s.clock_cpu().unwrap();
        s.clock_cpu().unwrap();
        s
    };
    assert_eq!(session.cpu.accumulator, 0x00);
    assert!(session.cpu.processor_status.zero_flag());
}

#[test]
fn stores_deliver_registers_without_touching_flags() {
    // LDA #$3C, STA $0234, then LDX #$77, LDY #$02, STX $10,Y.
    let mut session = session_with_program(vec![
        0xA9, 0x3C, 0x8D, 0x34, 0x02, 0xA2, 0x77, 0xA0, 0x02, 0x96, 0x10,
    ]);
    for _ in 0..5 {
        session.clock_cpu().unwrap();
    }

    assert_eq!(session.bus.read(0x0234), 0x3C);
    assert_eq!(session.bus.read(0x0012), 0x77);
    assert_eq!(session.cpu.accumulator, 0x3C);
    assert_eq!(session.cpu.x, 0x77);
}

#[test]
fn transfers_move_bytes_and_flags() {
    // LDA #$C0, TAX, TAY: both index registers take the byte and the
    // negative flag follows it.
    let mut session = session_with_program(vec![0xA9, 0xC0, 0xAA, 0xA8]);
    for _ in 0..3 {
        session.clock_cpu().unwrap();
    }
    assert_eq!(session.cpu.x, 0xC0);
    assert_eq!(session.cpu.y, 0xC0);
    assert!(session.cpu.processor_status.negative_flag());

    // TSX copies the fresh stack pointer and reports it negative.
    let mut session = session_with_program(vec![0xBA]);
    session.clock_cpu().unwrap();
    assert_eq!(session.cpu.x, 0xFF);
    assert!(session.cpu.processor_status.negative_flag());

    // TXS moves X into the pointer without touching any flag.
    let mut session = session_with_program(vec![0xA2, 0x20, 0x9A]);
    session.clock_cpu().unwrap();
    session.clock_cpu().unwrap();
    assert_eq!(session.cpu.stack_pointer, 0x20);
    assert!(!session.cpu.processor_status.negative_flag());
    assert!(!session.cpu.processor_status.zero_flag());
}

#[test]
fn index_compares_use_their_own_registers() {
    // LDX #$05, CPX #$05: equal.
    let mut session = session_with_program(vec![0xA2, 0x05, 0xE0, 0x05]);
    session.clock_cpu().unwrap();
    session.clock_cpu().unwrap();
    assert!(session.cpu.processor_status.zero_flag());
    assert!(session.cpu.processor_status.carry_flag());

    // LDY #$01, CPY #$02: below.
    let mut session = session_with_program(vec![0xA0, 0x01, 0xC0, 0x02]);
    session.clock_cpu().unwrap();
    session.clock_cpu().unwrap();
    assert!(!session.cpu.processor_status.zero_flag());
    assert!(!session.cpu.processor_status.carry_flag());
}

#[test]
fn decimal_and_overflow_flags_answer_their_instructions() {
    // SED sets decimal, CLD clears it again.
    let mut session = session_with_program(vec![0xF8, 0xD8]);
    session.clock_cpu().unwrap();
    assert!(session.cpu.processor_status.decimal_flag());
    session.clock_cpu().unwrap();
    assert!(!session.cpu.processor_status.decimal_flag());

    // An overflowing addition sets V; CLV clears it.
    let mut session = session_with_program(vec![0xA9, 0x50, 0x69, 0x50, 0xB8]);
    for _ in 0..3 {
        session.clock_cpu().unwrap();
    }
    assert!(!session.cpu.processor_status.overflow_flag());
}

#[test]
fn shift_on_memory_writes_the_result_back() {
    // LDA #$C0, STA $20, ASL $20: the cell doubles to 0x80 with the old
    // top bit in carry, in five cycles.
    let mut session = session_with_program(vec![0xA9, 0xC0, 0x85, 0x20, 0x06, 0x20]);
    session.clock_cpu().unwrap();
    session.clock_cpu().unwrap();
    let cycles = session.clock_cpu().unwrap();

    assert_eq!(cycles, 5);
    assert_eq!(session.bus.read(0x0020), 0x80);
    assert!(session.cpu.processor_status.carry_flag());
    assert!(session.cpu.processor_status.negative_flag());

    // DEC $20 steps it back down.
    let mut session = session_with_program(vec![0xA9, 0x01, 0x85, 0x20, 0xC6, 0x20]);
    for _ in 0..3 {
        session.clock_cpu().unwrap();
    }
    assert_eq!(session.bus.read(0x0020), 0x00);
    assert!(session.cpu.processor_status.zero_flag());
}

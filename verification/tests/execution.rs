use nes_core::cartridge::Cartridge;
use nes_core::cpu::instruction::execution::twos_compliment_to_signed;
use nes_core::ines::Ines;
use nes_core::Session;

fn create_cartridge(program: Vec<u8>) -> Cartridge {
    let mut rom = Ines::default();

    for (i, byte) in program.into_iter().enumerate() {
        rom.program_rom[i] = byte;
    }

    Cartridge::new(rom).unwrap()
}

/// Creates and initializes a system, loads the program into memory, and
/// begins to execute it. Returns the session so that we can inspect the state.
fn simulate_execution(instruction_count: usize, program: Vec<u8>) -> Session {
    let cartridge = create_cartridge(program);
    let mut session = Session::new(cartridge);
    session.initialize_test_mode(0x8000);

    for _ in 0..instruction_count {
        session.clock_cpu().unwrap();
    }

    session
}

#[test]
fn test_twos_compliment_to_signed() {
    let neg_52 = 0b11001100;
    assert_eq!(-52, twos_compliment_to_signed(neg_52));

    let pos_52 = 0b00110100;
    assert_eq!(52, twos_compliment_to_signed(pos_52));

    let zero = 0;
    assert_eq!(0, twos_compliment_to_signed(zero));

    let neg_128 = 0b1000_0000;
    assert_eq!(-128, twos_compliment_to_signed(neg_128));
}

#[test]
fn execution_test_lda() {
    // program:
    // LDA #$55
    // LDA $44
    // LDA $33,X
    // LDA $0122
    // LDA $0111,X
    // LDA $0299,Y
    // LDA ($03,X)
    // LDA ($02),Y
}

// not fully tested
#[test]
fn execution_test_ldx() {
    // program:
    // LDX #$55
    let instruction_count = 1;
    let program = vec![0xA2, 0x55];

    let session = simulate_execution(instruction_count, program);

    assert_eq!(session.cpu.x, 0x55);
}

#[test]
fn mod_test_lda() {
    // program:
    // LDA #$55
    // LDA $44
    // LDA $33,X
    // LDA $0122
    // LDA $0111,X
    // LDA $0299,Y
    // LDA ($03,X)
    // LDA ($02),Y
}

// not fully tested
#[test]
fn mod_test_ldx() {
    // program:
    // LDX #$55
    let instruction_count = 1;
    let program = vec![0xA2, 0x55];

    let session = simulate_execution(instruction_count, program);

    assert_eq!(session.cpu.x, 0x55);
}

#[test]
fn fresh_reset_ldx_takes_two_cycles() {
    // LDX #$55 on a freshly reset CPU: X takes the value, zero and
    // negative stay clear, and exactly two cycles elapse.
    let cartridge = create_cartridge(vec![0xA2, 0x55]);
    let mut session = Session::new(cartridge);
    session.initialize_test_mode(0x8000);

    let cycles = session.clock_cpu().unwrap();

    assert_eq!(cycles, 2);
    assert_eq!(session.cpu.x, 0x55);
    assert!(!session.cpu.processor_status.zero_flag());
    assert!(!session.cpu.processor_status.negative_flag());
}

#[test]
fn lda_sets_zero_and_negative_from_value() {
    // LDA #$00 then LDA #$80: zero iff the value is zero, negative iff
    // bit 7 is set.
    let session = simulate_execution(1, vec![0xA9, 0x00]);
    assert_eq!(session.cpu.accumulator, 0x00);
    assert!(session.cpu.processor_status.zero_flag());
    assert!(!session.cpu.processor_status.negative_flag());

    let session = simulate_execution(1, vec![0xA9, 0x80]);
    assert_eq!(session.cpu.accumulator, 0x80);
    assert!(!session.cpu.processor_status.zero_flag());
    assert!(session.cpu.processor_status.negative_flag());
}

#[test]
fn adc_signed_overflow_from_two_positives() {
    // A=0x50 plus operand 0x50 with carry in clear: result 0xA0, no
    // carry out, signed overflow, negative, not zero.
    let session = simulate_execution(2, vec![0xA9, 0x50, 0x69, 0x50]);

    assert_eq!(session.cpu.accumulator, 0xA0);
    assert!(!session.cpu.processor_status.carry_flag());
    assert!(session.cpu.processor_status.overflow_flag());
    assert!(session.cpu.processor_status.negative_flag());
    assert!(!session.cpu.processor_status.zero_flag());
}

#[test]
fn adc_carry_out_and_zero() {
    // LDA #$FF, SEC, ADC #$00: 0xFF + 0 + 1 wraps to 0x00 with carry out.
    let session = simulate_execution(3, vec![0xA9, 0xFF, 0x38, 0x69, 0x00]);

    assert_eq!(session.cpu.accumulator, 0x00);
    assert!(session.cpu.processor_status.carry_flag());
    assert!(session.cpu.processor_status.zero_flag());
    assert!(!session.cpu.processor_status.overflow_flag());
}

#[test]
fn sbc_subtracts_with_borrow_discipline() {
    // LDA #$50, SEC, SBC #$10: 0x40, carry still set (no borrow).
    let session = simulate_execution(3, vec![0xA9, 0x50, 0x38, 0xE9, 0x10]);

    assert_eq!(session.cpu.accumulator, 0x40);
    assert!(session.cpu.processor_status.carry_flag());
    assert!(!session.cpu.processor_status.overflow_flag());
}

#[test]
fn cmp_orders_unsigned() {
    // LDA #$20, CMP #$10: carry set (register at least operand), not
    // zero, negative clear (difference 0x10).
    let session = simulate_execution(2, vec![0xA9, 0x20, 0xC9, 0x10]);
    assert!(session.cpu.processor_status.carry_flag());
    assert!(!session.cpu.processor_status.zero_flag());
    assert!(!session.cpu.processor_status.negative_flag());

    // LDA #$10, CMP #$20: carry clear, difference 0xF0 looks negative.
    let session = simulate_execution(2, vec![0xA9, 0x10, 0xC9, 0x20]);
    assert!(!session.cpu.processor_status.carry_flag());
    assert!(!session.cpu.processor_status.zero_flag());
    assert!(session.cpu.processor_status.negative_flag());

    // Equal operands: carry and zero both set.
    let session = simulate_execution(2, vec![0xA9, 0x33, 0xC9, 0x33]);
    assert!(session.cpu.processor_status.carry_flag());
    assert!(session.cpu.processor_status.zero_flag());
}

#[test]
fn lsr_moves_bit_zero_into_carry() {
    // LDA #$81, LSR A: result 0x40, carry takes the ejected bit, the
    // vacated bit 7 leaves negative clear.
    let session = simulate_execution(2, vec![0xA9, 0x81, 0x4A]);

    assert_eq!(session.cpu.accumulator, 0x40);
    assert!(session.cpu.processor_status.carry_flag());
    assert!(!session.cpu.processor_status.negative_flag());
    assert!(!session.cpu.processor_status.zero_flag());
}

#[test]
fn rol_shifts_carry_into_bit_zero() {
    // LDA #$80, SEC, ROL A: the old carry enters bit 0 while the old
    // bit 7 leaves into carry: accumulator 0x01, carry set.
    let session = simulate_execution(3, vec![0xA9, 0x80, 0x38, 0x2A]);

    assert_eq!(session.cpu.accumulator, 0x01);
    assert!(session.cpu.processor_status.carry_flag());
}

#[test]
fn ror_shifts_carry_into_bit_seven() {
    // LDA #$01, SEC, ROR A: accumulator 0x80, carry set, negative set.
    let session = simulate_execution(3, vec![0xA9, 0x01, 0x38, 0x6A]);

    assert_eq!(session.cpu.accumulator, 0x80);
    assert!(session.cpu.processor_status.carry_flag());
    assert!(session.cpu.processor_status.negative_flag());
}

#[test]
fn inc_memory_wraps_and_sets_negative() {
    // LDA #$7F, STA $10, INC $10: the cell holds 0x80 and the increment
    // reports it negative.
    let mut session = simulate_execution(3, vec![0xA9, 0x7F, 0x85, 0x10, 0xE6, 0x10]);

    assert_eq!(session.bus.read(0x0010), 0x80);
    assert!(session.cpu.processor_status.negative_flag());
    assert!(!session.cpu.processor_status.zero_flag());

    // DEX from zero wraps to 0xFF.
    session = simulate_execution(1, vec![0xCA]);
    assert_eq!(session.cpu.x, 0xFF);
    assert!(session.cpu.processor_status.negative_flag());
}

#[test]
fn bit_copies_operand_bits_into_flags() {
    // Store 0xC0 at $10, load 0x0F, BIT $10: zero set (no common bits),
    // negative from bit 7, overflow from bit 6.
    let session = simulate_execution(
        4,
        vec![0xA9, 0xC0, 0x85, 0x10, 0xA9, 0x0F, 0x24, 0x10],
    );

    assert!(session.cpu.processor_status.zero_flag());
    assert!(session.cpu.processor_status.negative_flag());
    assert!(session.cpu.processor_status.overflow_flag());
    assert_eq!(session.cpu.accumulator, 0x0F);
}

#[test]
fn stack_pointer_wraps_silently_on_push() {
    // LDX #$00, TXS, PHA: pushing with the pointer at 0x00 lands the
    // byte at 0x0100 and wraps the pointer to 0xFF rather than failing.
    let mut session = simulate_execution(
        4,
        vec![0xA9, 0x77, 0xA2, 0x00, 0x9A, 0x48],
    );

    assert_eq!(session.cpu.stack_pointer, 0xFF);
    assert_eq!(session.bus.read(0x0100), 0x77);
}

#[test]
fn pla_pulls_and_sets_flags() {
    // LDA #$80, PHA, LDA #$01, PLA: the accumulator gets 0x80 back and
    // negative follows it.
    let session = simulate_execution(4, vec![0xA9, 0x80, 0x48, 0xA9, 0x01, 0x68]);

    assert_eq!(session.cpu.accumulator, 0x80);
    assert!(session.cpu.processor_status.negative_flag());
    assert!(!session.cpu.processor_status.zero_flag());
}

#[test]
fn php_sets_stored_break_copy_only() {
    // SEC, PHP: the pushed byte carries carry and the break copy, while
    // the live break flag stays clear.
    let mut session = simulate_execution(2, vec![0x38, 0x08]);

    let pushed = session.bus.read(0x01FF);
    assert_eq!(pushed & 0x10, 0x10);
    assert_eq!(pushed & 0x01, 0x01);
    assert!(!session.cpu.processor_status.break_flag());
}

#[test]
fn indexed_loads_pay_the_page_crossing_cycle() {
    // LDX #$01 then LDA $80FF,X: the effective address 0x8100 sits on
    // another page than the base, so the load costs five cycles.
    let cartridge = create_cartridge(vec![0xA2, 0x01, 0xBD, 0xFF, 0x80]);
    let mut session = Session::new(cartridge);
    session.initialize_test_mode(0x8000);
    session.clock_cpu().unwrap();
    let crossing = session.clock_cpu().unwrap();
    assert_eq!(crossing, 5);

    // Without the index crossing the page the same load costs four.
    let cartridge = create_cartridge(vec![0xA2, 0x01, 0xBD, 0x00, 0x80]);
    let mut session = Session::new(cartridge);
    session.initialize_test_mode(0x8000);
    session.clock_cpu().unwrap();
    let same_page = session.clock_cpu().unwrap();
    assert_eq!(same_page, 4);
}

use nes_core::cpu::processor_status::ProcessorStatus;

#[test]
fn test_carry() {
    let mut flag_reg = ProcessorStatus::new();
    assert!(!flag_reg.carry_flag());

    flag_reg.set_carry_flag();
    assert!(flag_reg.carry_flag());

    flag_reg.clear_carry_flag();

    assert!(!flag_reg.carry_flag());
}

#[test]
fn test_zero() {
    let mut flag_reg = ProcessorStatus::new();
    assert!(!flag_reg.zero_flag());

    flag_reg.set_zero_flag();
    assert!(flag_reg.zero_flag());

    flag_reg.clear_zero_flag();

    assert!(!flag_reg.zero_flag());
}

#[test]
fn test_interrupt_disable() {
    let mut flag_reg = ProcessorStatus::new();
    assert!(!flag_reg.interrupt_disable_flag());

    flag_reg.set_interrupt_disable_flag();
    assert!(flag_reg.interrupt_disable_flag());

    flag_reg.clear_interrupt_disable_flag();
    assert!(!flag_reg.interrupt_disable_flag());
}

#[test]
fn test_decimal() {
    let mut flag_reg = ProcessorStatus::new();
    assert!(!flag_reg.decimal_flag());

    flag_reg.set_decimal_flag();
    assert!(flag_reg.decimal_flag());

    flag_reg.clear_decimal_flag();
    assert!(!flag_reg.decimal_flag());
}

#[test]
fn test_overflow() {
    let mut flag_reg = ProcessorStatus::new();
    assert!(!flag_reg.overflow_flag());

    flag_reg.set_overflow_flag();
    assert!(flag_reg.overflow_flag());

    flag_reg.clear_overflow_flag();
    assert!(!flag_reg.overflow_flag());
}

#[test]
fn test_neg() {
    let mut flag_reg = ProcessorStatus::new();
    assert!(!flag_reg.negative_flag());

    flag_reg.set_negative_flag();
    assert!(flag_reg.negative_flag());

    flag_reg.clear_negative_flag();
    assert!(!flag_reg.negative_flag());
}

#[test]
fn test_break_and_bit_5() {
    let mut flag_reg = ProcessorStatus::new();
    assert!(!flag_reg.break_flag());
    assert!(!flag_reg.bit_5_flag());

    flag_reg.set_break_flag();
    flag_reg.set_bit_5_flag();
    assert!(flag_reg.break_flag());
    assert!(flag_reg.bit_5_flag());
    assert_eq!(flag_reg.0, 0b0011_0000);

    flag_reg.clear_break_flag();
    flag_reg.clear_bit_5_flag();
    assert!(!flag_reg.break_flag());
    assert!(!flag_reg.bit_5_flag());
    assert_eq!(flag_reg.0, 0);
}

#[test]
fn test_set_leaves_other_flags_alone() {
    let mut flag_reg = ProcessorStatus::new();
    flag_reg.set_carry_flag();
    flag_reg.set_negative_flag();
    flag_reg.set_interrupt_disable_flag();

    flag_reg.clear_negative_flag();

    assert!(flag_reg.carry_flag());
    assert!(flag_reg.interrupt_disable_flag());
    assert!(!flag_reg.negative_flag());
    assert_eq!(flag_reg.0, 0b0000_0101);
}

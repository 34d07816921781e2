use nes_core::apu::Apu;
use nes_core::cpu::instruction::{AddressingMode, DecodeError, FullOpcode, Opcode};
use nes_core::cpu::InterruptsContainer;
use nes_core::ppu::{Ppu, PpuStatus};

#[test]
fn bytes_required_follows_the_mode() {
    assert_eq!(AddressingMode::Implied.bytes_required(), 1);
    assert_eq!(AddressingMode::Accumulator.bytes_required(), 1);
    assert_eq!(AddressingMode::Immediate.bytes_required(), 2);
    assert_eq!(AddressingMode::Relative.bytes_required(), 2);
    assert_eq!(AddressingMode::Zeropage.bytes_required(), 2);
    assert_eq!(AddressingMode::ZeropageXIndexed.bytes_required(), 2);
    assert_eq!(AddressingMode::ZeropageYIndexed.bytes_required(), 2);
    assert_eq!(AddressingMode::IndirectXIndexed.bytes_required(), 2);
    assert_eq!(AddressingMode::IndirectYIndexed.bytes_required(), 2);
    assert_eq!(AddressingMode::Absolute.bytes_required(), 3);
    assert_eq!(AddressingMode::AbsoluteXIndexed.bytes_required(), 3);
    assert_eq!(AddressingMode::AbsoluteYIndexed.bytes_required(), 3);
    assert_eq!(AddressingMode::Indirect.bytes_required(), 3);
}

#[test]
fn decode_finds_documented_instructions() {
    let fo = |opcode, addressing_mode| FullOpcode { opcode, addressing_mode };

    assert_eq!(FullOpcode::new(0x00), Ok(fo(Opcode::BRK, AddressingMode::Implied)));
    assert_eq!(FullOpcode::new(0xA2), Ok(fo(Opcode::LDX, AddressingMode::Immediate)));
    assert_eq!(FullOpcode::new(0xA9), Ok(fo(Opcode::LDA, AddressingMode::Immediate)));
    assert_eq!(FullOpcode::new(0xB1), Ok(fo(Opcode::LDA, AddressingMode::IndirectYIndexed)));
    assert_eq!(FullOpcode::new(0x0A), Ok(fo(Opcode::ASL, AddressingMode::Accumulator)));
    assert_eq!(FullOpcode::new(0x6C), Ok(fo(Opcode::JMP, AddressingMode::Indirect)));
    assert_eq!(FullOpcode::new(0x20), Ok(fo(Opcode::JSR, AddressingMode::Absolute)));
    assert_eq!(FullOpcode::new(0x96), Ok(fo(Opcode::STX, AddressingMode::ZeropageYIndexed)));
    assert_eq!(FullOpcode::new(0xB6), Ok(fo(Opcode::LDX, AddressingMode::ZeropageYIndexed)));
    assert_eq!(FullOpcode::new(0xF0), Ok(fo(Opcode::BEQ, AddressingMode::Relative)));
    assert_eq!(FullOpcode::new(0xEA), Ok(fo(Opcode::NOP, AddressingMode::Implied)));
    assert_eq!(FullOpcode::new(0xFE), Ok(fo(Opcode::INC, AddressingMode::AbsoluteXIndexed)));
}

#[test]
fn decode_reports_undocumented_bytes() {
    for byte in [0x02u8, 0x03, 0x07, 0x0B, 0x0F, 0x44, 0x80, 0x9E, 0xFF] {
        assert_eq!(FullOpcode::new(byte), Err(DecodeError::IllegalOpcode));
    }
}

#[test]
fn decode_is_total_over_all_bytes() {
    // Every byte either decodes to a documented pairing or is reported;
    // nothing panics and the documented count is exactly 151.
    let mut documented = 0;
    for byte in 0..=255u8 {
        if FullOpcode::new(byte).is_ok() {
            documented += 1;
        }
    }
    assert_eq!(documented, 151);
}

#[test]
fn ppu_status_reads_its_named_fields() {
    let status = PpuStatus(0b1010_1110);
    assert_eq!(status.base_nametable_address_code(), 2);
    assert_eq!(status.vram_address_increment(), 1);
    assert_eq!(status.sprite_pattern_table_address(), 1);
    assert_eq!(status.background_pattern_table_address(), 0);
    assert_eq!(status.sprite_size(), 1);
    assert_eq!(status.master_slave_select(), 0);
    assert_eq!(status.generate_nmi_on_blanking(), 1);

    let zeroed = PpuStatus::new();
    assert_eq!(zeroed.base_nametable_address_code(), 0);
    assert_eq!(zeroed.generate_nmi_on_blanking(), 0);
}

#[test]
fn ppu_exposes_raw_registers_and_initialization() {
    let mut ppu = Ppu::new();
    assert!(!ppu.initialized());
    assert_eq!(ppu.registers.len(), 8);
    assert_eq!(ppu.read_ppu_status(), 0);
    assert_eq!(ppu.read_oam_data(), 0);

    ppu.initialize();
    assert!(ppu.initialized());

    ppu.write_ppu_ctrl();
    ppu.clock();
    assert_eq!(ppu.registers, vec![0; 8]);
}

#[test]
fn apu_initializes_once_asked() {
    let mut apu = Apu::new();
    assert!(!apu.initialized());
    apu.initialize();
    assert!(apu.initialized());
}

#[test]
fn interrupt_lines_hold_their_state() {
    let mut lines = InterruptsContainer::new();
    assert!(!lines.interrupt_state());
    assert!(!lines.non_maskable_interrupt_state());

    lines.set_interrupt_state(true);
    assert!(lines.interrupt_state());
    assert!(!lines.non_maskable_interrupt_state());

    lines.set_non_maskable_interrupt_state(true);
    lines.set_interrupt_state(false);
    assert!(!lines.interrupt_state());
    assert!(lines.non_maskable_interrupt_state());
}

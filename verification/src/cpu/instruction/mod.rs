//! Instruction decoding: the opcode byte is split into its low and high
//! nibble and looked up in the table below, giving a mnemonic and an
//! addressing mode. The table is total: every byte either decodes or is
//! reported as an illegal opcode, never silently skipped.

pub mod execution;

use vstd::prelude::*;

verus! {

/// The operand-location scheme encoded in an opcode byte.
#[derive(Clone, Eq, PartialEq, Ord, PartialOrd, Hash, Debug, Default, Copy)]
pub enum AddressingMode {
    Accumulator,
    Absolute,
    AbsoluteXIndexed,
    AbsoluteYIndexed,
    Immediate,
    #[default]
    Implied,
    Indirect,
    IndirectXIndexed,
    IndirectYIndexed,
    Relative,
    Zeropage,
    ZeropageXIndexed,
    ZeropageYIndexed,
}

/// How many bytes an instruction with this mode occupies, opcode byte
/// included.
pub open spec fn spec_bytes_required(mode: AddressingMode) -> u16 {
    match mode {
        AddressingMode::Accumulator | AddressingMode::Implied => 1,
        AddressingMode::Immediate
        | AddressingMode::IndirectXIndexed
        | AddressingMode::IndirectYIndexed
        | AddressingMode::Relative
        | AddressingMode::Zeropage
        | AddressingMode::ZeropageXIndexed
        | AddressingMode::ZeropageYIndexed => 2,
        AddressingMode::Absolute
        | AddressingMode::AbsoluteXIndexed
        | AddressingMode::AbsoluteYIndexed
        | AddressingMode::Indirect => 3,
    }
}

impl AddressingMode {
    /// Each instruction will require 1-3 bytes in total.
    /// This includes the opcode byte.
    pub fn bytes_required(&self) -> (r: u16)
        ensures
            r == spec_bytes_required(*self),
            1 <= r <= 3,
    {
        match self {
            AddressingMode::Accumulator | AddressingMode::Implied => 1,
            AddressingMode::Immediate
            | AddressingMode::IndirectXIndexed
            | AddressingMode::IndirectYIndexed
            | AddressingMode::Relative
            | AddressingMode::Zeropage
            | AddressingMode::ZeropageXIndexed
            | AddressingMode::ZeropageYIndexed => 2,
            AddressingMode::Absolute
            | AddressingMode::AbsoluteXIndexed
            | AddressingMode::AbsoluteYIndexed
            | AddressingMode::Indirect => 3,
        }
    }
}

/// The 56 documented mnemonics.
#[derive(Clone, Eq, PartialEq, Ord, PartialOrd, Hash, Debug, Default, Copy)]
pub enum Opcode {
    ADC,
    AND,
    ASL,
    BCC,
    BCS,
    BEQ,
    BIT,
    BMI,
    BNE,
    BPL,
    BRK,
    BVC,
    BVS,
    CLC,
    CLD,
    CLI,
    CLV,
    CMP,
    CPX,
    CPY,
    DEC,
    DEX,
    DEY,
    EOR,
    INC,
    INX,
    INY,
    JMP,
    JSR,
    LDA,
    LDX,
    LDY,
    LSR,
    #[default]
    NOP,
    ORA,
    PHA,
    PHP,
    PLA,
    PLP,
    ROL,
    ROR,
    RTI,
    RTS,
    SBC,
    SEC,
    SED,
    SEI,
    STA,
    STX,
    STY,
    TAX,
    TAY,
    TSX,
    TXA,
    TXS,
    TYA,
}

/// A byte whose bit pattern is not a documented instruction. Decoding
/// reports it instead of guessing.
#[derive(Clone, Eq, PartialEq, Debug, Copy)]
pub enum DecodeError {
    IllegalOpcode,
}

/// Includes both the opcode and the addressing mode from
/// the opcode byte.
#[derive(Clone, Eq, PartialEq, Ord, PartialOrd, Hash, Debug, Default, Copy)]
pub struct FullOpcode {
    pub opcode: Opcode,
    pub addressing_mode: AddressingMode,
}

/// A decoded instruction together with its raw operand bytes, low byte
/// first as words are little-endian. Produced by fetch and consumed at once
/// by execute.
#[derive(Clone, Copy, Eq, PartialEq, Ord, PartialOrd, Hash, Debug, Default)]
pub struct Instruction {
    pub opcode: Opcode,
    pub addressing_mode: AddressingMode,
    pub low_byte: Option<u8>,
    pub high_byte: Option<u8>,
}

/// Shorthand for a table entry.
pub open spec fn fo(opcode: Opcode, addressing_mode: AddressingMode) -> Result<
    FullOpcode,
    DecodeError,
> {
    Ok(FullOpcode { opcode, addressing_mode })
}

pub open spec fn spec_low_nibble_0(h: u8) -> Result<FullOpcode, DecodeError> {
    if h == 0x0 {
        fo(Opcode::BRK, AddressingMode::Implied)
    } else if h == 0x1 {
        fo(Opcode::BPL, AddressingMode::Relative)
    } else if h == 0x2 {
        fo(Opcode::JSR, AddressingMode::Absolute)
    } else if h == 0x3 {
        fo(Opcode::BMI, AddressingMode::Relative)
    } else if h == 0x4 {
        fo(Opcode::RTI, AddressingMode::Implied)
    } else if h == 0x5 {
        fo(Opcode::BVC, AddressingMode::Relative)
    } else if h == 0x6 {
        fo(Opcode::RTS, AddressingMode::Implied)
    } else if h == 0x7 {
        fo(Opcode::BVS, AddressingMode::Relative)
    } else if h == 0x9 {
        fo(Opcode::BCC, AddressingMode::Relative)
    } else if h == 0xA {
        fo(Opcode::LDY, AddressingMode::Immediate)
    } else if h == 0xB {
        fo(Opcode::BCS, AddressingMode::Relative)
    } else if h == 0xC {
        fo(Opcode::CPY, AddressingMode::Immediate)
    } else if h == 0xD {
        fo(Opcode::BNE, AddressingMode::Relative)
    } else if h == 0xE {
        fo(Opcode::CPX, AddressingMode::Immediate)
    } else if h == 0xF {
        fo(Opcode::BEQ, AddressingMode::Relative)
    } else {
        Err(DecodeError::IllegalOpcode)
    }
}

pub open spec fn spec_low_nibble_1(h: u8) -> Result<FullOpcode, DecodeError> {
    if h == 0x0 {
        fo(Opcode::ORA, AddressingMode::IndirectXIndexed)
    } else if h == 0x1 {
        fo(Opcode::ORA, AddressingMode::IndirectYIndexed)
    } else if h == 0x2 {
        fo(Opcode::AND, AddressingMode::IndirectXIndexed)
    } else if h == 0x3 {
        fo(Opcode::AND, AddressingMode::IndirectYIndexed)
    } else if h == 0x4 {
        fo(Opcode::EOR, AddressingMode::IndirectXIndexed)
    } else if h == 0x5 {
        fo(Opcode::EOR, AddressingMode::IndirectYIndexed)
    } else if h == 0x6 {
        fo(Opcode::ADC, AddressingMode::IndirectXIndexed)
    } else if h == 0x7 {
        fo(Opcode::ADC, AddressingMode::IndirectYIndexed)
    } else if h == 0x8 {
        fo(Opcode::STA, AddressingMode::IndirectXIndexed)
    } else if h == 0x9 {
        fo(Opcode::STA, AddressingMode::IndirectYIndexed)
    } else if h == 0xA {
        fo(Opcode::LDA, AddressingMode::IndirectXIndexed)
    } else if h == 0xB {
        fo(Opcode::LDA, AddressingMode::IndirectYIndexed)
    } else if h == 0xC {
        fo(Opcode::CMP, AddressingMode::IndirectXIndexed)
    } else if h == 0xD {
        fo(Opcode::CMP, AddressingMode::IndirectYIndexed)
    } else if h == 0xE {
        fo(Opcode::SBC, AddressingMode::IndirectXIndexed)
    } else if h == 0xF {
        fo(Opcode::SBC, AddressingMode::IndirectYIndexed)
    } else {
        Err(DecodeError::IllegalOpcode)
    }
}

pub open spec fn spec_low_nibble_2(h: u8) -> Result<FullOpcode, DecodeError> {
    if h == 0xA {
        fo(Opcode::LDX, AddressingMode::Immediate)
    } else {
        Err(DecodeError::IllegalOpcode)
    }
}

pub open spec fn spec_low_nibble_4(h: u8) -> Result<FullOpcode, DecodeError> {
    if h == 0x2 {
        fo(Opcode::BIT, AddressingMode::Zeropage)
    } else if h == 0x8 {
        fo(Opcode::STY, AddressingMode::Zeropage)
    } else if h == 0x9 {
        fo(Opcode::STY, AddressingMode::ZeropageXIndexed)
    } else if h == 0xA {
        fo(Opcode::LDY, AddressingMode::Zeropage)
    } else if h == 0xB {
        fo(Opcode::LDY, AddressingMode::ZeropageXIndexed)
    } else if h == 0xC {
        fo(Opcode::CPY, AddressingMode::Zeropage)
    } else if h == 0xE {
        fo(Opcode::CPX, AddressingMode::Zeropage)
    } else {
        Err(DecodeError::IllegalOpcode)
    }
}

pub open spec fn spec_low_nibble_5(h: u8) -> Result<FullOpcode, DecodeError> {
    if h == 0x0 {
        fo(Opcode::ORA, AddressingMode::Zeropage)
    } else if h == 0x1 {
        fo(Opcode::ORA, AddressingMode::ZeropageXIndexed)
    } else if h == 0x2 {
        fo(Opcode::AND, AddressingMode::Zeropage)
    } else if h == 0x3 {
        fo(Opcode::AND, AddressingMode::ZeropageXIndexed)
    } else if h == 0x4 {
        fo(Opcode::EOR, AddressingMode::Zeropage)
    } else if h == 0x5 {
        fo(Opcode::EOR, AddressingMode::ZeropageXIndexed)
    } else if h == 0x6 {
        fo(Opcode::ADC, AddressingMode::Zeropage)
    } else if h == 0x7 {
        fo(Opcode::ADC, AddressingMode::ZeropageXIndexed)
    } else if h == 0x8 {
        fo(Opcode::STA, AddressingMode::Zeropage)
    } else if h == 0x9 {
        fo(Opcode::STA, AddressingMode::ZeropageXIndexed)
    } else if h == 0xA {
        fo(Opcode::LDA, AddressingMode::Zeropage)
    } else if h == 0xB {
        fo(Opcode::LDA, AddressingMode::ZeropageXIndexed)
    } else if h == 0xC {
        fo(Opcode::CMP, AddressingMode::Zeropage)
    } else if h == 0xD {
        fo(Opcode::CMP, AddressingMode::ZeropageXIndexed)
    } else if h == 0xE {
        fo(Opcode::SBC, AddressingMode::Zeropage)
    } else if h == 0xF {
        fo(Opcode::SBC, AddressingMode::ZeropageXIndexed)
    } else {
        Err(DecodeError::IllegalOpcode)
    }
}

pub open spec fn spec_low_nibble_6(h: u8) -> Result<FullOpcode, DecodeError> {
    if h == 0x0 {
        fo(Opcode::ASL, AddressingMode::Zeropage)
    } else if h == 0x1 {
        fo(Opcode::ASL, AddressingMode::ZeropageXIndexed)
    } else if h == 0x2 {
        fo(Opcode::ROL, AddressingMode::Zeropage)
    } else if h == 0x3 {
        fo(Opcode::ROL, AddressingMode::ZeropageXIndexed)
    } else if h == 0x4 {
        fo(Opcode::LSR, AddressingMode::Zeropage)
    } else if h == 0x5 {
        fo(Opcode::LSR, AddressingMode::ZeropageXIndexed)
    } else if h == 0x6 {
        fo(Opcode::ROR, AddressingMode::Zeropage)
    } else if h == 0x7 {
        fo(Opcode::ROR, AddressingMode::ZeropageXIndexed)
    } else if h == 0x8 {
        fo(Opcode::STX, AddressingMode::Zeropage)
    } else if h == 0x9 {
        fo(Opcode::STX, AddressingMode::ZeropageYIndexed)
    } else if h == 0xA {
        fo(Opcode::LDX, AddressingMode::Zeropage)
    } else if h == 0xB {
        fo(Opcode::LDX, AddressingMode::ZeropageYIndexed)
    } else if h == 0xC {
        fo(Opcode::DEC, AddressingMode::Zeropage)
    } else if h == 0xD {
        fo(Opcode::DEC, AddressingMode::ZeropageXIndexed)
    } else if h == 0xE {
        fo(Opcode::INC, AddressingMode::Zeropage)
    } else if h == 0xF {
        fo(Opcode::INC, AddressingMode::ZeropageXIndexed)
    } else {
        Err(DecodeError::IllegalOpcode)
    }
}

pub open spec fn spec_low_nibble_8(h: u8) -> Result<FullOpcode, DecodeError> {
    if h == 0x0 {
        fo(Opcode::PHP, AddressingMode::Implied)
    } else if h == 0x1 {
        fo(Opcode::CLC, AddressingMode::Implied)
    } else if h == 0x2 {
        fo(Opcode::PLP, AddressingMode::Implied)
    } else if h == 0x3 {
        fo(Opcode::SEC, AddressingMode::Implied)
    } else if h == 0x4 {
        fo(Opcode::PHA, AddressingMode::Implied)
    } else if h == 0x5 {
        fo(Opcode::CLI, AddressingMode::Implied)
    } else if h == 0x6 {
        fo(Opcode::PLA, AddressingMode::Implied)
    } else if h == 0x7 {
        fo(Opcode::SEI, AddressingMode::Implied)
    } else if h == 0x8 {
        fo(Opcode::DEY, AddressingMode::Implied)
    } else if h == 0x9 {
        fo(Opcode::TYA, AddressingMode::Implied)
    } else if h == 0xA {
        fo(Opcode::TAY, AddressingMode::Implied)
    } else if h == 0xB {
        fo(Opcode::CLV, AddressingMode::Implied)
    } else if h == 0xC {
        fo(Opcode::INY, AddressingMode::Implied)
    } else if h == 0xD {
        fo(Opcode::CLD, AddressingMode::Implied)
    } else if h == 0xE {
        fo(Opcode::INX, AddressingMode::Implied)
    } else if h == 0xF {
        fo(Opcode::SED, AddressingMode::Implied)
    } else {
        Err(DecodeError::IllegalOpcode)
    }
}

pub open spec fn spec_low_nibble_9(h: u8) -> Result<FullOpcode, DecodeError> {
    if h == 0x0 {
        fo(Opcode::ORA, AddressingMode::Immediate)
    } else if h == 0x1 {
        fo(Opcode::ORA, AddressingMode::AbsoluteYIndexed)
    } else if h == 0x2 {
        fo(Opcode::AND, AddressingMode::Immediate)
    } else if h == 0x3 {
        fo(Opcode::AND, AddressingMode::AbsoluteYIndexed)
    } else if h == 0x4 {
        fo(Opcode::EOR, AddressingMode::Immediate)
    } else if h == 0x5 {
        fo(Opcode::EOR, AddressingMode::AbsoluteYIndexed)
    } else if h == 0x6 {
        fo(Opcode::ADC, AddressingMode::Immediate)
    } else if h == 0x7 {
        fo(Opcode::ADC, AddressingMode::AbsoluteYIndexed)
    } else if h == 0x9 {
        fo(Opcode::STA, AddressingMode::AbsoluteYIndexed)
    } else if h == 0xA {
        fo(Opcode::LDA, AddressingMode::Immediate)
    } else if h == 0xB {
        fo(Opcode::LDA, AddressingMode::AbsoluteYIndexed)
    } else if h == 0xC {
        fo(Opcode::CMP, AddressingMode::Immediate)
    } else if h == 0xD {
        fo(Opcode::CMP, AddressingMode::AbsoluteYIndexed)
    } else if h == 0xE {
        fo(Opcode::SBC, AddressingMode::Immediate)
    } else if h == 0xF {
        fo(Opcode::SBC, AddressingMode::AbsoluteYIndexed)
    } else {
        Err(DecodeError::IllegalOpcode)
    }
}

pub open spec fn spec_low_nibble_a(h: u8) -> Result<FullOpcode, DecodeError> {
    if h == 0x0 {
        fo(Opcode::ASL, AddressingMode::Accumulator)
    } else if h == 0x2 {
        fo(Opcode::ROL, AddressingMode::Accumulator)
    } else if h == 0x4 {
        fo(Opcode::LSR, AddressingMode::Accumulator)
    } else if h == 0x6 {
        fo(Opcode::ROR, AddressingMode::Accumulator)
    } else if h == 0x8 {
        fo(Opcode::TXA, AddressingMode::Implied)
    } else if h == 0x9 {
        fo(Opcode::TXS, AddressingMode::Implied)
    } else if h == 0xA {
        fo(Opcode::TAX, AddressingMode::Implied)
    } else if h == 0xB {
        fo(Opcode::TSX, AddressingMode::Implied)
    } else if h == 0xC {
        fo(Opcode::DEX, AddressingMode::Implied)
    } else if h == 0xE {
        fo(Opcode::NOP, AddressingMode::Implied)
    } else {
        Err(DecodeError::IllegalOpcode)
    }
}

pub open spec fn spec_low_nibble_c(h: u8) -> Result<FullOpcode, DecodeError> {
    if h == 0x2 {
        fo(Opcode::BIT, AddressingMode::Absolute)
    } else if h == 0x4 {
        fo(Opcode::JMP, AddressingMode::Absolute)
    } else if h == 0x6 {
        fo(Opcode::JMP, AddressingMode::Indirect)
    } else if h == 0x8 {
        fo(Opcode::STY, AddressingMode::Absolute)
    } else if h == 0xA {
        fo(Opcode::LDY, AddressingMode::Absolute)
    } else if h == 0xB {
        fo(Opcode::LDY, AddressingMode::AbsoluteXIndexed)
    } else if h == 0xC {
        fo(Opcode::CPY, AddressingMode::Absolute)
    } else if h == 0xE {
        fo(Opcode::CPX, AddressingMode::Absolute)
    } else {
        Err(DecodeError::IllegalOpcode)
    }
}

pub open spec fn spec_low_nibble_d(h: u8) -> Result<FullOpcode, DecodeError> {
    if h == 0x0 {
        fo(Opcode::ORA, AddressingMode::Absolute)
    } else if h == 0x1 {
        fo(Opcode::ORA, AddressingMode::AbsoluteXIndexed)
    } else if h == 0x2 {
        fo(Opcode::AND, AddressingMode::Absolute)
    } else if h == 0x3 {
        fo(Opcode::AND, AddressingMode::AbsoluteXIndexed)
    } else if h == 0x4 {
        fo(Opcode::EOR, AddressingMode::Absolute)
    } else if h == 0x5 {
        fo(Opcode::EOR, AddressingMode::AbsoluteXIndexed)
    } else if h == 0x6 {
        fo(Opcode::ADC, AddressingMode::Absolute)
    } else if h == 0x7 {
        fo(Opcode::ADC, AddressingMode::AbsoluteXIndexed)
    } else if h == 0x8 {
        fo(Opcode::STA, AddressingMode::Absolute)
    } else if h == 0x9 {
        fo(Opcode::STA, AddressingMode::AbsoluteXIndexed)
    } else if h == 0xA {
        fo(Opcode::LDA, AddressingMode::Absolute)
    } else if h == 0xB {
        fo(Opcode::LDA, AddressingMode::AbsoluteXIndexed)
    } else if h == 0xC {
        fo(Opcode::CMP, AddressingMode::Absolute)
    } else if h == 0xD {
        fo(Opcode::CMP, AddressingMode::AbsoluteXIndexed)
    } else if h == 0xE {
        fo(Opcode::SBC, AddressingMode::Absolute)
    } else if h == 0xF {
        fo(Opcode::SBC, AddressingMode::AbsoluteXIndexed)
    } else {
        Err(DecodeError::IllegalOpcode)
    }
}

pub open spec fn spec_low_nibble_e(h: u8) -> Result<FullOpcode, DecodeError> {
    if h == 0x0 {
        fo(Opcode::ASL, AddressingMode::Absolute)
    } else if h == 0x1 {
        fo(Opcode::ASL, AddressingMode::AbsoluteXIndexed)
    } else if h == 0x2 {
        fo(Opcode::ROL, AddressingMode::Absolute)
    } else if h == 0x3 {
        fo(Opcode::ROL, AddressingMode::AbsoluteXIndexed)
    } else if h == 0x4 {
        fo(Opcode::LSR, AddressingMode::Absolute)
    } else if h == 0x5 {
        fo(Opcode::LSR, AddressingMode::AbsoluteXIndexed)
    } else if h == 0x6 {
        fo(Opcode::ROR, AddressingMode::Absolute)
    } else if h == 0x7 {
        fo(Opcode::ROR, AddressingMode::AbsoluteXIndexed)
    } else if h == 0x8 {
        fo(Opcode::STX, AddressingMode::Absolute)
    } else if h == 0xA {
        fo(Opcode::LDX, AddressingMode::Absolute)
    } else if h == 0xB {
        fo(Opcode::LDX, AddressingMode::AbsoluteYIndexed)
    } else if h == 0xC {
        fo(Opcode::DEC, AddressingMode::Absolute)
    } else if h == 0xD {
        fo(Opcode::DEC, AddressingMode::AbsoluteXIndexed)
    } else if h == 0xE {
        fo(Opcode::INC, AddressingMode::Absolute)
    } else if h == 0xF {
        fo(Opcode::INC, AddressingMode::AbsoluteXIndexed)
    } else {
        Err(DecodeError::IllegalOpcode)
    }
}

/// The whole decode table: the low nibble picks a column function, the high
/// nibble the row. Columns 3, 7, B and F hold no documented instruction.
pub open spec fn spec_decode(byte: u8) -> Result<FullOpcode, DecodeError> {
    let l = byte % 16;
    let h = byte / 16;
    if l == 0x0 {
        spec_low_nibble_0(h)
    } else if l == 0x1 {
        spec_low_nibble_1(h)
    } else if l == 0x2 {
        spec_low_nibble_2(h)
    } else if l == 0x4 {
        spec_low_nibble_4(h)
    } else if l == 0x5 {
        spec_low_nibble_5(h)
    } else if l == 0x6 {
        spec_low_nibble_6(h)
    } else if l == 0x8 {
        spec_low_nibble_8(h)
    } else if l == 0x9 {
        spec_low_nibble_9(h)
    } else if l == 0xA {
        spec_low_nibble_a(h)
    } else if l == 0xC {
        spec_low_nibble_c(h)
    } else if l == 0xD {
        spec_low_nibble_d(h)
    } else if l == 0xE {
        spec_low_nibble_e(h)
    } else {
        Err(DecodeError::IllegalOpcode)
    }
}

impl FullOpcode {
    /// Splits the opcode byte into nibbles and looks the pair up in the
    /// table; an undocumented byte comes back as an illegal-opcode error.
    pub fn new(byte: u8) -> (r: Result<FullOpcode, DecodeError>)
        ensures
            r == spec_decode(byte),
            r matches Ok(f) ==> pair_legal(f.opcode, f.addressing_mode),
    {
        let low_nibble = byte % 16;
        let high_nibble = byte / 16;

        proof {
            lemma_decode_legal(byte);
        }
        match low_nibble {
            0x0 => low_nibble_0(high_nibble),
            0x1 => low_nibble_1(high_nibble),
            0x2 => low_nibble_2(high_nibble),
            0x4 => low_nibble_4(high_nibble),
            0x5 => low_nibble_5(high_nibble),
            0x6 => low_nibble_6(high_nibble),
            0x8 => low_nibble_8(high_nibble),
            0x9 => low_nibble_9(high_nibble),
            0xA => low_nibble_a(high_nibble),
            0xC => low_nibble_c(high_nibble),
            0xD => low_nibble_d(high_nibble),
            0xE => low_nibble_e(high_nibble),
            _ => Err(DecodeError::IllegalOpcode),
        }
    }
}

/// One table entry on the executable side.
fn legal(opcode: Opcode, addressing_mode: AddressingMode) -> (r: Result<FullOpcode, DecodeError>)
    ensures
        r == fo(opcode, addressing_mode),
{
    Ok(FullOpcode { opcode, addressing_mode })
}

pub fn low_nibble_0(high_nibble: u8) -> (r: Result<FullOpcode, DecodeError>)
    ensures
        r == spec_low_nibble_0(high_nibble),
{
    match high_nibble {
        0x0 => legal(Opcode::BRK, AddressingMode::Implied),
        0x1 => legal(Opcode::BPL, AddressingMode::Relative),
        0x2 => legal(Opcode::JSR, AddressingMode::Absolute),
        0x3 => legal(Opcode::BMI, AddressingMode::Relative),
        0x4 => legal(Opcode::RTI, AddressingMode::Implied),
        0x5 => legal(Opcode::BVC, AddressingMode::Relative),
        0x6 => legal(Opcode::RTS, AddressingMode::Implied),
        0x7 => legal(Opcode::BVS, AddressingMode::Relative),
        0x9 => legal(Opcode::BCC, AddressingMode::Relative),
        0xA => legal(Opcode::LDY, AddressingMode::Immediate),
        0xB => legal(Opcode::BCS, AddressingMode::Relative),
        0xC => legal(Opcode::CPY, AddressingMode::Immediate),
        0xD => legal(Opcode::BNE, AddressingMode::Relative),
        0xE => legal(Opcode::CPX, AddressingMode::Immediate),
        0xF => legal(Opcode::BEQ, AddressingMode::Relative),
        _ => Err(DecodeError::IllegalOpcode),
    }
}

pub fn low_nibble_1(high_nibble: u8) -> (r: Result<FullOpcode, DecodeError>)
    ensures
        r == spec_low_nibble_1(high_nibble),
{
    match high_nibble {
        0x0 => legal(Opcode::ORA, AddressingMode::IndirectXIndexed),
        0x1 => legal(Opcode::ORA, AddressingMode::IndirectYIndexed),
        0x2 => legal(Opcode::AND, AddressingMode::IndirectXIndexed),
        0x3 => legal(Opcode::AND, AddressingMode::IndirectYIndexed),
        0x4 => legal(Opcode::EOR, AddressingMode::IndirectXIndexed),
        0x5 => legal(Opcode::EOR, AddressingMode::IndirectYIndexed),
        0x6 => legal(Opcode::ADC, AddressingMode::IndirectXIndexed),
        0x7 => legal(Opcode::ADC, AddressingMode::IndirectYIndexed),
        0x8 => legal(Opcode::STA, AddressingMode::IndirectXIndexed),
        0x9 => legal(Opcode::STA, AddressingMode::IndirectYIndexed),
        0xA => legal(Opcode::LDA, AddressingMode::IndirectXIndexed),
        0xB => legal(Opcode::LDA, AddressingMode::IndirectYIndexed),
        0xC => legal(Opcode::CMP, AddressingMode::IndirectXIndexed),
        0xD => legal(Opcode::CMP, AddressingMode::IndirectYIndexed),
        0xE => legal(Opcode::SBC, AddressingMode::IndirectXIndexed),
        0xF => legal(Opcode::SBC, AddressingMode::IndirectYIndexed),
        _ => Err(DecodeError::IllegalOpcode),
    }
}

pub fn low_nibble_2(high_nibble: u8) -> (r: Result<FullOpcode, DecodeError>)
    ensures
        r == spec_low_nibble_2(high_nibble),
{
    match high_nibble {
        0xA => legal(Opcode::LDX, AddressingMode::Immediate),
        _ => Err(DecodeError::IllegalOpcode),
    }
}

pub fn low_nibble_4(high_nibble: u8) -> (r: Result<FullOpcode, DecodeError>)
    ensures
        r == spec_low_nibble_4(high_nibble),
{
    match high_nibble {
        0x2 => legal(Opcode::BIT, AddressingMode::Zeropage),
        0x8 => legal(Opcode::STY, AddressingMode::Zeropage),
        0x9 => legal(Opcode::STY, AddressingMode::ZeropageXIndexed),
        0xA => legal(Opcode::LDY, AddressingMode::Zeropage),
        0xB => legal(Opcode::LDY, AddressingMode::ZeropageXIndexed),
        0xC => legal(Opcode::CPY, AddressingMode::Zeropage),
        0xE => legal(Opcode::CPX, AddressingMode::Zeropage),
        _ => Err(DecodeError::IllegalOpcode),
    }
}

pub fn low_nibble_5(high_nibble: u8) -> (r: Result<FullOpcode, DecodeError>)
    ensures
        r == spec_low_nibble_5(high_nibble),
{
    match high_nibble {
        0x0 => legal(Opcode::ORA, AddressingMode::Zeropage),
        0x1 => legal(Opcode::ORA, AddressingMode::ZeropageXIndexed),
        0x2 => legal(Opcode::AND, AddressingMode::Zeropage),
        0x3 => legal(Opcode::AND, AddressingMode::ZeropageXIndexed),
        0x4 => legal(Opcode::EOR, AddressingMode::Zeropage),
        0x5 => legal(Opcode::EOR, AddressingMode::ZeropageXIndexed),
        0x6 => legal(Opcode::ADC, AddressingMode::Zeropage),
        0x7 => legal(Opcode::ADC, AddressingMode::ZeropageXIndexed),
        0x8 => legal(Opcode::STA, AddressingMode::Zeropage),
        0x9 => legal(Opcode::STA, AddressingMode::ZeropageXIndexed),
        0xA => legal(Opcode::LDA, AddressingMode::Zeropage),
        0xB => legal(Opcode::LDA, AddressingMode::ZeropageXIndexed),
        0xC => legal(Opcode::CMP, AddressingMode::Zeropage),
        0xD => legal(Opcode::CMP, AddressingMode::ZeropageXIndexed),
        0xE => legal(Opcode::SBC, AddressingMode::Zeropage),
        0xF => legal(Opcode::SBC, AddressingMode::ZeropageXIndexed),
        _ => Err(DecodeError::IllegalOpcode),
    }
}

pub fn low_nibble_6(high_nibble: u8) -> (r: Result<FullOpcode, DecodeError>)
    ensures
        r == spec_low_nibble_6(high_nibble),
{
    match high_nibble {
        0x0 => legal(Opcode::ASL, AddressingMode::Zeropage),
        0x1 => legal(Opcode::ASL, AddressingMode::ZeropageXIndexed),
        0x2 => legal(Opcode::ROL, AddressingMode::Zeropage),
        0x3 => legal(Opcode::ROL, AddressingMode::ZeropageXIndexed),
        0x4 => legal(Opcode::LSR, AddressingMode::Zeropage),
        0x5 => legal(Opcode::LSR, AddressingMode::ZeropageXIndexed),
        0x6 => legal(Opcode::ROR, AddressingMode::Zeropage),
        0x7 => legal(Opcode::ROR, AddressingMode::ZeropageXIndexed),
        0x8 => legal(Opcode::STX, AddressingMode::Zeropage),
        0x9 => legal(Opcode::STX, AddressingMode::ZeropageYIndexed),
        0xA => legal(Opcode::LDX, AddressingMode::Zeropage),
        0xB => legal(Opcode::LDX, AddressingMode::ZeropageYIndexed),
        0xC => legal(Opcode::DEC, AddressingMode::Zeropage),
        0xD => legal(Opcode::DEC, AddressingMode::ZeropageXIndexed),
        0xE => legal(Opcode::INC, AddressingMode::Zeropage),
        0xF => legal(Opcode::INC, AddressingMode::ZeropageXIndexed),
        _ => Err(DecodeError::IllegalOpcode),
    }
}

pub fn low_nibble_8(high_nibble: u8) -> (r: Result<FullOpcode, DecodeError>)
    ensures
        r == spec_low_nibble_8(high_nibble),
{
    match high_nibble {
        0x0 => legal(Opcode::PHP, AddressingMode::Implied),
        0x1 => legal(Opcode::CLC, AddressingMode::Implied),
        0x2 => legal(Opcode::PLP, AddressingMode::Implied),
        0x3 => legal(Opcode::SEC, AddressingMode::Implied),
        0x4 => legal(Opcode::PHA, AddressingMode::Implied),
        0x5 => legal(Opcode::CLI, AddressingMode::Implied),
        0x6 => legal(Opcode::PLA, AddressingMode::Implied),
        0x7 => legal(Opcode::SEI, AddressingMode::Implied),
        0x8 => legal(Opcode::DEY, AddressingMode::Implied),
        0x9 => legal(Opcode::TYA, AddressingMode::Implied),
        0xA => legal(Opcode::TAY, AddressingMode::Implied),
        0xB => legal(Opcode::CLV, AddressingMode::Implied),
        0xC => legal(Opcode::INY, AddressingMode::Implied),
        0xD => legal(Opcode::CLD, AddressingMode::Implied),
        0xE => legal(Opcode::INX, AddressingMode::Implied),
        0xF => legal(Opcode::SED, AddressingMode::Implied),
        _ => Err(DecodeError::IllegalOpcode),
    }
}

pub fn low_nibble_9(high_nibble: u8) -> (r: Result<FullOpcode, DecodeError>)
    ensures
        r == spec_low_nibble_9(high_nibble),
{
    match high_nibble {
        0x0 => legal(Opcode::ORA, AddressingMode::Immediate),
        0x1 => legal(Opcode::ORA, AddressingMode::AbsoluteYIndexed),
        0x2 => legal(Opcode::AND, AddressingMode::Immediate),
        0x3 => legal(Opcode::AND, AddressingMode::AbsoluteYIndexed),
        0x4 => legal(Opcode::EOR, AddressingMode::Immediate),
        0x5 => legal(Opcode::EOR, AddressingMode::AbsoluteYIndexed),
        0x6 => legal(Opcode::ADC, AddressingMode::Immediate),
        0x7 => legal(Opcode::ADC, AddressingMode::AbsoluteYIndexed),
        0x9 => legal(Opcode::STA, AddressingMode::AbsoluteYIndexed),
        0xA => legal(Opcode::LDA, AddressingMode::Immediate),
        0xB => legal(Opcode::LDA, AddressingMode::AbsoluteYIndexed),
        0xC => legal(Opcode::CMP, AddressingMode::Immediate),
        0xD => legal(Opcode::CMP, AddressingMode::AbsoluteYIndexed),
        0xE => legal(Opcode::SBC, AddressingMode::Immediate),
        0xF => legal(Opcode::SBC, AddressingMode::AbsoluteYIndexed),
        _ => Err(DecodeError::IllegalOpcode),
    }
}

pub fn low_nibble_a(high_nibble: u8) -> (r: Result<FullOpcode, DecodeError>)
    ensures
        r == spec_low_nibble_a(high_nibble),
{
    match high_nibble {
        0x0 => legal(Opcode::ASL, AddressingMode::Accumulator),
        0x2 => legal(Opcode::ROL, AddressingMode::Accumulator),
        0x4 => legal(Opcode::LSR, AddressingMode::Accumulator),
        0x6 => legal(Opcode::ROR, AddressingMode::Accumulator),
        0x8 => legal(Opcode::TXA, AddressingMode::Implied),
        0x9 => legal(Opcode::TXS, AddressingMode::Implied),
        0xA => legal(Opcode::TAX, AddressingMode::Implied),
        0xB => legal(Opcode::TSX, AddressingMode::Implied),
        0xC => legal(Opcode::DEX, AddressingMode::Implied),
        0xE => legal(Opcode::NOP, AddressingMode::Implied),
        _ => Err(DecodeError::IllegalOpcode),
    }
}

pub fn low_nibble_c(high_nibble: u8) -> (r: Result<FullOpcode, DecodeError>)
    ensures
        r == spec_low_nibble_c(high_nibble),
{
    match high_nibble {
        0x2 => legal(Opcode::BIT, AddressingMode::Absolute),
        0x4 => legal(Opcode::JMP, AddressingMode::Absolute),
        0x6 => legal(Opcode::JMP, AddressingMode::Indirect),
        0x8 => legal(Opcode::STY, AddressingMode::Absolute),
        0xA => legal(Opcode::LDY, AddressingMode::Absolute),
        0xB => legal(Opcode::LDY, AddressingMode::AbsoluteXIndexed),
        0xC => legal(Opcode::CPY, AddressingMode::Absolute),
        0xE => legal(Opcode::CPX, AddressingMode::Absolute),
        _ => Err(DecodeError::IllegalOpcode),
    }
}

pub fn low_nibble_d(high_nibble: u8) -> (r: Result<FullOpcode, DecodeError>)
    ensures
        r == spec_low_nibble_d(high_nibble),
{
    match high_nibble {
        0x0 => legal(Opcode::ORA, AddressingMode::Absolute),
        0x1 => legal(Opcode::ORA, AddressingMode::AbsoluteXIndexed),
        0x2 => legal(Opcode::AND, AddressingMode::Absolute),
        0x3 => legal(Opcode::AND, AddressingMode::AbsoluteXIndexed),
        0x4 => legal(Opcode::EOR, AddressingMode::Absolute),
        0x5 => legal(Opcode::EOR, AddressingMode::AbsoluteXIndexed),
        0x6 => legal(Opcode::ADC, AddressingMode::Absolute),
        0x7 => legal(Opcode::ADC, AddressingMode::AbsoluteXIndexed),
        0x8 => legal(Opcode::STA, AddressingMode::Absolute),
        0x9 => legal(Opcode::STA, AddressingMode::AbsoluteXIndexed),
        0xA => legal(Opcode::LDA, AddressingMode::Absolute),
        0xB => legal(Opcode::LDA, AddressingMode::AbsoluteXIndexed),
        0xC => legal(Opcode::CMP, AddressingMode::Absolute),
        0xD => legal(Opcode::CMP, AddressingMode::AbsoluteXIndexed),
        0xE => legal(Opcode::SBC, AddressingMode::Absolute),
        0xF => legal(Opcode::SBC, AddressingMode::AbsoluteXIndexed),
        _ => Err(DecodeError::IllegalOpcode),
    }
}

pub fn low_nibble_e(high_nibble: u8) -> (r: Result<FullOpcode, DecodeError>)
    ensures
        r == spec_low_nibble_e(high_nibble),
{
    match high_nibble {
        0x0 => legal(Opcode::ASL, AddressingMode::Absolute),
        0x1 => legal(Opcode::ASL, AddressingMode::AbsoluteXIndexed),
        0x2 => legal(Opcode::ROL, AddressingMode::Absolute),
        0x3 => legal(Opcode::ROL, AddressingMode::AbsoluteXIndexed),
        0x4 => legal(Opcode::LSR, AddressingMode::Absolute),
        0x5 => legal(Opcode::LSR, AddressingMode::AbsoluteXIndexed),
        0x6 => legal(Opcode::ROR, AddressingMode::Absolute),
        0x7 => legal(Opcode::ROR, AddressingMode::AbsoluteXIndexed),
        0x8 => legal(Opcode::STX, AddressingMode::Absolute),
        0xA => legal(Opcode::LDX, AddressingMode::Absolute),
        0xB => legal(Opcode::LDX, AddressingMode::AbsoluteYIndexed),
        0xC => legal(Opcode::DEC, AddressingMode::Absolute),
        0xD => legal(Opcode::DEC, AddressingMode::AbsoluteXIndexed),
        0xE => legal(Opcode::INC, AddressingMode::Absolute),
        0xF => legal(Opcode::INC, AddressingMode::AbsoluteXIndexed),
        _ => Err(DecodeError::IllegalOpcode),
    }
}

/// The modes under which the read-operand group (loads into the accumulator
/// and the arithmetic and logical instructions) is documented.
pub open spec fn accumulator_read_mode(m: AddressingMode) -> bool {
    ||| m == AddressingMode::Immediate
    ||| m == AddressingMode::Zeropage
    ||| m == AddressingMode::ZeropageXIndexed
    ||| m == AddressingMode::Absolute
    ||| m == AddressingMode::AbsoluteXIndexed
    ||| m == AddressingMode::AbsoluteYIndexed
    ||| m == AddressingMode::IndirectXIndexed
    ||| m == AddressingMode::IndirectYIndexed
}

pub open spec fn ldx_mode(m: AddressingMode) -> bool {
    ||| m == AddressingMode::Immediate
    ||| m == AddressingMode::Zeropage
    ||| m == AddressingMode::ZeropageYIndexed
    ||| m == AddressingMode::Absolute
    ||| m == AddressingMode::AbsoluteYIndexed
}

pub open spec fn ldy_mode(m: AddressingMode) -> bool {
    ||| m == AddressingMode::Immediate
    ||| m == AddressingMode::Zeropage
    ||| m == AddressingMode::ZeropageXIndexed
    ||| m == AddressingMode::Absolute
    ||| m == AddressingMode::AbsoluteXIndexed
}

pub open spec fn sta_mode(m: AddressingMode) -> bool {
    ||| m == AddressingMode::Zeropage
    ||| m == AddressingMode::ZeropageXIndexed
    ||| m == AddressingMode::Absolute
    ||| m == AddressingMode::AbsoluteXIndexed
    ||| m == AddressingMode::AbsoluteYIndexed
    ||| m == AddressingMode::IndirectXIndexed
    ||| m == AddressingMode::IndirectYIndexed
}

pub open spec fn stx_mode(m: AddressingMode) -> bool {
    ||| m == AddressingMode::Zeropage
    ||| m == AddressingMode::ZeropageYIndexed
    ||| m == AddressingMode::Absolute
}

pub open spec fn sty_mode(m: AddressingMode) -> bool {
    ||| m == AddressingMode::Zeropage
    ||| m == AddressingMode::ZeropageXIndexed
    ||| m == AddressingMode::Absolute
}

pub open spec fn compare_index_mode(m: AddressingMode) -> bool {
    ||| m == AddressingMode::Immediate
    ||| m == AddressingMode::Zeropage
    ||| m == AddressingMode::Absolute
}

pub open spec fn bit_mode(m: AddressingMode) -> bool {
    ||| m == AddressingMode::Zeropage
    ||| m == AddressingMode::Absolute
}

pub open spec fn shift_mode(m: AddressingMode) -> bool {
    ||| m == AddressingMode::Accumulator
    ||| m == AddressingMode::Zeropage
    ||| m == AddressingMode::ZeropageXIndexed
    ||| m == AddressingMode::Absolute
    ||| m == AddressingMode::AbsoluteXIndexed
}

pub open spec fn incdec_mode(m: AddressingMode) -> bool {
    ||| m == AddressingMode::Zeropage
    ||| m == AddressingMode::ZeropageXIndexed
    ||| m == AddressingMode::Absolute
    ||| m == AddressingMode::AbsoluteXIndexed
}

pub open spec fn jmp_mode(m: AddressingMode) -> bool {
    ||| m == AddressingMode::Absolute
    ||| m == AddressingMode::Indirect
}

/// Which addressing modes each mnemonic is documented with; the decode
/// table only produces pairs satisfying this.
pub open spec fn pair_legal(op: Opcode, m: AddressingMode) -> bool {
    match op {
        Opcode::LDA
        | Opcode::AND
        | Opcode::EOR
        | Opcode::ORA
        | Opcode::ADC
        | Opcode::SBC
        | Opcode::CMP => accumulator_read_mode(m),
        Opcode::LDX => ldx_mode(m),
        Opcode::LDY => ldy_mode(m),
        Opcode::STA => sta_mode(m),
        Opcode::STX => stx_mode(m),
        Opcode::STY => sty_mode(m),
        Opcode::CPX | Opcode::CPY => compare_index_mode(m),
        Opcode::BIT => bit_mode(m),
        Opcode::ASL | Opcode::LSR | Opcode::ROL | Opcode::ROR => shift_mode(m),
        Opcode::INC | Opcode::DEC => incdec_mode(m),
        Opcode::JMP => jmp_mode(m),
        Opcode::JSR => m == AddressingMode::Absolute,
        Opcode::BCC
        | Opcode::BCS
        | Opcode::BEQ
        | Opcode::BNE
        | Opcode::BMI
        | Opcode::BPL
        | Opcode::BVC
        | Opcode::BVS => m == AddressingMode::Relative,
        _ => m == AddressingMode::Implied,
    }
}

/// Everything the table hands out is a documented pairing.
pub proof fn lemma_decode_legal(byte: u8)
    ensures
        spec_decode(byte) matches Ok(f) ==> pair_legal(f.opcode, f.addressing_mode),
{
    assert(byte % 16 < 16 && byte / 16 < 16);
}

} // verus!

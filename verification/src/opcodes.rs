use vstd::prelude::*;

verus! {

/// The operand form of an instruction: how its bytes after the opcode turn
/// into an effective address.
#[allow(non_camel_case_types)]
#[derive(Debug, Clone, Copy, PartialEq, Eq, Structural)]
pub enum AddressingMode {
    Immediate,
    ZeroPage,
    ZeroPage_X,
    ZeroPage_Y,
    Absolute,
    Absolute_X,
    Absolute_Y,
    Indirect,
    Indirect_X,
    Indirect_Y,
    NoneAddressing,
}

/// The official instruction mnemonics.
#[derive(Debug, Clone, Copy, PartialEq, Eq, Structural)]
pub enum Mnemonic {
    ADC,
    AND,
    ASL,
    BCC,
    BCS,
    BEQ,
    BIT,
    BMI,
    BNE,
    BPL,
    BRK,
    BVC,
    BVS,
    CLC,
    CLD,
    CLI,
    CLV,
    CMP,
    CPX,
    CPY,
    DEC,
    DEX,
    DEY,
    EOR,
    INC,
    INX,
    INY,
    JMP,
    JSR,
    LDA,
    LDX,
    LDY,
    LSR,
    NOP,
    ORA,
    PHA,
    PHP,
    PLA,
    PLP,
    ROL,
    ROR,
    RTI,
    RTS,
    SBC,
    SEC,
    SED,
    SEI,
    STA,
    STX,
    STY,
    TAX,
    TAY,
    TSX,
    TXA,
    TXS,
    TYA,
}

/// One row of the instruction table: opcode byte, mnemonic, instruction
/// length in bytes, base cycle count, and operand form.
#[derive(Debug, Clone, Copy)]
pub struct OpCode {
    pub addr: u8,
    pub code: Mnemonic,
    pub bytes: usize,
    pub cycles: usize,
    pub addressing_mode: AddressingMode,
}

impl OpCode {
    pub fn new(addr: u8, code: Mnemonic, bytes: usize, cycles: usize, addressing_mode: AddressingMode) -> (r: Self)
        ensures
            r == (OpCode { addr, code, bytes, cycles, addressing_mode }),
    {
        OpCode { addr, code, bytes, cycles, addressing_mode }
    }
}

/// The instruction table: the row an opcode byte selects, or nothing for a
/// byte outside the official set.
pub open spec fn spec_opcode(op: u8) -> Option<OpCode> {
    match op {
        0x00 => Some(OpCode { addr: 0x00, code: Mnemonic::BRK, bytes: 1, cycles: 7, addressing_mode: AddressingMode::NoneAddressing }),
        0x01 => Some(OpCode { addr: 0x01, code: Mnemonic::ORA, bytes: 2, cycles: 6, addressing_mode: AddressingMode::Indirect_X }),
        0x05 => Some(OpCode { addr: 0x05, code: Mnemonic::ORA, bytes: 2, cycles: 3, addressing_mode: AddressingMode::ZeroPage }),
        0x06 => Some(OpCode { addr: 0x06, code: Mnemonic::ASL, bytes: 2, cycles: 5, addressing_mode: AddressingMode::ZeroPage }),
        0x08 => Some(OpCode { addr: 0x08, code: Mnemonic::PHP, bytes: 1, cycles: 3, addressing_mode: AddressingMode::NoneAddressing }),
        0x09 => Some(OpCode { addr: 0x09, code: Mnemonic::ORA, bytes: 2, cycles: 2, addressing_mode: AddressingMode::Immediate }),
        0x0A => Some(OpCode { addr: 0x0A, code: Mnemonic::ASL, bytes: 1, cycles: 2, addressing_mode: AddressingMode::NoneAddressing }),
        0x0D => Some(OpCode { addr: 0x0D, code: Mnemonic::ORA, bytes: 3, cycles: 4, addressing_mode: AddressingMode::Absolute }),
        0x0E => Some(OpCode { addr: 0x0E, code: Mnemonic::ASL, bytes: 3, cycles: 6, addressing_mode: AddressingMode::Absolute }),
        0x10 => Some(OpCode { addr: 0x10, code: Mnemonic::BPL, bytes: 2, cycles: 2, addressing_mode: AddressingMode::NoneAddressing }),
        0x11 => Some(OpCode { addr: 0x11, code: Mnemonic::ORA, bytes: 2, cycles: 5, addressing_mode: AddressingMode::Indirect_Y }),
        0x15 => Some(OpCode { addr: 0x15, code: Mnemonic::ORA, bytes: 2, cycles: 4, addressing_mode: AddressingMode::ZeroPage_X }),
        0x16 => Some(OpCode { addr: 0x16, code: Mnemonic::ASL, bytes: 2, cycles: 6, addressing_mode: AddressingMode::ZeroPage_X }),
        0x18 => Some(OpCode { addr: 0x18, code: Mnemonic::CLC, bytes: 1, cycles: 2, addressing_mode: AddressingMode::NoneAddressing }),
        0x19 => Some(OpCode { addr: 0x19, code: Mnemonic::ORA, bytes: 3, cycles: 4, addressing_mode: AddressingMode::Absolute_Y }),
        0x1D => Some(OpCode { addr: 0x1D, code: Mnemonic::ORA, bytes: 3, cycles: 4, addressing_mode: AddressingMode::Absolute_X }),
        0x1E => Some(OpCode { addr: 0x1E, code: Mnemonic::ASL, bytes: 3, cycles: 7, addressing_mode: AddressingMode::Absolute_X }),
        0x20 => Some(OpCode { addr: 0x20, code: Mnemonic::JSR, bytes: 3, cycles: 6, addressing_mode: AddressingMode::Absolute }),
        0x21 => Some(OpCode { addr: 0x21, code: Mnemonic::AND, bytes: 2, cycles: 6, addressing_mode: AddressingMode::Indirect_X }),
        0x24 => Some(OpCode { addr: 0x24, code: Mnemonic::BIT, bytes: 2, cycles: 3, addressing_mode: AddressingMode::ZeroPage }),
        0x25 => Some(OpCode { addr: 0x25, code: Mnemonic::AND, bytes: 2, cycles: 3, addressing_mode: AddressingMode::ZeroPage }),
        0x26 => Some(OpCode { addr: 0x26, code: Mnemonic::ROL, bytes: 2, cycles: 5, addressing_mode: AddressingMode::ZeroPage }),
        0x28 => Some(OpCode { addr: 0x28, code: Mnemonic::PLP, bytes: 1, cycles: 4, addressing_mode: AddressingMode::NoneAddressing }),
        0x29 => Some(OpCode { addr: 0x29, code: Mnemonic::AND, bytes: 2, cycles: 2, addressing_mode: AddressingMode::Immediate }),
        0x2A => Some(OpCode { addr: 0x2A, code: Mnemonic::ROL, bytes: 1, cycles: 2, addressing_mode: AddressingMode::NoneAddressing }),
        0x2C => Some(OpCode { addr: 0x2C, code: Mnemonic::BIT, bytes: 3, cycles: 4, addressing_mode: AddressingMode::Absolute }),
        0x2D => Some(OpCode { addr: 0x2D, code: Mnemonic::AND, bytes: 3, cycles: 4, addressing_mode: AddressingMode::Absolute }),
        0x2E => Some(OpCode { addr: 0x2E, code: Mnemonic::ROL, bytes: 3, cycles: 6, addressing_mode: AddressingMode::Absolute }),
        0x30 => Some(OpCode { addr: 0x30, code: Mnemonic::BMI, bytes: 2, cycles: 2, addressing_mode: AddressingMode::NoneAddressing }),
        0x31 => Some(OpCode { addr: 0x31, code: Mnemonic::AND, bytes: 2, cycles: 5, addressing_mode: AddressingMode::Indirect_Y }),
        0x35 => Some(OpCode { addr: 0x35, code: Mnemonic::AND, bytes: 2, cycles: 4, addressing_mode: AddressingMode::ZeroPage_X }),
        0x36 => Some(OpCode { addr: 0x36, code: Mnemonic::ROL, bytes: 2, cycles: 6, addressing_mode: AddressingMode::ZeroPage_X }),
        0x38 => Some(OpCode { addr: 0x38, code: Mnemonic::SEC, bytes: 1, cycles: 2, addressing_mode: AddressingMode::NoneAddressing }),
        0x39 => Some(OpCode { addr: 0x39, code: Mnemonic::AND, bytes: 3, cycles: 4, addressing_mode: AddressingMode::Absolute_Y }),
        0x3D => Some(OpCode { addr: 0x3D, code: Mnemonic::AND, bytes: 3, cycles: 4, addressing_mode: AddressingMode::Absolute_X }),
        0x3E => Some(OpCode { addr: 0x3E, code: Mnemonic::ROL, bytes: 3, cycles: 7, addressing_mode: AddressingMode::Absolute_X }),
        0x40 => Some(OpCode { addr: 0x40, code: Mnemonic::RTI, bytes: 1, cycles: 6, addressing_mode: AddressingMode::NoneAddressing }),
        0x41 => Some(OpCode { addr: 0x41, code: Mnemonic::EOR, bytes: 2, cycles: 6, addressing_mode: AddressingMode::Indirect_X }),
        0x45 => Some(OpCode { addr: 0x45, code: Mnemonic::EOR, bytes: 2, cycles: 3, addressing_mode: AddressingMode::ZeroPage }),
        0x46 => Some(OpCode { addr: 0x46, code: Mnemonic::LSR, bytes: 2, cycles: 5, addressing_mode: AddressingMode::ZeroPage }),
        0x48 => Some(OpCode { addr: 0x48, code: Mnemonic::PHA, bytes: 1, cycles: 3, addressing_mode: AddressingMode::NoneAddressing }),
        0x49 => Some(OpCode { addr: 0x49, code: Mnemonic::EOR, bytes: 2, cycles: 2, addressing_mode: AddressingMode::Immediate }),
        0x4A => Some(OpCode { addr: 0x4A, code: Mnemonic::LSR, bytes: 1, cycles: 2, addressing_mode: AddressingMode::NoneAddressing }),
        0x4C => Some(OpCode { addr: 0x4C, code: Mnemonic::JMP, bytes: 3, cycles: 3, addressing_mode: AddressingMode::Immediate }),
        0x4D => Some(OpCode { addr: 0x4D, code: Mnemonic::EOR, bytes: 3, cycles: 4, addressing_mode: AddressingMode::Absolute }),
        0x4E => Some(OpCode { addr: 0x4E, code: Mnemonic::LSR, bytes: 3, cycles: 6, addressing_mode: AddressingMode::Absolute }),
        0x50 => Some(OpCode { addr: 0x50, code: Mnemonic::BVC, bytes: 2, cycles: 2, addressing_mode: AddressingMode::NoneAddressing }),
        0x51 => Some(OpCode { addr: 0x51, code: Mnemonic::EOR, bytes: 2, cycles: 5, addressing_mode: AddressingMode::Indirect_Y }),
        0x55 => Some(OpCode { addr: 0x55, code: Mnemonic::EOR, bytes: 2, cycles: 4, addressing_mode: AddressingMode::ZeroPage_X }),
        0x56 => Some(OpCode { addr: 0x56, code: Mnemonic::LSR, bytes: 2, cycles: 6, addressing_mode: AddressingMode::ZeroPage_X }),
        0x58 => Some(OpCode { addr: 0x58, code: Mnemonic::CLI, bytes: 1, cycles: 2, addressing_mode: AddressingMode::NoneAddressing }),
        0x59 => Some(OpCode { addr: 0x59, code: Mnemonic::EOR, bytes: 3, cycles: 4, addressing_mode: AddressingMode::Absolute_Y }),
        0x5D => Some(OpCode { addr: 0x5D, code: Mnemonic::EOR, bytes: 3, cycles: 4, addressing_mode: AddressingMode::Absolute_X }),
        0x5E => Some(OpCode { addr: 0x5E, code: Mnemonic::LSR, bytes: 3, cycles: 7, addressing_mode: AddressingMode::Absolute_X }),
        0x60 => Some(OpCode { addr: 0x60, code: Mnemonic::RTS, bytes: 1, cycles: 6, addressing_mode: AddressingMode::NoneAddressing }),
        0x61 => Some(OpCode { addr: 0x61, code: Mnemonic::ADC, bytes: 2, cycles: 6, addressing_mode: AddressingMode::Indirect_X }),
        0x65 => Some(OpCode { addr: 0x65, code: Mnemonic::ADC, bytes: 2, cycles: 3, addressing_mode: AddressingMode::ZeroPage }),
        0x66 => Some(OpCode { addr: 0x66, code: Mnemonic::ROR, bytes: 2, cycles: 5, addressing_mode: AddressingMode::ZeroPage }),
        0x68 => Some(OpCode { addr: 0x68, code: Mnemonic::PLA, bytes: 1, cycles: 4, addressing_mode: AddressingMode::NoneAddressing }),
        0x69 => Some(OpCode { addr: 0x69, code: Mnemonic::ADC, bytes: 2, cycles: 2, addressing_mode: AddressingMode::Immediate }),
        0x6A => Some(OpCode { addr: 0x6A, code: Mnemonic::ROR, bytes: 1, cycles: 2, addressing_mode: AddressingMode::NoneAddressing }),
        0x6C => Some(OpCode { addr: 0x6C, code: Mnemonic::JMP, bytes: 3, cycles: 5, addressing_mode: AddressingMode::Absolute }),
        0x6D => Some(OpCode { addr: 0x6D, code: Mnemonic::ADC, bytes: 3, cycles: 4, addressing_mode: AddressingMode::Absolute }),
        0x6E => Some(OpCode { addr: 0x6E, code: Mnemonic::ROR, bytes: 3, cycles: 6, addressing_mode: AddressingMode::Absolute }),
        0x70 => Some(OpCode { addr: 0x70, code: Mnemonic::BVS, bytes: 2, cycles: 2, addressing_mode: AddressingMode::NoneAddressing }),
        0x71 => Some(OpCode { addr: 0x71, code: Mnemonic::ADC, bytes: 2, cycles: 5, addressing_mode: AddressingMode::Indirect_Y }),
        0x75 => Some(OpCode { addr: 0x75, code: Mnemonic::ADC, bytes: 2, cycles: 4, addressing_mode: AddressingMode::ZeroPage_X }),
        0x76 => Some(OpCode { addr: 0x76, code: Mnemonic::ROR, bytes: 2, cycles: 6, addressing_mode: AddressingMode::ZeroPage_X }),
        0x78 => Some(OpCode { addr: 0x78, code: Mnemonic::SEI, bytes: 1, cycles: 2, addressing_mode: AddressingMode::NoneAddressing }),
        0x79 => Some(OpCode { addr: 0x79, code: Mnemonic::ADC, bytes: 3, cycles: 4, addressing_mode: AddressingMode::Absolute_Y }),
        0x7D => Some(OpCode { addr: 0x7D, code: Mnemonic::ADC, bytes: 3, cycles: 4, addressing_mode: AddressingMode::Absolute_X }),
        0x7E => Some(OpCode { addr: 0x7E, code: Mnemonic::ROR, bytes: 3, cycles: 7, addressing_mode: AddressingMode::Absolute_X }),
        0x81 => Some(OpCode { addr: 0x81, code: Mnemonic::STA, bytes: 2, cycles: 6, addressing_mode: AddressingMode::Indirect_X }),
        0x84 => Some(OpCode { addr: 0x84, code: Mnemonic::STY, bytes: 2, cycles: 3, addressing_mode: AddressingMode::ZeroPage }),
        0x85 => Some(OpCode { addr: 0x85, code: Mnemonic::STA, bytes: 2, cycles: 3, addressing_mode: AddressingMode::ZeroPage }),
        0x86 => Some(OpCode { addr: 0x86, code: Mnemonic::STX, bytes: 2, cycles: 3, addressing_mode: AddressingMode::ZeroPage }),
        0x88 => Some(OpCode { addr: 0x88, code: Mnemonic::DEY, bytes: 1, cycles: 2, addressing_mode: AddressingMode::NoneAddressing }),
        0x8A => Some(OpCode { addr: 0x8A, code: Mnemonic::TXA, bytes: 1, cycles: 2, addressing_mode: AddressingMode::NoneAddressing }),
        0x8C => Some(OpCode { addr: 0x8C, code: Mnemonic::STY, bytes: 3, cycles: 4, addressing_mode: AddressingMode::Absolute }),
        0x8D => Some(OpCode { addr: 0x8D, code: Mnemonic::STA, bytes: 3, cycles: 4, addressing_mode: AddressingMode::Absolute }),
        0x8E => Some(OpCode { addr: 0x8E, code: Mnemonic::STX, bytes: 3, cycles: 4, addressing_mode: AddressingMode::Absolute }),
        0x90 => Some(OpCode { addr: 0x90, code: Mnemonic::BCC, bytes: 2, cycles: 2, addressing_mode: AddressingMode::NoneAddressing }),
        0x91 => Some(OpCode { addr: 0x91, code: Mnemonic::STA, bytes: 2, cycles: 5, addressing_mode: AddressingMode::Indirect_Y }),
        0x94 => Some(OpCode { addr: 0x94, code: Mnemonic::STY, bytes: 2, cycles: 4, addressing_mode: AddressingMode::ZeroPage_X }),
        0x95 => Some(OpCode { addr: 0x95, code: Mnemonic::STA, bytes: 2, cycles: 4, addressing_mode: AddressingMode::ZeroPage_X }),
        0x96 => Some(OpCode { addr: 0x96, code: Mnemonic::STX, bytes: 2, cycles: 4, addressing_mode: AddressingMode::ZeroPage_Y }),
        0x98 => Some(OpCode { addr: 0x98, code: Mnemonic::TYA, bytes: 1, cycles: 2, addressing_mode: AddressingMode::NoneAddressing }),
        0x99 => Some(OpCode { addr: 0x99, code: Mnemonic::STA, bytes: 3, cycles: 4, addressing_mode: AddressingMode::Absolute_Y }),
        0x9A => Some(OpCode { addr: 0x9A, code: Mnemonic::TXS, bytes: 1, cycles: 2, addressing_mode: AddressingMode::NoneAddressing }),
        0x9D => Some(OpCode { addr: 0x9D, code: Mnemonic::STA, bytes: 3, cycles: 4, addressing_mode: AddressingMode::Absolute_X }),
        0xA0 => Some(OpCode { addr: 0xA0, code: Mnemonic::LDY, bytes: 2, cycles: 2, addressing_mode: AddressingMode::Immediate }),
        0xA1 => Some(OpCode { addr: 0xA1, code: Mnemonic::LDA, bytes: 2, cycles: 6, addressing_mode: AddressingMode::Indirect_X }),
        0xA2 => Some(OpCode { addr: 0xA2, code: Mnemonic::LDX, bytes: 2, cycles: 2, addressing_mode: AddressingMode::Immediate }),
        0xA4 => Some(OpCode { addr: 0xA4, code: Mnemonic::LDY, bytes: 2, cycles: 3, addressing_mode: AddressingMode::ZeroPage }),
        0xA5 => Some(OpCode { addr: 0xA5, code: Mnemonic::LDA, bytes: 2, cycles: 3, addressing_mode: AddressingMode::ZeroPage }),
        0xA6 => Some(OpCode { addr: 0xA6, code: Mnemonic::LDX, bytes: 2, cycles: 3, addressing_mode: AddressingMode::ZeroPage }),
        0xA8 => Some(OpCode { addr: 0xA8, code: Mnemonic::TAY, bytes: 1, cycles: 2, addressing_mode: AddressingMode::NoneAddressing }),
        0xA9 => Some(OpCode { addr: 0xA9, code: Mnemonic::LDA, bytes: 2, cycles: 2, addressing_mode: AddressingMode::Immediate }),
        0xAA => Some(OpCode { addr: 0xAA, code: Mnemonic::TAX, bytes: 1, cycles: 2, addressing_mode: AddressingMode::NoneAddressing }),
        0xAC => Some(OpCode { addr: 0xAC, code: Mnemonic::LDY, bytes: 3, cycles: 4, addressing_mode: AddressingMode::Absolute }),
        0xAD => Some(OpCode { addr: 0xAD, code: Mnemonic::LDA, bytes: 3, cycles: 4, addressing_mode: AddressingMode::Absolute }),
        0xAE => Some(OpCode { addr: 0xAE, code: Mnemonic::LDX, bytes: 3, cycles: 4, addressing_mode: AddressingMode::Absolute }),
        0xB0 => Some(OpCode { addr: 0xB0, code: Mnemonic::BCS, bytes: 2, cycles: 2, addressing_mode: AddressingMode::NoneAddressing }),
        0xB1 => Some(OpCode { addr: 0xB1, code: Mnemonic::LDA, bytes: 2, cycles: 5, addressing_mode: AddressingMode::Indirect_Y }),
        0xB4 => Some(OpCode { addr: 0xB4, code: Mnemonic::LDY, bytes: 2, cycles: 4, addressing_mode: AddressingMode::ZeroPage_X }),
        0xB5 => Some(OpCode { addr: 0xB5, code: Mnemonic::LDA, bytes: 2, cycles: 4, addressing_mode: AddressingMode::ZeroPage_X }),
        0xB6 => Some(OpCode { addr: 0xB6, code: Mnemonic::LDX, bytes: 2, cycles: 4, addressing_mode: AddressingMode::ZeroPage_Y }),
        0xB8 => Some(OpCode { addr: 0xB8, code: Mnemonic::CLV, bytes: 1, cycles: 2, addressing_mode: AddressingMode::NoneAddressing }),
        0xB9 => Some(OpCode { addr: 0xB9, code: Mnemonic::LDA, bytes: 3, cycles: 4, addressing_mode: AddressingMode::Absolute_Y }),
        0xBA => Some(OpCode { addr: 0xBA, code: Mnemonic::TSX, bytes: 1, cycles: 2, addressing_mode: AddressingMode::NoneAddressing }),
        0xBC => Some(OpCode { addr: 0xBC, code: Mnemonic::LDY, bytes: 3, cycles: 4, addressing_mode: AddressingMode::Absolute_X }),
        0xBD => Some(OpCode { addr: 0xBD, code: Mnemonic::LDA, bytes: 3, cycles: 4, addressing_mode: AddressingMode::Absolute_X }),
        0xBE => Some(OpCode { addr: 0xBE, code: Mnemonic::LDX, bytes: 3, cycles: 4, addressing_mode: AddressingMode::Absolute_Y }),
        0xC0 => Some(OpCode { addr: 0xC0, code: Mnemonic::CPY, bytes: 2, cycles: 2, addressing_mode: AddressingMode::Immediate }),
        0xC1 => Some(OpCode { addr: 0xC1, code: Mnemonic::CMP, bytes: 2, cycles: 6, addressing_mode: AddressingMode::Indirect_X }),
        0xC4 => Some(OpCode { addr: 0xC4, code: Mnemonic::CPY, bytes: 2, cycles: 3, addressing_mode: AddressingMode::ZeroPage }),
        0xC5 => Some(OpCode { addr: 0xC5, code: Mnemonic::CMP, bytes: 2, cycles: 3, addressing_mode: AddressingMode::ZeroPage }),
        0xC6 => Some(OpCode { addr: 0xC6, code: Mnemonic::DEC, bytes: 2, cycles: 5, addressing_mode: AddressingMode::ZeroPage }),
        0xC8 => Some(OpCode { addr: 0xC8, code: Mnemonic::INY, bytes: 1, cycles: 2, addressing_mode: AddressingMode::NoneAddressing }),
        0xC9 => Some(OpCode { addr: 0xC9, code: Mnemonic::CMP, bytes: 2, cycles: 2, addressing_mode: AddressingMode::Immediate }),
        0xCA => Some(OpCode { addr: 0xCA, code: Mnemonic::DEX, bytes: 1, cycles: 2, addressing_mode: AddressingMode::NoneAddressing }),
        0xCC => Some(OpCode { addr: 0xCC, code: Mnemonic::CPY, bytes: 3, cycles: 4, addressing_mode: AddressingMode::Absolute }),
        0xCD => Some(OpCode { addr: 0xCD, code: Mnemonic::CMP, bytes: 3, cycles: 4, addressing_mode: AddressingMode::Absolute }),
        0xCE => Some(OpCode { addr: 0xCE, code: Mnemonic::DEC, bytes: 3, cycles: 6, addressing_mode: AddressingMode::Absolute }),
        0xD0 => Some(OpCode { addr: 0xD0, code: Mnemonic::BNE, bytes: 2, cycles: 2, addressing_mode: AddressingMode::NoneAddressing }),
        0xD1 => Some(OpCode { addr: 0xD1, code: Mnemonic::CMP, bytes: 2, cycles: 5, addressing_mode: AddressingMode::Indirect_Y }),
        0xD5 => Some(OpCode { addr: 0xD5, code: Mnemonic::CMP, bytes: 2, cycles: 4, addressing_mode: AddressingMode::ZeroPage_X }),
        0xD6 => Some(OpCode { addr: 0xD6, code: Mnemonic::DEC, bytes: 2, cycles: 6, addressing_mode: AddressingMode::ZeroPage_X }),
        0xD8 => Some(OpCode { addr: 0xD8, code: Mnemonic::CLD, bytes: 1, cycles: 2, addressing_mode: AddressingMode::NoneAddressing }),
        0xD9 => Some(OpCode { addr: 0xD9, code: Mnemonic::CMP, bytes: 3, cycles: 4, addressing_mode: AddressingMode::Absolute_Y }),
        0xDD => Some(OpCode { addr: 0xDD, code: Mnemonic::CMP, bytes: 3, cycles: 4, addressing_mode: AddressingMode::Absolute_X }),
        0xDE => Some(OpCode { addr: 0xDE, code: Mnemonic::DEC, bytes: 3, cycles: 7, addressing_mode: AddressingMode::Absolute_X }),
        0xE0 => Some(OpCode { addr: 0xE0, code: Mnemonic::CPX, bytes: 2, cycles: 2, addressing_mode: AddressingMode::Immediate }),
        0xE1 => Some(OpCode { addr: 0xE1, code: Mnemonic::SBC, bytes: 2, cycles: 6, addressing_mode: AddressingMode::Indirect_X }),
        0xE4 => Some(OpCode { addr: 0xE4, code: Mnemonic::CPX, bytes: 2, cycles: 3, addressing_mode: AddressingMode::ZeroPage }),
        0xE5 => Some(OpCode { addr: 0xE5, code: Mnemonic::SBC, bytes: 2, cycles: 3, addressing_mode: AddressingMode::ZeroPage }),
        0xE6 => Some(OpCode { addr: 0xE6, code: Mnemonic::INC, bytes: 2, cycles: 5, addressing_mode: AddressingMode::ZeroPage }),
        0xE8 => Some(OpCode { addr: 0xE8, code: Mnemonic::INX, bytes: 1, cycles: 2, addressing_mode: AddressingMode::NoneAddressing }),
        0xE9 => Some(OpCode { addr: 0xE9, code: Mnemonic::SBC, bytes: 2, cycles: 2, addressing_mode: AddressingMode::Immediate }),
        0xEA => Some(OpCode { addr: 0xEA, code: Mnemonic::NOP, bytes: 1, cycles: 2, addressing_mode: AddressingMode::NoneAddressing }),
        0xEC => Some(OpCode { addr: 0xEC, code: Mnemonic::CPX, bytes: 3, cycles: 4, addressing_mode: AddressingMode::Absolute }),
        0xED => Some(OpCode { addr: 0xED, code: Mnemonic::SBC, bytes: 3, cycles: 4, addressing_mode: AddressingMode::Absolute }),
        0xEE => Some(OpCode { addr: 0xEE, code: Mnemonic::INC, bytes: 3, cycles: 6, addressing_mode: AddressingMode::Absolute }),
        0xF0 => Some(OpCode { addr: 0xF0, code: Mnemonic::BEQ, bytes: 2, cycles: 2, addressing_mode: AddressingMode::NoneAddressing }),
        0xF1 => Some(OpCode { addr: 0xF1, code: Mnemonic::SBC, bytes: 2, cycles: 5, addressing_mode: AddressingMode::Indirect_Y }),
        0xF5 => Some(OpCode { addr: 0xF5, code: Mnemonic::SBC, bytes: 2, cycles: 4, addressing_mode: AddressingMode::ZeroPage_X }),
        0xF6 => Some(OpCode { addr: 0xF6, code: Mnemonic::INC, bytes: 2, cycles: 6, addressing_mode: AddressingMode::ZeroPage_X }),
        0xF8 => Some(OpCode { addr: 0xF8, code: Mnemonic::SED, bytes: 1, cycles: 2, addressing_mode: AddressingMode::NoneAddressing }),
        0xF9 => Some(OpCode { addr: 0xF9, code: Mnemonic::SBC, bytes: 3, cycles: 4, addressing_mode: AddressingMode::Absolute_Y }),
        0xFD => Some(OpCode { addr: 0xFD, code: Mnemonic::SBC, bytes: 3, cycles: 4, addressing_mode: AddressingMode::Absolute_X }),
        0xFE => Some(OpCode { addr: 0xFE, code: Mnemonic::INC, bytes: 3, cycles: 7, addressing_mode: AddressingMode::Absolute_X }),
        _ => None,
    }
}

/// The table lookup, executable form.
pub fn opcode_lookup(op: u8) -> (r: Option<OpCode>)
    ensures
        r == spec_opcode(op),
{
    match op {
        0x00 => Some(OpCode { addr: 0x00, code: Mnemonic::BRK, bytes: 1, cycles: 7, addressing_mode: AddressingMode::NoneAddressing }),
        0x01 => Some(OpCode { addr: 0x01, code: Mnemonic::ORA, bytes: 2, cycles: 6, addressing_mode: AddressingMode::Indirect_X }),
        0x05 => Some(OpCode { addr: 0x05, code: Mnemonic::ORA, bytes: 2, cycles: 3, addressing_mode: AddressingMode::ZeroPage }),
        0x06 => Some(OpCode { addr: 0x06, code: Mnemonic::ASL, bytes: 2, cycles: 5, addressing_mode: AddressingMode::ZeroPage }),
        0x08 => Some(OpCode { addr: 0x08, code: Mnemonic::PHP, bytes: 1, cycles: 3, addressing_mode: AddressingMode::NoneAddressing }),
        0x09 => Some(OpCode { addr: 0x09, code: Mnemonic::ORA, bytes: 2, cycles: 2, addressing_mode: AddressingMode::Immediate }),
        0x0A => Some(OpCode { addr: 0x0A, code: Mnemonic::ASL, bytes: 1, cycles: 2, addressing_mode: AddressingMode::NoneAddressing }),
        0x0D => Some(OpCode { addr: 0x0D, code: Mnemonic::ORA, bytes: 3, cycles: 4, addressing_mode: AddressingMode::Absolute }),
        0x0E => Some(OpCode { addr: 0x0E, code: Mnemonic::ASL, bytes: 3, cycles: 6, addressing_mode: AddressingMode::Absolute }),
        0x10 => Some(OpCode { addr: 0x10, code: Mnemonic::BPL, bytes: 2, cycles: 2, addressing_mode: AddressingMode::NoneAddressing }),
        0x11 => Some(OpCode { addr: 0x11, code: Mnemonic::ORA, bytes: 2, cycles: 5, addressing_mode: AddressingMode::Indirect_Y }),
        0x15 => Some(OpCode { addr: 0x15, code: Mnemonic::ORA, bytes: 2, cycles: 4, addressing_mode: AddressingMode::ZeroPage_X }),
        0x16 => Some(OpCode { addr: 0x16, code: Mnemonic::ASL, bytes: 2, cycles: 6, addressing_mode: AddressingMode::ZeroPage_X }),
        0x18 => Some(OpCode { addr: 0x18, code: Mnemonic::CLC, bytes: 1, cycles: 2, addressing_mode: AddressingMode::NoneAddressing }),
        0x19 => Some(OpCode { addr: 0x19, code: Mnemonic::ORA, bytes: 3, cycles: 4, addressing_mode: AddressingMode::Absolute_Y }),
        0x1D => Some(OpCode { addr: 0x1D, code: Mnemonic::ORA, bytes: 3, cycles: 4, addressing_mode: AddressingMode::Absolute_X }),
        0x1E => Some(OpCode { addr: 0x1E, code: Mnemonic::ASL, bytes: 3, cycles: 7, addressing_mode: AddressingMode::Absolute_X }),
        0x20 => Some(OpCode { addr: 0x20, code: Mnemonic::JSR, bytes: 3, cycles: 6, addressing_mode: AddressingMode::Absolute }),
        0x21 => Some(OpCode { addr: 0x21, code: Mnemonic::AND, bytes: 2, cycles: 6, addressing_mode: AddressingMode::Indirect_X }),
        0x24 => Some(OpCode { addr: 0x24, code: Mnemonic::BIT, bytes: 2, cycles: 3, addressing_mode: AddressingMode::ZeroPage }),
        0x25 => Some(OpCode { addr: 0x25, code: Mnemonic::AND, bytes: 2, cycles: 3, addressing_mode: AddressingMode::ZeroPage }),
        0x26 => Some(OpCode { addr: 0x26, code: Mnemonic::ROL, bytes: 2, cycles: 5, addressing_mode: AddressingMode::ZeroPage }),
        0x28 => Some(OpCode { addr: 0x28, code: Mnemonic::PLP, bytes: 1, cycles: 4, addressing_mode: AddressingMode::NoneAddressing }),
        0x29 => Some(OpCode { addr: 0x29, code: Mnemonic::AND, bytes: 2, cycles: 2, addressing_mode: AddressingMode::Immediate }),
        0x2A => Some(OpCode { addr: 0x2A, code: Mnemonic::ROL, bytes: 1, cycles: 2, addressing_mode: AddressingMode::NoneAddressing }),
        0x2C => Some(OpCode { addr: 0x2C, code: Mnemonic::BIT, bytes: 3, cycles: 4, addressing_mode: AddressingMode::Absolute }),
        0x2D => Some(OpCode { addr: 0x2D, code: Mnemonic::AND, bytes: 3, cycles: 4, addressing_mode: AddressingMode::Absolute }),
        0x2E => Some(OpCode { addr: 0x2E, code: Mnemonic::ROL, bytes: 3, cycles: 6, addressing_mode: AddressingMode::Absolute }),
        0x30 => Some(OpCode { addr: 0x30, code: Mnemonic::BMI, bytes: 2, cycles: 2, addressing_mode: AddressingMode::NoneAddressing }),
        0x31 => Some(OpCode { addr: 0x31, code: Mnemonic::AND, bytes: 2, cycles: 5, addressing_mode: AddressingMode::Indirect_Y }),
        0x35 => Some(OpCode { addr: 0x35, code: Mnemonic::AND, bytes: 2, cycles: 4, addressing_mode: AddressingMode::ZeroPage_X }),
        0x36 => Some(OpCode { addr: 0x36, code: Mnemonic::ROL, bytes: 2, cycles: 6, addressing_mode: AddressingMode::ZeroPage_X }),
        0x38 => Some(OpCode { addr: 0x38, code: Mnemonic::SEC, bytes: 1, cycles: 2, addressing_mode: AddressingMode::NoneAddressing }),
        0x39 => Some(OpCode { addr: 0x39, code: Mnemonic::AND, bytes: 3, cycles: 4, addressing_mode: AddressingMode::Absolute_Y }),
        0x3D => Some(OpCode { addr: 0x3D, code: Mnemonic::AND, bytes: 3, cycles: 4, addressing_mode: AddressingMode::Absolute_X }),
        0x3E => Some(OpCode { addr: 0x3E, code: Mnemonic::ROL, bytes: 3, cycles: 7, addressing_mode: AddressingMode::Absolute_X }),
        0x40 => Some(OpCode { addr: 0x40, code: Mnemonic::RTI, bytes: 1, cycles: 6, addressing_mode: AddressingMode::NoneAddressing }),
        0x41 => Some(OpCode { addr: 0x41, code: Mnemonic::EOR, bytes: 2, cycles: 6, addressing_mode: AddressingMode::Indirect_X }),
        0x45 => Some(OpCode { addr: 0x45, code: Mnemonic::EOR, bytes: 2, cycles: 3, addressing_mode: AddressingMode::ZeroPage }),
        0x46 => Some(OpCode { addr: 0x46, code: Mnemonic::LSR, bytes: 2, cycles: 5, addressing_mode: AddressingMode::ZeroPage }),
        0x48 => Some(OpCode { addr: 0x48, code: Mnemonic::PHA, bytes: 1, cycles: 3, addressing_mode: AddressingMode::NoneAddressing }),
        0x49 => Some(OpCode { addr: 0x49, code: Mnemonic::EOR, bytes: 2, cycles: 2, addressing_mode: AddressingMode::Immediate }),
        0x4A => Some(OpCode { addr: 0x4A, code: Mnemonic::LSR, bytes: 1, cycles: 2, addressing_mode: AddressingMode::NoneAddressing }),
        0x4C => Some(OpCode { addr: 0x4C, code: Mnemonic::JMP, bytes: 3, cycles: 3, addressing_mode: AddressingMode::Immediate }),
        0x4D => Some(OpCode { addr: 0x4D, code: Mnemonic::EOR, bytes: 3, cycles: 4, addressing_mode: AddressingMode::Absolute }),
        0x4E => Some(OpCode { addr: 0x4E, code: Mnemonic::LSR, bytes: 3, cycles: 6, addressing_mode: AddressingMode::Absolute }),
        0x50 => Some(OpCode { addr: 0x50, code: Mnemonic::BVC, bytes: 2, cycles: 2, addressing_mode: AddressingMode::NoneAddressing }),
        0x51 => Some(OpCode { addr: 0x51, code: Mnemonic::EOR, bytes: 2, cycles: 5, addressing_mode: AddressingMode::Indirect_Y }),
        0x55 => Some(OpCode { addr: 0x55, code: Mnemonic::EOR, bytes: 2, cycles: 4, addressing_mode: AddressingMode::ZeroPage_X }),
        0x56 => Some(OpCode { addr: 0x56, code: Mnemonic::LSR, bytes: 2, cycles: 6, addressing_mode: AddressingMode::ZeroPage_X }),
        0x58 => Some(OpCode { addr: 0x58, code: Mnemonic::CLI, bytes: 1, cycles: 2, addressing_mode: AddressingMode::NoneAddressing }),
        0x59 => Some(OpCode { addr: 0x59, code: Mnemonic::EOR, bytes: 3, cycles: 4, addressing_mode: AddressingMode::Absolute_Y }),
        0x5D => Some(OpCode { addr: 0x5D, code: Mnemonic::EOR, bytes: 3, cycles: 4, addressing_mode: AddressingMode::Absolute_X }),
        0x5E => Some(OpCode { addr: 0x5E, code: Mnemonic::LSR, bytes: 3, cycles: 7, addressing_mode: AddressingMode::Absolute_X }),
        0x60 => Some(OpCode { addr: 0x60, code: Mnemonic::RTS, bytes: 1, cycles: 6, addressing_mode: AddressingMode::NoneAddressing }),
        0x61 => Some(OpCode { addr: 0x61, code: Mnemonic::ADC, bytes: 2, cycles: 6, addressing_mode: AddressingMode::Indirect_X }),
        0x65 => Some(OpCode { addr: 0x65, code: Mnemonic::ADC, bytes: 2, cycles: 3, addressing_mode: AddressingMode::ZeroPage }),
        0x66 => Some(OpCode { addr: 0x66, code: Mnemonic::ROR, bytes: 2, cycles: 5, addressing_mode: AddressingMode::ZeroPage }),
        0x68 => Some(OpCode { addr: 0x68, code: Mnemonic::PLA, bytes: 1, cycles: 4, addressing_mode: AddressingMode::NoneAddressing }),
        0x69 => Some(OpCode { addr: 0x69, code: Mnemonic::ADC, bytes: 2, cycles: 2, addressing_mode: AddressingMode::Immediate }),
        0x6A => Some(OpCode { addr: 0x6A, code: Mnemonic::ROR, bytes: 1, cycles: 2, addressing_mode: AddressingMode::NoneAddressing }),
        0x6C => Some(OpCode { addr: 0x6C, code: Mnemonic::JMP, bytes: 3, cycles: 5, addressing_mode: AddressingMode::Absolute }),
        0x6D => Some(OpCode { addr: 0x6D, code: Mnemonic::ADC, bytes: 3, cycles: 4, addressing_mode: AddressingMode::Absolute }),
        0x6E => Some(OpCode { addr: 0x6E, code: Mnemonic::ROR, bytes: 3, cycles: 6, addressing_mode: AddressingMode::Absolute }),
        0x70 => Some(OpCode { addr: 0x70, code: Mnemonic::BVS, bytes: 2, cycles: 2, addressing_mode: AddressingMode::NoneAddressing }),
        0x71 => Some(OpCode { addr: 0x71, code: Mnemonic::ADC, bytes: 2, cycles: 5, addressing_mode: AddressingMode::Indirect_Y }),
        0x75 => Some(OpCode { addr: 0x75, code: Mnemonic::ADC, bytes: 2, cycles: 4, addressing_mode: AddressingMode::ZeroPage_X }),
        0x76 => Some(OpCode { addr: 0x76, code: Mnemonic::ROR, bytes: 2, cycles: 6, addressing_mode: AddressingMode::ZeroPage_X }),
        0x78 => Some(OpCode { addr: 0x78, code: Mnemonic::SEI, bytes: 1, cycles: 2, addressing_mode: AddressingMode::NoneAddressing }),
        0x79 => Some(OpCode { addr: 0x79, code: Mnemonic::ADC, bytes: 3, cycles: 4, addressing_mode: AddressingMode::Absolute_Y }),
        0x7D => Some(OpCode { addr: 0x7D, code: Mnemonic::ADC, bytes: 3, cycles: 4, addressing_mode: AddressingMode::Absolute_X }),
        0x7E => Some(OpCode { addr: 0x7E, code: Mnemonic::ROR, bytes: 3, cycles: 7, addressing_mode: AddressingMode::Absolute_X }),
        0x81 => Some(OpCode { addr: 0x81, code: Mnemonic::STA, bytes: 2, cycles: 6, addressing_mode: AddressingMode::Indirect_X }),
        0x84 => Some(OpCode { addr: 0x84, code: Mnemonic::STY, bytes: 2, cycles: 3, addressing_mode: AddressingMode::ZeroPage }),
        0x85 => Some(OpCode { addr: 0x85, code: Mnemonic::STA, bytes: 2, cycles: 3, addressing_mode: AddressingMode::ZeroPage }),
        0x86 => Some(OpCode { addr: 0x86, code: Mnemonic::STX, bytes: 2, cycles: 3, addressing_mode: AddressingMode::ZeroPage }),
        0x88 => Some(OpCode { addr: 0x88, code: Mnemonic::DEY, bytes: 1, cycles: 2, addressing_mode: AddressingMode::NoneAddressing }),
        0x8A => Some(OpCode { addr: 0x8A, code: Mnemonic::TXA, bytes: 1, cycles: 2, addressing_mode: AddressingMode::NoneAddressing }),
        0x8C => Some(OpCode { addr: 0x8C, code: Mnemonic::STY, bytes: 3, cycles: 4, addressing_mode: AddressingMode::Absolute }),
        0x8D => Some(OpCode { addr: 0x8D, code: Mnemonic::STA, bytes: 3, cycles: 4, addressing_mode: AddressingMode::Absolute }),
        0x8E => Some(OpCode { addr: 0x8E, code: Mnemonic::STX, bytes: 3, cycles: 4, addressing_mode: AddressingMode::Absolute }),
        0x90 => Some(OpCode { addr: 0x90, code: Mnemonic::BCC, bytes: 2, cycles: 2, addressing_mode: AddressingMode::NoneAddressing }),
        0x91 => Some(OpCode { addr: 0x91, code: Mnemonic::STA, bytes: 2, cycles: 5, addressing_mode: AddressingMode::Indirect_Y }),
        0x94 => Some(OpCode { addr: 0x94, code: Mnemonic::STY, bytes: 2, cycles: 4, addressing_mode: AddressingMode::ZeroPage_X }),
        0x95 => Some(OpCode { addr: 0x95, code: Mnemonic::STA, bytes: 2, cycles: 4, addressing_mode: AddressingMode::ZeroPage_X }),
        0x96 => Some(OpCode { addr: 0x96, code: Mnemonic::STX, bytes: 2, cycles: 4, addressing_mode: AddressingMode::ZeroPage_Y }),
        0x98 => Some(OpCode { addr: 0x98, code: Mnemonic::TYA, bytes: 1, cycles: 2, addressing_mode: AddressingMode::NoneAddressing }),
        0x99 => Some(OpCode { addr: 0x99, code: Mnemonic::STA, bytes: 3, cycles: 4, addressing_mode: AddressingMode::Absolute_Y }),
        0x9A => Some(OpCode { addr: 0x9A, code: Mnemonic::TXS, bytes: 1, cycles: 2, addressing_mode: AddressingMode::NoneAddressing }),
        0x9D => Some(OpCode { addr: 0x9D, code: Mnemonic::STA, bytes: 3, cycles: 4, addressing_mode: AddressingMode::Absolute_X }),
        0xA0 => Some(OpCode { addr: 0xA0, code: Mnemonic::LDY, bytes: 2, cycles: 2, addressing_mode: AddressingMode::Immediate }),
        0xA1 => Some(OpCode { addr: 0xA1, code: Mnemonic::LDA, bytes: 2, cycles: 6, addressing_mode: AddressingMode::Indirect_X }),
        0xA2 => Some(OpCode { addr: 0xA2, code: Mnemonic::LDX, bytes: 2, cycles: 2, addressing_mode: AddressingMode::Immediate }),
        0xA4 => Some(OpCode { addr: 0xA4, code: Mnemonic::LDY, bytes: 2, cycles: 3, addressing_mode: AddressingMode::ZeroPage }),
        0xA5 => Some(OpCode { addr: 0xA5, code: Mnemonic::LDA, bytes: 2, cycles: 3, addressing_mode: AddressingMode::ZeroPage }),
        0xA6 => Some(OpCode { addr: 0xA6, code: Mnemonic::LDX, bytes: 2, cycles: 3, addressing_mode: AddressingMode::ZeroPage }),
        0xA8 => Some(OpCode { addr: 0xA8, code: Mnemonic::TAY, bytes: 1, cycles: 2, addressing_mode: AddressingMode::NoneAddressing }),
        0xA9 => Some(OpCode { addr: 0xA9, code: Mnemonic::LDA, bytes: 2, cycles: 2, addressing_mode: AddressingMode::Immediate }),
        0xAA => Some(OpCode { addr: 0xAA, code: Mnemonic::TAX, bytes: 1, cycles: 2, addressing_mode: AddressingMode::NoneAddressing }),
        0xAC => Some(OpCode { addr: 0xAC, code: Mnemonic::LDY, bytes: 3, cycles: 4, addressing_mode: AddressingMode::Absolute }),
        0xAD => Some(OpCode { addr: 0xAD, code: Mnemonic::LDA, bytes: 3, cycles: 4, addressing_mode: AddressingMode::Absolute }),
        0xAE => Some(OpCode { addr: 0xAE, code: Mnemonic::LDX, bytes: 3, cycles: 4, addressing_mode: AddressingMode::Absolute }),
        0xB0 => Some(OpCode { addr: 0xB0, code: Mnemonic::BCS, bytes: 2, cycles: 2, addressing_mode: AddressingMode::NoneAddressing }),
        0xB1 => Some(OpCode { addr: 0xB1, code: Mnemonic::LDA, bytes: 2, cycles: 5, addressing_mode: AddressingMode::Indirect_Y }),
        0xB4 => Some(OpCode { addr: 0xB4, code: Mnemonic::LDY, bytes: 2, cycles: 4, addressing_mode: AddressingMode::ZeroPage_X }),
        0xB5 => Some(OpCode { addr: 0xB5, code: Mnemonic::LDA, bytes: 2, cycles: 4, addressing_mode: AddressingMode::ZeroPage_X }),
        0xB6 => Some(OpCode { addr: 0xB6, code: Mnemonic::LDX, bytes: 2, cycles: 4, addressing_mode: AddressingMode::ZeroPage_Y }),
        0xB8 => Some(OpCode { addr: 0xB8, code: Mnemonic::CLV, bytes: 1, cycles: 2, addressing_mode: AddressingMode::NoneAddressing }),
        0xB9 => Some(OpCode { addr: 0xB9, code: Mnemonic::LDA, bytes: 3, cycles: 4, addressing_mode: AddressingMode::Absolute_Y }),
        0xBA => Some(OpCode { addr: 0xBA, code: Mnemonic::TSX, bytes: 1, cycles: 2, addressing_mode: AddressingMode::NoneAddressing }),
        0xBC => Some(OpCode { addr: 0xBC, code: Mnemonic::LDY, bytes: 3, cycles: 4, addressing_mode: AddressingMode::Absolute_X }),
        0xBD => Some(OpCode { addr: 0xBD, code: Mnemonic::LDA, bytes: 3, cycles: 4, addressing_mode: AddressingMode::Absolute_X }),
        0xBE => Some(OpCode { addr: 0xBE, code: Mnemonic::LDX, bytes: 3, cycles: 4, addressing_mode: AddressingMode::Absolute_Y }),
        0xC0 => Some(OpCode { addr: 0xC0, code: Mnemonic::CPY, bytes: 2, cycles: 2, addressing_mode: AddressingMode::Immediate }),
        0xC1 => Some(OpCode { addr: 0xC1, code: Mnemonic::CMP, bytes: 2, cycles: 6, addressing_mode: AddressingMode::Indirect_X }),
        0xC4 => Some(OpCode { addr: 0xC4, code: Mnemonic::CPY, bytes: 2, cycles: 3, addressing_mode: AddressingMode::ZeroPage }),
        0xC5 => Some(OpCode { addr: 0xC5, code: Mnemonic::CMP, bytes: 2, cycles: 3, addressing_mode: AddressingMode::ZeroPage }),
        0xC6 => Some(OpCode { addr: 0xC6, code: Mnemonic::DEC, bytes: 2, cycles: 5, addressing_mode: AddressingMode::ZeroPage }),
        0xC8 => Some(OpCode { addr: 0xC8, code: Mnemonic::INY, bytes: 1, cycles: 2, addressing_mode: AddressingMode::NoneAddressing }),
        0xC9 => Some(OpCode { addr: 0xC9, code: Mnemonic::CMP, bytes: 2, cycles: 2, addressing_mode: AddressingMode::Immediate }),
        0xCA => Some(OpCode { addr: 0xCA, code: Mnemonic::DEX, bytes: 1, cycles: 2, addressing_mode: AddressingMode::NoneAddressing }),
        0xCC => Some(OpCode { addr: 0xCC, code: Mnemonic::CPY, bytes: 3, cycles: 4, addressing_mode: AddressingMode::Absolute }),
        0xCD => Some(OpCode { addr: 0xCD, code: Mnemonic::CMP, bytes: 3, cycles: 4, addressing_mode: AddressingMode::Absolute }),
        0xCE => Some(OpCode { addr: 0xCE, code: Mnemonic::DEC, bytes: 3, cycles: 6, addressing_mode: AddressingMode::Absolute }),
        0xD0 => Some(OpCode { addr: 0xD0, code: Mnemonic::BNE, bytes: 2, cycles: 2, addressing_mode: AddressingMode::NoneAddressing }),
        0xD1 => Some(OpCode { addr: 0xD1, code: Mnemonic::CMP, bytes: 2, cycles: 5, addressing_mode: AddressingMode::Indirect_Y }),
        0xD5 => Some(OpCode { addr: 0xD5, code: Mnemonic::CMP, bytes: 2, cycles: 4, addressing_mode: AddressingMode::ZeroPage_X }),
        0xD6 => Some(OpCode { addr: 0xD6, code: Mnemonic::DEC, bytes: 2, cycles: 6, addressing_mode: AddressingMode::ZeroPage_X }),
        0xD8 => Some(OpCode { addr: 0xD8, code: Mnemonic::CLD, bytes: 1, cycles: 2, addressing_mode: AddressingMode::NoneAddressing }),
        0xD9 => Some(OpCode { addr: 0xD9, code: Mnemonic::CMP, bytes: 3, cycles: 4, addressing_mode: AddressingMode::Absolute_Y }),
        0xDD => Some(OpCode { addr: 0xDD, code: Mnemonic::CMP, bytes: 3, cycles: 4, addressing_mode: AddressingMode::Absolute_X }),
        0xDE => Some(OpCode { addr: 0xDE, code: Mnemonic::DEC, bytes: 3, cycles: 7, addressing_mode: AddressingMode::Absolute_X }),
        0xE0 => Some(OpCode { addr: 0xE0, code: Mnemonic::CPX, bytes: 2, cycles: 2, addressing_mode: AddressingMode::Immediate }),
        0xE1 => Some(OpCode { addr: 0xE1, code: Mnemonic::SBC, bytes: 2, cycles: 6, addressing_mode: AddressingMode::Indirect_X }),
        0xE4 => Some(OpCode { addr: 0xE4, code: Mnemonic::CPX, bytes: 2, cycles: 3, addressing_mode: AddressingMode::ZeroPage }),
        0xE5 => Some(OpCode { addr: 0xE5, code: Mnemonic::SBC, bytes: 2, cycles: 3, addressing_mode: AddressingMode::ZeroPage }),
        0xE6 => Some(OpCode { addr: 0xE6, code: Mnemonic::INC, bytes: 2, cycles: 5, addressing_mode: AddressingMode::ZeroPage }),
        0xE8 => Some(OpCode { addr: 0xE8, code: Mnemonic::INX, bytes: 1, cycles: 2, addressing_mode: AddressingMode::NoneAddressing }),
        0xE9 => Some(OpCode { addr: 0xE9, code: Mnemonic::SBC, bytes: 2, cycles: 2, addressing_mode: AddressingMode::Immediate }),
        0xEA => Some(OpCode { addr: 0xEA, code: Mnemonic::NOP, bytes: 1, cycles: 2, addressing_mode: AddressingMode::NoneAddressing }),
        0xEC => Some(OpCode { addr: 0xEC, code: Mnemonic::CPX, bytes: 3, cycles: 4, addressing_mode: AddressingMode::Absolute }),
        0xED => Some(OpCode { addr: 0xED, code: Mnemonic::SBC, bytes: 3, cycles: 4, addressing_mode: AddressingMode::Absolute }),
        0xEE => Some(OpCode { addr: 0xEE, code: Mnemonic::INC, bytes: 3, cycles: 6, addressing_mode: AddressingMode::Absolute }),
        0xF0 => Some(OpCode { addr: 0xF0, code: Mnemonic::BEQ, bytes: 2, cycles: 2, addressing_mode: AddressingMode::NoneAddressing }),
        0xF1 => Some(OpCode { addr: 0xF1, code: Mnemonic::SBC, bytes: 2, cycles: 5, addressing_mode: AddressingMode::Indirect_Y }),
        0xF5 => Some(OpCode { addr: 0xF5, code: Mnemonic::SBC, bytes: 2, cycles: 4, addressing_mode: AddressingMode::ZeroPage_X }),
        0xF6 => Some(OpCode { addr: 0xF6, code: Mnemonic::INC, bytes: 2, cycles: 6, addressing_mode: AddressingMode::ZeroPage_X }),
        0xF8 => Some(OpCode { addr: 0xF8, code: Mnemonic::SED, bytes: 1, cycles: 2, addressing_mode: AddressingMode::NoneAddressing }),
        0xF9 => Some(OpCode { addr: 0xF9, code: Mnemonic::SBC, bytes: 3, cycles: 4, addressing_mode: AddressingMode::Absolute_Y }),
        0xFD => Some(OpCode { addr: 0xFD, code: Mnemonic::SBC, bytes: 3, cycles: 4, addressing_mode: AddressingMode::Absolute_X }),
        0xFE => Some(OpCode { addr: 0xFE, code: Mnemonic::INC, bytes: 3, cycles: 7, addressing_mode: AddressingMode::Absolute_X }),
        _ => None,
    }
}

/// The opcodes that pay one extra cycle when their indexed operand crosses a
/// 256-byte page: the arithmetic and load instructions in their absolute-x,
/// absolute-y and post-indexed indirect forms.
pub open spec fn spec_is_page_crosser(op: u8) -> bool {
    op == 0x11 || op == 0x19 || op == 0x1D || op == 0x31 || op == 0x39 || op == 0x3D || op == 0x51 || op == 0x59 || op == 0x5D || op == 0x71 || op == 0x79 || op == 0x7D || op == 0xB1 || op == 0xB9 || op == 0xBC || op == 0xBD || op == 0xBE || op == 0xD1 || op == 0xD9 || op == 0xDD || op == 0xF1 || op == 0xF9 || op == 0xFD
}

/// Whether the opcode belongs to the page-crossing set.
pub fn is_page_crosser(op: u8) -> (r: bool)
    ensures
        r == spec_is_page_crosser(op),
{
    match op {
        0x11 | 0x19 | 0x1D | 0x31 | 0x39 | 0x3D | 0x51 | 0x59 | 0x5D | 0x71 | 0x79 | 0x7D | 0xB1 | 0xB9 | 0xBC | 0xBD | 0xBE | 0xD1 | 0xD9 | 0xDD | 0xF1 | 0xF9 | 0xFD => true,
        _ => false,
    }
}

} // verus!

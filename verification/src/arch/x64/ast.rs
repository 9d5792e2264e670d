//! The operands of an instruction as the encoder takes them.
use crate::common::{Expr, Ident, Jump, JumpView, Size, Value};
use vstd::prelude::*;

verus! {

/// The registers that exist. Some of these can be referred to in different sizes, but they
/// share the same id (think AL/AX/EAX/RAX, XMM/YMM).
#[derive(Debug, PartialEq, Eq, Hash, Clone, Copy, Structural)]
pub enum RegId {
    // size: 1, 2, 4 or 8 bytes
    RAX,
    RCX,
    RDX,
    RBX,
    RSP,
    RBP,
    RSI,
    RDI,
    R8,
    R9,
    R10,
    R11,
    R12,
    R13,
    R14,
    R15,
    // size: 4 or 8 bytes
    RIP,
    // size: 1 byte
    AH,
    CH,
    DH,
    BH,
    // size: 10 bytes
    ST0,
    ST1,
    ST2,
    ST3,
    ST4,
    ST5,
    ST6,
    ST7,
    // size: 8 bytes
    MMX0,
    MMX1,
    MMX2,
    MMX3,
    MMX4,
    MMX5,
    MMX6,
    MMX7,
    // size: 16 or 32 bytes
    XMM0,
    XMM1,
    XMM2,
    XMM3,
    XMM4,
    XMM5,
    XMM6,
    XMM7,
    XMM8,
    XMM9,
    XMM10,
    XMM11,
    XMM12,
    XMM13,
    XMM14,
    XMM15,
    // size: 2 bytes
    ES,
    CS,
    SS,
    DS,
    FS,
    GS,
    // size: 4 bytes
    CR0,
    CR1,
    CR2,
    CR3,
    CR4,
    CR5,
    CR6,
    CR7,
    CR8,
    CR9,
    CR10,
    CR11,
    CR12,
    CR13,
    CR14,
    CR15,
    // size: 4 bytes
    DR0,
    DR1,
    DR2,
    DR3,
    DR4,
    DR5,
    DR6,
    DR7,
    DR8,
    DR9,
    DR10,
    DR11,
    DR12,
    DR13,
    DR14,
    DR15,
    // size: 16 bytes
    BND0,
    BND1,
    BND2,
    BND3,
}

/// The register spaces.
#[derive(Debug, PartialEq, Eq, Hash, Clone, Copy, Structural)]
pub enum RegFamily {
    LEGACY,
    RIP,
    HIGHBYTE,
    FP,
    MMX,
    XMM,
    SEGMENT,
    CONTROL,
    DEBUG,
    BOUND,
}

impl RegId {
    /// The number of the register: the number of its family in the high four bits, its code
    /// within the family in the low four bits.
    pub open spec fn number(self) -> u8 {
        match self {
            RegId::RAX => 0x00u8,
            RegId::RCX => 0x01u8,
            RegId::RDX => 0x02u8,
            RegId::RBX => 0x03u8,
            RegId::RSP => 0x04u8,
            RegId::RBP => 0x05u8,
            RegId::RSI => 0x06u8,
            RegId::RDI => 0x07u8,
            RegId::R8 => 0x08u8,
            RegId::R9 => 0x09u8,
            RegId::R10 => 0x0Au8,
            RegId::R11 => 0x0Bu8,
            RegId::R12 => 0x0Cu8,
            RegId::R13 => 0x0Du8,
            RegId::R14 => 0x0Eu8,
            RegId::R15 => 0x0Fu8,
            RegId::RIP => 0x15u8,
            RegId::AH => 0x24u8,
            RegId::CH => 0x25u8,
            RegId::DH => 0x26u8,
            RegId::BH => 0x27u8,
            RegId::ST0 => 0x30u8,
            RegId::ST1 => 0x31u8,
            RegId::ST2 => 0x32u8,
            RegId::ST3 => 0x33u8,
            RegId::ST4 => 0x34u8,
            RegId::ST5 => 0x35u8,
            RegId::ST6 => 0x36u8,
            RegId::ST7 => 0x37u8,
            RegId::MMX0 => 0x40u8,
            RegId::MMX1 => 0x41u8,
            RegId::MMX2 => 0x42u8,
            RegId::MMX3 => 0x43u8,
            RegId::MMX4 => 0x44u8,
            RegId::MMX5 => 0x45u8,
            RegId::MMX6 => 0x46u8,
            RegId::MMX7 => 0x47u8,
            RegId::XMM0 => 0x50u8,
            RegId::XMM1 => 0x51u8,
            RegId::XMM2 => 0x52u8,
            RegId::XMM3 => 0x53u8,
            RegId::XMM4 => 0x54u8,
            RegId::XMM5 => 0x55u8,
            RegId::XMM6 => 0x56u8,
            RegId::XMM7 => 0x57u8,
            RegId::XMM8 => 0x58u8,
            RegId::XMM9 => 0x59u8,
            RegId::XMM10 => 0x5Au8,
            RegId::XMM11 => 0x5Bu8,
            RegId::XMM12 => 0x5Cu8,
            RegId::XMM13 => 0x5Du8,
            RegId::XMM14 => 0x5Eu8,
            RegId::XMM15 => 0x5Fu8,
            RegId::ES => 0x60u8,
            RegId::CS => 0x61u8,
            RegId::SS => 0x62u8,
            RegId::DS => 0x63u8,
            RegId::FS => 0x64u8,
            RegId::GS => 0x65u8,
            RegId::CR0 => 0x70u8,
            RegId::CR1 => 0x71u8,
            RegId::CR2 => 0x72u8,
            RegId::CR3 => 0x73u8,
            RegId::CR4 => 0x74u8,
            RegId::CR5 => 0x75u8,
            RegId::CR6 => 0x76u8,
            RegId::CR7 => 0x77u8,
            RegId::CR8 => 0x78u8,
            RegId::CR9 => 0x79u8,
            RegId::CR10 => 0x7Au8,
            RegId::CR11 => 0x7Bu8,
            RegId::CR12 => 0x7Cu8,
            RegId::CR13 => 0x7Du8,
            RegId::CR14 => 0x7Eu8,
            RegId::CR15 => 0x7Fu8,
            RegId::DR0 => 0x80u8,
            RegId::DR1 => 0x81u8,
            RegId::DR2 => 0x82u8,
            RegId::DR3 => 0x83u8,
            RegId::DR4 => 0x84u8,
            RegId::DR5 => 0x85u8,
            RegId::DR6 => 0x86u8,
            RegId::DR7 => 0x87u8,
            RegId::DR8 => 0x88u8,
            RegId::DR9 => 0x89u8,
            RegId::DR10 => 0x8Au8,
            RegId::DR11 => 0x8Bu8,
            RegId::DR12 => 0x8Cu8,
            RegId::DR13 => 0x8Du8,
            RegId::DR14 => 0x8Eu8,
            RegId::DR15 => 0x8Fu8,
            RegId::BND0 => 0x90u8,
            RegId::BND1 => 0x91u8,
            RegId::BND2 => 0x92u8,
            RegId::BND3 => 0x93u8,
        }
    }

    /// The register of a number, if there is one.
    pub open spec fn of_number(id: u8) -> Option<RegId> {
        if id == 0x00 {
            Some(RegId::RAX)
        }
        else if id == 0x01 {
            Some(RegId::RCX)
        }
        else if id == 0x02 {
            Some(RegId::RDX)
        }
        else if id == 0x03 {
            Some(RegId::RBX)
        }
        else if id == 0x04 {
            Some(RegId::RSP)
        }
        else if id == 0x05 {
            Some(RegId::RBP)
        }
        else if id == 0x06 {
            Some(RegId::RSI)
        }
        else if id == 0x07 {
            Some(RegId::RDI)
        }
        else if id == 0x08 {
            Some(RegId::R8)
        }
        else if id == 0x09 {
            Some(RegId::R9)
        }
        else if id == 0x0A {
            Some(RegId::R10)
        }
        else if id == 0x0B {
            Some(RegId::R11)
        }
        else if id == 0x0C {
            Some(RegId::R12)
        }
        else if id == 0x0D {
            Some(RegId::R13)
        }
        else if id == 0x0E {
            Some(RegId::R14)
        }
        else if id == 0x0F {
            Some(RegId::R15)
        }
        else if id == 0x15 {
            Some(RegId::RIP)
        }
        else if id == 0x24 {
            Some(RegId::AH)
        }
        else if id == 0x25 {
            Some(RegId::CH)
        }
        else if id == 0x26 {
            Some(RegId::DH)
        }
        else if id == 0x27 {
            Some(RegId::BH)
        }
        else if id == 0x30 {
            Some(RegId::ST0)
        }
        else if id == 0x31 {
            Some(RegId::ST1)
        }
        else if id == 0x32 {
            Some(RegId::ST2)
        }
        else if id == 0x33 {
            Some(RegId::ST3)
        }
        else if id == 0x34 {
            Some(RegId::ST4)
        }
        else if id == 0x35 {
            Some(RegId::ST5)
        }
        else if id == 0x36 {
            Some(RegId::ST6)
        }
        else if id == 0x37 {
            Some(RegId::ST7)
        }
        else if id == 0x40 {
            Some(RegId::MMX0)
        }
        else if id == 0x41 {
            Some(RegId::MMX1)
        }
        else if id == 0x42 {
            Some(RegId::MMX2)
        }
        else if id == 0x43 {
            Some(RegId::MMX3)
        }
        else if id == 0x44 {
            Some(RegId::MMX4)
        }
        else if id == 0x45 {
            Some(RegId::MMX5)
        }
        else if id == 0x46 {
            Some(RegId::MMX6)
        }
        else if id == 0x47 {
            Some(RegId::MMX7)
        }
        else if id == 0x50 {
            Some(RegId::XMM0)
        }
        else if id == 0x51 {
            Some(RegId::XMM1)
        }
        else if id == 0x52 {
            Some(RegId::XMM2)
        }
        else if id == 0x53 {
            Some(RegId::XMM3)
        }
        else if id == 0x54 {
            Some(RegId::XMM4)
        }
        else if id == 0x55 {
            Some(RegId::XMM5)
        }
        else if id == 0x56 {
            Some(RegId::XMM6)
        }
        else if id == 0x57 {
            Some(RegId::XMM7)
        }
        else if id == 0x58 {
            Some(RegId::XMM8)
        }
        else if id == 0x59 {
            Some(RegId::XMM9)
        }
        else if id == 0x5A {
            Some(RegId::XMM10)
        }
        else if id == 0x5B {
            Some(RegId::XMM11)
        }
        else if id == 0x5C {
            Some(RegId::XMM12)
        }
        else if id == 0x5D {
            Some(RegId::XMM13)
        }
        else if id == 0x5E {
            Some(RegId::XMM14)
        }
        else if id == 0x5F {
            Some(RegId::XMM15)
        }
        else if id == 0x60 {
            Some(RegId::ES)
        }
        else if id == 0x61 {
            Some(RegId::CS)
        }
        else if id == 0x62 {
            Some(RegId::SS)
        }
        else if id == 0x63 {
            Some(RegId::DS)
        }
        else if id == 0x64 {
            Some(RegId::FS)
        }
        else if id == 0x65 {
            Some(RegId::GS)
        }
        else if id == 0x70 {
            Some(RegId::CR0)
        }
        else if id == 0x71 {
            Some(RegId::CR1)
        }
        else if id == 0x72 {
            Some(RegId::CR2)
        }
        else if id == 0x73 {
            Some(RegId::CR3)
        }
        else if id == 0x74 {
            Some(RegId::CR4)
        }
        else if id == 0x75 {
            Some(RegId::CR5)
        }
        else if id == 0x76 {
            Some(RegId::CR6)
        }
        else if id == 0x77 {
            Some(RegId::CR7)
        }
        else if id == 0x78 {
            Some(RegId::CR8)
        }
        else if id == 0x79 {
            Some(RegId::CR9)
        }
        else if id == 0x7A {
            Some(RegId::CR10)
        }
        else if id == 0x7B {
            Some(RegId::CR11)
        }
        else if id == 0x7C {
            Some(RegId::CR12)
        }
        else if id == 0x7D {
            Some(RegId::CR13)
        }
        else if id == 0x7E {
            Some(RegId::CR14)
        }
        else if id == 0x7F {
            Some(RegId::CR15)
        }
        else if id == 0x80 {
            Some(RegId::DR0)
        }
        else if id == 0x81 {
            Some(RegId::DR1)
        }
        else if id == 0x82 {
            Some(RegId::DR2)
        }
        else if id == 0x83 {
            Some(RegId::DR3)
        }
        else if id == 0x84 {
            Some(RegId::DR4)
        }
        else if id == 0x85 {
            Some(RegId::DR5)
        }
        else if id == 0x86 {
            Some(RegId::DR6)
        }
        else if id == 0x87 {
            Some(RegId::DR7)
        }
        else if id == 0x88 {
            Some(RegId::DR8)
        }
        else if id == 0x89 {
            Some(RegId::DR9)
        }
        else if id == 0x8A {
            Some(RegId::DR10)
        }
        else if id == 0x8B {
            Some(RegId::DR11)
        }
        else if id == 0x8C {
            Some(RegId::DR12)
        }
        else if id == 0x8D {
            Some(RegId::DR13)
        }
        else if id == 0x8E {
            Some(RegId::DR14)
        }
        else if id == 0x8F {
            Some(RegId::DR15)
        }
        else if id == 0x90 {
            Some(RegId::BND0)
        }
        else if id == 0x91 {
            Some(RegId::BND1)
        }
        else if id == 0x92 {
            Some(RegId::BND2)
        }
        else if id == 0x93 {
            Some(RegId::BND3)
        }
        else {
            None
        }
    }

    /// The code of the register within its family.
    pub open spec fn spec_code(self) -> u8 {
        (self.number() % 16) as u8
    }

    /// The family of the register.
    pub open spec fn spec_family(self) -> RegFamily {
        RegFamily::of_number((self.number() / 16) as u8)
    }

    pub fn code(self) -> (r: u8)
        ensures
            r == self.spec_code(),
            r < 16,
    {
        match self {
            RegId::RAX => 0,
            RegId::RCX => 1,
            RegId::RDX => 2,
            RegId::RBX => 3,
            RegId::RSP => 4,
            RegId::RBP => 5,
            RegId::RSI => 6,
            RegId::RDI => 7,
            RegId::R8 => 8,
            RegId::R9 => 9,
            RegId::R10 => 10,
            RegId::R11 => 11,
            RegId::R12 => 12,
            RegId::R13 => 13,
            RegId::R14 => 14,
            RegId::R15 => 15,
            RegId::RIP => 5,
            RegId::AH => 4,
            RegId::CH => 5,
            RegId::DH => 6,
            RegId::BH => 7,
            RegId::ST0 => 0,
            RegId::ST1 => 1,
            RegId::ST2 => 2,
            RegId::ST3 => 3,
            RegId::ST4 => 4,
            RegId::ST5 => 5,
            RegId::ST6 => 6,
            RegId::ST7 => 7,
            RegId::MMX0 => 0,
            RegId::MMX1 => 1,
            RegId::MMX2 => 2,
            RegId::MMX3 => 3,
            RegId::MMX4 => 4,
            RegId::MMX5 => 5,
            RegId::MMX6 => 6,
            RegId::MMX7 => 7,
            RegId::XMM0 => 0,
            RegId::XMM1 => 1,
            RegId::XMM2 => 2,
            RegId::XMM3 => 3,
            RegId::XMM4 => 4,
            RegId::XMM5 => 5,
            RegId::XMM6 => 6,
            RegId::XMM7 => 7,
            RegId::XMM8 => 8,
            RegId::XMM9 => 9,
            RegId::XMM10 => 10,
            RegId::XMM11 => 11,
            RegId::XMM12 => 12,
            RegId::XMM13 => 13,
            RegId::XMM14 => 14,
            RegId::XMM15 => 15,
            RegId::ES => 0,
            RegId::CS => 1,
            RegId::SS => 2,
            RegId::DS => 3,
            RegId::FS => 4,
            RegId::GS => 5,
            RegId::CR0 => 0,
            RegId::CR1 => 1,
            RegId::CR2 => 2,
            RegId::CR3 => 3,
            RegId::CR4 => 4,
            RegId::CR5 => 5,
            RegId::CR6 => 6,
            RegId::CR7 => 7,
            RegId::CR8 => 8,
            RegId::CR9 => 9,
            RegId::CR10 => 10,
            RegId::CR11 => 11,
            RegId::CR12 => 12,
            RegId::CR13 => 13,
            RegId::CR14 => 14,
            RegId::CR15 => 15,
            RegId::DR0 => 0,
            RegId::DR1 => 1,
            RegId::DR2 => 2,
            RegId::DR3 => 3,
            RegId::DR4 => 4,
            RegId::DR5 => 5,
            RegId::DR6 => 6,
            RegId::DR7 => 7,
            RegId::DR8 => 8,
            RegId::DR9 => 9,
            RegId::DR10 => 10,
            RegId::DR11 => 11,
            RegId::DR12 => 12,
            RegId::DR13 => 13,
            RegId::DR14 => 14,
            RegId::DR15 => 15,
            RegId::BND0 => 0,
            RegId::BND1 => 1,
            RegId::BND2 => 2,
            RegId::BND3 => 3,
        }
    }

    pub fn family(self) -> (r: RegFamily)
        ensures
            r == self.spec_family(),
    {
        match self {
            RegId::RAX | RegId::RCX | RegId::RDX | RegId::RBX | RegId::RSP | RegId::RBP
            | RegId::RSI | RegId::RDI | RegId::R8 | RegId::R9 | RegId::R10 | RegId::R11
            | RegId::R12 | RegId::R13 | RegId::R14 | RegId::R15 => RegFamily::LEGACY,
            RegId::RIP => RegFamily::RIP,
            RegId::AH | RegId::CH | RegId::DH | RegId::BH => RegFamily::HIGHBYTE,
            RegId::ST0 | RegId::ST1 | RegId::ST2 | RegId::ST3 | RegId::ST4 | RegId::ST5
            | RegId::ST6 | RegId::ST7 => RegFamily::FP,
            RegId::MMX0 | RegId::MMX1 | RegId::MMX2 | RegId::MMX3 | RegId::MMX4 | RegId::MMX5
            | RegId::MMX6 | RegId::MMX7 => RegFamily::MMX,
            RegId::XMM0 | RegId::XMM1 | RegId::XMM2 | RegId::XMM3 | RegId::XMM4 | RegId::XMM5
            | RegId::XMM6 | RegId::XMM7 | RegId::XMM8 | RegId::XMM9 | RegId::XMM10
            | RegId::XMM11 | RegId::XMM12 | RegId::XMM13 | RegId::XMM14 | RegId::XMM15 => RegFamily::XMM,
            RegId::ES | RegId::CS | RegId::SS | RegId::DS | RegId::FS | RegId::GS => RegFamily::SEGMENT,
            RegId::CR0 | RegId::CR1 | RegId::CR2 | RegId::CR3 | RegId::CR4 | RegId::CR5
            | RegId::CR6 | RegId::CR7 | RegId::CR8 | RegId::CR9 | RegId::CR10 | RegId::CR11
            | RegId::CR12 | RegId::CR13 | RegId::CR14 | RegId::CR15 => RegFamily::CONTROL,
            RegId::DR0 | RegId::DR1 | RegId::DR2 | RegId::DR3 | RegId::DR4 | RegId::DR5
            | RegId::DR6 | RegId::DR7 | RegId::DR8 | RegId::DR9 | RegId::DR10 | RegId::DR11
            | RegId::DR12 | RegId::DR13 | RegId::DR14 | RegId::DR15 => RegFamily::DEBUG,
            RegId::BND0 | RegId::BND1 | RegId::BND2 | RegId::BND3 => RegFamily::BOUND,
        }
    }

    /// The register of a number, if there is one.
    pub fn from_number(id: u8) -> (r: Option<RegId>)
        ensures
            r == RegId::of_number(id),
            r matches Some(reg) ==> reg.number() == id,
    {
        match id {
            0x00 => Some(RegId::RAX),
            0x01 => Some(RegId::RCX),
            0x02 => Some(RegId::RDX),
            0x03 => Some(RegId::RBX),
            0x04 => Some(RegId::RSP),
            0x05 => Some(RegId::RBP),
            0x06 => Some(RegId::RSI),
            0x07 => Some(RegId::RDI),
            0x08 => Some(RegId::R8),
            0x09 => Some(RegId::R9),
            0x0A => Some(RegId::R10),
            0x0B => Some(RegId::R11),
            0x0C => Some(RegId::R12),
            0x0D => Some(RegId::R13),
            0x0E => Some(RegId::R14),
            0x0F => Some(RegId::R15),
            0x15 => Some(RegId::RIP),
            0x24 => Some(RegId::AH),
            0x25 => Some(RegId::CH),
            0x26 => Some(RegId::DH),
            0x27 => Some(RegId::BH),
            0x30 => Some(RegId::ST0),
            0x31 => Some(RegId::ST1),
            0x32 => Some(RegId::ST2),
            0x33 => Some(RegId::ST3),
            0x34 => Some(RegId::ST4),
            0x35 => Some(RegId::ST5),
            0x36 => Some(RegId::ST6),
            0x37 => Some(RegId::ST7),
            0x40 => Some(RegId::MMX0),
            0x41 => Some(RegId::MMX1),
            0x42 => Some(RegId::MMX2),
            0x43 => Some(RegId::MMX3),
            0x44 => Some(RegId::MMX4),
            0x45 => Some(RegId::MMX5),
            0x46 => Some(RegId::MMX6),
            0x47 => Some(RegId::MMX7),
            0x50 => Some(RegId::XMM0),
            0x51 => Some(RegId::XMM1),
            0x52 => Some(RegId::XMM2),
            0x53 => Some(RegId::XMM3),
            0x54 => Some(RegId::XMM4),
            0x55 => Some(RegId::XMM5),
            0x56 => Some(RegId::XMM6),
            0x57 => Some(RegId::XMM7),
            0x58 => Some(RegId::XMM8),
            0x59 => Some(RegId::XMM9),
            0x5A => Some(RegId::XMM10),
            0x5B => Some(RegId::XMM11),
            0x5C => Some(RegId::XMM12),
            0x5D => Some(RegId::XMM13),
            0x5E => Some(RegId::XMM14),
            0x5F => Some(RegId::XMM15),
            0x60 => Some(RegId::ES),
            0x61 => Some(RegId::CS),
            0x62 => Some(RegId::SS),
            0x63 => Some(RegId::DS),
            0x64 => Some(RegId::FS),
            0x65 => Some(RegId::GS),
            0x70 => Some(RegId::CR0),
            0x71 => Some(RegId::CR1),
            0x72 => Some(RegId::CR2),
            0x73 => Some(RegId::CR3),
            0x74 => Some(RegId::CR4),
            0x75 => Some(RegId::CR5),
            0x76 => Some(RegId::CR6),
            0x77 => Some(RegId::CR7),
            0x78 => Some(RegId::CR8),
            0x79 => Some(RegId::CR9),
            0x7A => Some(RegId::CR10),
            0x7B => Some(RegId::CR11),
            0x7C => Some(RegId::CR12),
            0x7D => Some(RegId::CR13),
            0x7E => Some(RegId::CR14),
            0x7F => Some(RegId::CR15),
            0x80 => Some(RegId::DR0),
            0x81 => Some(RegId::DR1),
            0x82 => Some(RegId::DR2),
            0x83 => Some(RegId::DR3),
            0x84 => Some(RegId::DR4),
            0x85 => Some(RegId::DR5),
            0x86 => Some(RegId::DR6),
            0x87 => Some(RegId::DR7),
            0x88 => Some(RegId::DR8),
            0x89 => Some(RegId::DR9),
            0x8A => Some(RegId::DR10),
            0x8B => Some(RegId::DR11),
            0x8C => Some(RegId::DR12),
            0x8D => Some(RegId::DR13),
            0x8E => Some(RegId::DR14),
            0x8F => Some(RegId::DR15),
            0x90 => Some(RegId::BND0),
            0x91 => Some(RegId::BND1),
            0x92 => Some(RegId::BND2),
            0x93 => Some(RegId::BND3),
            _ => None,
        }
    }

    /// Every register is the register of its number.
    pub proof fn lemma_number_round_trip(self)
        ensures
            RegId::of_number(self.number()) == Some(self),
    {
    }
}

impl RegFamily {
    /// The family with a number; the numbers beyond the last family stand for the last.
    pub open spec fn of_number(n: u8) -> RegFamily {
        match n {
            0 => RegFamily::LEGACY,
            1 => RegFamily::RIP,
            2 => RegFamily::HIGHBYTE,
            3 => RegFamily::FP,
            4 => RegFamily::MMX,
            5 => RegFamily::XMM,
            6 => RegFamily::SEGMENT,
            7 => RegFamily::CONTROL,
            8 => RegFamily::DEBUG,
            _ => RegFamily::BOUND,
        }
    }
}

/// A register: which one, and with which size it is referred to.
#[derive(Debug, Clone, Copy, PartialEq, Eq)]
pub struct Register {
    pub size: Size,
    pub kind: RegKind,
}

/// The identity of a register: either one that is known, or one of a known family that the
/// caller selects by an expression.
#[derive(Debug, Clone, Copy, PartialEq, Eq)]
pub enum RegKind {
    Static(RegId),
    Dynamic(RegFamily, Expr),
}

/// An index register with its scale and, optionally, an expression that is multiplied to the
/// scale.
pub type Index = (Register, isize, Option<Expr>);

impl Register {
    pub fn new_static(size: Size, id: RegId) -> (r: Register)
        ensures
            r == (Register { size, kind: RegKind::Static(id) }),
    {
        Register { size, kind: RegKind::Static(id) }
    }

    pub fn new_dynamic(size: Size, family: RegFamily, id: Expr) -> (r: Register)
        ensures
            r == (Register { size, kind: RegKind::Dynamic(family, id) }),
    {
        Register { size, kind: RegKind::Dynamic(family, id) }
    }

    pub fn size(&self) -> (r: Size)
        ensures
            r == self.size,
    {
        self.size
    }

    /// Whether this is the known register `id`, in whatever size.
    pub fn is(&self, id: RegId) -> (r: bool)
        ensures
            r == self.kind.spec_is(id),
    {
        self.kind.is(id)
    }
}

impl RegKind {
    /// The code of the register within its family, if it is known.
    pub open spec fn spec_code(self) -> Option<u8> {
        match self {
            RegKind::Static(id) => Some(id.spec_code()),
            RegKind::Dynamic(_, _) => None,
        }
    }

    /// The family of the register.
    pub open spec fn spec_family(self) -> RegFamily {
        match self {
            RegKind::Static(id) => id.spec_family(),
            RegKind::Dynamic(family, _) => family,
        }
    }

    /// Whether the register is only known to the caller.
    pub open spec fn spec_is_dynamic(self) -> bool {
        self is Dynamic
    }

    /// Whether encoding the register takes a fourth bit: it is one of the upper eight of a
    /// family that has sixteen, or it may be one because it is not known.
    pub open spec fn spec_is_extended(self) -> bool {
        match self.spec_family() {
            RegFamily::LEGACY | RegFamily::XMM | RegFamily::CONTROL | RegFamily::DEBUG => match self {
                RegKind::Static(id) => id.spec_code() > 7,
                RegKind::Dynamic(_, _) => true,
            },
            _ => false,
        }
    }

    /// The code that is put into the encoding: zero for a register that is not known.
    pub open spec fn spec_encode(self) -> u8 {
        match self {
            RegKind::Static(id) => id.spec_code(),
            RegKind::Dynamic(_, _) => 0,
        }
    }

    /// Whether this is the known register `id`.
    pub open spec fn spec_is(self, id: RegId) -> bool {
        self == RegKind::Static(id)
    }

    /// The expression that selects the register, if it is not known.
    pub open spec fn spec_expr(self) -> Option<Expr> {
        match self {
            RegKind::Static(_) => None,
            RegKind::Dynamic(_, expr) => Some(expr),
        }
    }

    pub fn code(&self) -> (r: Option<u8>)
        ensures
            r == self.spec_code(),
    {
        match *self {
            RegKind::Static(id) => Some(id.code()),
            RegKind::Dynamic(_, _) => None,
        }
    }

    pub fn family(&self) -> (r: RegFamily)
        ensures
            r == self.spec_family(),
    {
        match *self {
            RegKind::Static(id) => id.family(),
            RegKind::Dynamic(family, _) => family,
        }
    }

    pub fn is_dynamic(&self) -> (r: bool)
        ensures
            r == self.spec_is_dynamic(),
    {
        match *self {
            RegKind::Static(_) => false,
            RegKind::Dynamic(_, _) => true,
        }
    }

    pub fn is_extended(&self) -> (r: bool)
        ensures
            r == self.spec_is_extended(),
    {
        match self.family() {
            RegFamily::LEGACY | RegFamily::XMM | RegFamily::CONTROL | RegFamily::DEBUG => match *self {
                RegKind::Static(id) => id.code() > 7,
                RegKind::Dynamic(_, _) => true,
            },
            _ => false,
        }
    }

    pub fn encode(&self) -> (r: u8)
        ensures
            r == self.spec_encode(),
            r < 16,
    {
        match *self {
            RegKind::Static(id) => id.code(),
            RegKind::Dynamic(_, _) => 0,
        }
    }

    /// The known register of a number, if there is one.
    pub fn from_number(id: u8) -> (r: Option<RegKind>)
        ensures
            r == match RegId::of_number(id) {
                Some(reg) => Some(RegKind::Static(reg)),
                None => None,
            },
    {
        match RegId::from_number(id) {
            Some(reg) => Some(RegKind::Static(reg)),
            None => None,
        }
    }

    pub fn is(&self, id: RegId) -> (r: bool)
        ensures
            r == self.spec_is(id),
    {
        match *self {
            RegKind::Static(own) => own == id,
            RegKind::Dynamic(_, _) => false,
        }
    }

    /// The expression that selects the register, if it is not known.
    pub fn expr(&self) -> (r: Option<Expr>)
        ensures
            r == self.spec_expr(),
    {
        match *self {
            RegKind::Static(_) => None,
            RegKind::Dynamic(_, expr) => Some(expr),
        }
    }
}

/// An operand as the format matcher takes it: sizes may still be open.
#[derive(Debug, Clone, PartialEq, Eq)]
pub enum CleanArg {
    /// A memory reference.
    Indirect {
        nosplit: bool,
        size: Option<Size>,
        disp_size: Option<Size>,
        base: Option<Register>,
        index: Option<Index>,
        disp: Option<Value>,
    },
    /// A direct register reference.
    Direct { reg: Register },
    /// A jump offset, i.e. `->foo`.
    JumpTarget { jump: Jump, size: Option<Size> },
    /// A memory reference to a label, i.e. `[->foo]`.
    IndirectJumpTarget { jump: Jump, size: Option<Size> },
    /// Just an arbitrary value.
    Immediate { value: Value },
}

/// An operand after sizing, as the emitter takes it.
#[derive(Debug, Clone, PartialEq, Eq)]
pub enum SizedArg {
    /// A memory reference. The size of the operand is lost here as it is never encoded.
    Indirect {
        disp_size: Option<Size>,
        base: Option<Register>,
        index: Option<Index>,
        disp: Option<Value>,
    },
    /// A direct register reference.
    Direct { reg: Register },
    /// A jump offset, i.e. `->foo`.
    JumpTarget { jump: Jump, size: Size },
    /// A memory reference to a label, i.e. `[->foo]`.
    IndirectJumpTarget { jump: Jump },
    /// Just an arbitrary value.
    Immediate { value: Value },
}

/// What an operand holds before sizing.
pub enum CleanArgView {
    Indirect {
        nosplit: bool,
        size: Option<Size>,
        disp_size: Option<Size>,
        base: Option<Register>,
        index: Option<Index>,
        disp: Option<Value>,
    },
    Direct { reg: Register },
    JumpTarget { jump: JumpView, size: Option<Size> },
    IndirectJumpTarget { jump: JumpView, size: Option<Size> },
    Immediate { value: Value },
}

/// What an operand holds after sizing.
pub enum SizedArgView {
    Indirect {
        disp_size: Option<Size>,
        base: Option<Register>,
        index: Option<Index>,
        disp: Option<Value>,
    },
    Direct { reg: Register },
    JumpTarget { jump: JumpView, size: Size },
    IndirectJumpTarget { jump: JumpView },
    Immediate { value: Value },
}

impl View for CleanArg {
    type V = CleanArgView;

    open spec fn view(&self) -> CleanArgView {
        match *self {
            CleanArg::Indirect { nosplit, size, disp_size, base, index, disp } => CleanArgView::Indirect {
                nosplit,
                size,
                disp_size,
                base,
                index,
                disp,
            },
            CleanArg::Direct { reg } => CleanArgView::Direct { reg },
            CleanArg::JumpTarget { jump, size } => CleanArgView::JumpTarget { jump: jump@, size },
            CleanArg::IndirectJumpTarget { jump, size } => CleanArgView::IndirectJumpTarget {
                jump: jump@,
                size,
            },
            CleanArg::Immediate { value } => CleanArgView::Immediate { value },
        }
    }
}

impl View for SizedArg {
    type V = SizedArgView;

    open spec fn view(&self) -> SizedArgView {
        match *self {
            SizedArg::Indirect { disp_size, base, index, disp } => SizedArgView::Indirect {
                disp_size,
                base,
                index,
                disp,
            },
            SizedArg::Direct { reg } => SizedArgView::Direct { reg },
            SizedArg::JumpTarget { jump, size } => SizedArgView::JumpTarget { jump: jump@, size },
            SizedArg::IndirectJumpTarget { jump } => SizedArgView::IndirectJumpTarget { jump: jump@ },
            SizedArg::Immediate { value } => SizedArgView::Immediate { value },
        }
    }
}

/// What a list of operands holds before sizing.
pub open spec fn clean_views(args: Seq<CleanArg>) -> Seq<CleanArgView> {
    args.map_values(|a: CleanArg| a@)
}

/// What a list of operands holds after sizing.
pub open spec fn sized_views(args: Seq<SizedArg>) -> Seq<SizedArgView> {
    args.map_values(|a: SizedArg| a@)
}

/// An instruction: the prefixes in the order in which they were written, then the mnemonic.
#[derive(Debug, Clone, PartialEq, Eq)]
pub struct Instruction {
    pub idents: Vec<Ident>,
}

/// What a list of identifiers holds.
pub open spec fn ident_views(idents: Seq<Ident>) -> Seq<Seq<char>> {
    idents.map_values(|i: Ident| i@)
}

impl View for Instruction {
    type V = Seq<Seq<char>>;

    open spec fn view(&self) -> Seq<Seq<char>> {
        ident_views(self.idents@)
    }
}

} // verus!

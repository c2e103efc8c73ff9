use vstd::prelude::*;
use vstd::arithmetic::power2::lemma2_to64;
use crate::register::GeneralRegister;
use crate::starts_with::StartsWith;

verus! {

/// An instruction as the CPU sees it: one opcode byte, without its operand bytes.
#[allow(clippy::upper_case_acronyms)]
#[derive(PartialEq, Eq, Structural, Clone, Copy, Debug, Hash)]
pub enum MachineInstruction {
    /// Move the content of a general register to another general register.
    MV { dst: GeneralRegister, src: GeneralRegister },
    /// Read a word from memory at the address set by MSRL and MSRH.
    MEMR { dst: GeneralRegister },
    /// Write a word to memory at the address set by MSRL and MSRH.
    MEMW { src: GeneralRegister },
    /// Put the selected register in the RAM address register low.
    MSRL { src: GeneralRegister },
    /// Put the selected register in the RAM address register high.
    MSRH { src: GeneralRegister },
    /// Load the next byte of the program into the selected register.
    LI { dst: GeneralRegister },
    /// Set the selected register to 0x00.
    ZERO { dst: GeneralRegister },
    /// Write the RET LOW register to RAM.
    RTWL,
    /// Write the RET HIGH register to RAM.
    RTWH,
    /// Read RAM into the RET LOW register.
    RTRL,
    /// Read RAM into the RET HIGH register.
    RTRH,
    /// Add the second register to the first.
    ADD { acc: GeneralRegister, val: GeneralRegister },
    /// Subtract the second register from the first.
    SUB { acc: GeneralRegister, val: GeneralRegister },
    /// Bitwise NAND of two registers, into the first.
    NAND { acc: GeneralRegister, val: GeneralRegister },
    /// Bitwise XOR of two registers, into the first.
    XOR { acc: GeneralRegister, val: GeneralRegister },
    /// Add the next byte of the program to the selected register.
    ADDI { dst: GeneralRegister },
    /// Increment the selected register.
    INC { dst: GeneralRegister },
    /// Decrement the selected register.
    DEC { dst: GeneralRegister },
    /// Negate the selected register.
    NEG { dst: GeneralRegister },
    /// Read the next two bytes (high first) into the jump registers.
    PJMP,
    /// Set the instruction pointer to the jump registers.
    JMP,
    /// Jump, and save the old instruction pointer in the RET registers.
    JAL,
    /// Set the instruction pointer to the RET registers.
    RET,
    /// Jump by the next byte, signed, if the carry flag is set.
    JCR,
    /// Jump by the next byte, signed, if the zero flag is set.
    JZR,
    /// Jump by the next byte, signed, if the negative flag is set.
    JNR,
    /// Jump by the next byte, signed, if ALU register 1 is less than ALU register 2.
    JLTR,
    /// Set the stack pointer low from the selected register.
    SPSL { src: GeneralRegister },
    /// Set the stack pointer high from the selected register.
    SPSH { src: GeneralRegister },
    /// Push: point memory at the stack pointer and move the stack pointer down.
    PUSH,
    /// Pull: move the stack pointer up and point memory at it.
    PULL,
    /// Point memory at the stack pointer.
    PEEK,
    /// Point memory at the stack pointer plus the next byte.
    SPOF,
    /// Stop the clock.
    HLT,
    /// Do nothing.
    NOP,
}

/// The byte that encodes NOP; the other bytes that decode to NOP are never produced.
pub const CANONICAL_NOP: u8 = 0b11_11_11_10;

pub open spec fn reg(index: int) -> GeneralRegister {
    GeneralRegister::spec_from_index(index as u8)
}

/// What the CPU does on byte `b`: the high nibble selects a family, the low
/// nibble holds register fields or the exact instruction.
pub open spec fn spec_decode(b: u8) -> MachineInstruction {
    let hi = b as int / 16;
    let lo = b as int % 16;
    let first = reg(lo / 4);
    let second = reg(lo % 4);
    if hi == 0 {
        MachineInstruction::MV { dst: first, src: second }
    } else if hi == 1 {
        if lo < 4 {
            MachineInstruction::MEMR { dst: second }
        } else if lo < 8 {
            MachineInstruction::MEMW { src: second }
        } else if lo < 12 {
            MachineInstruction::MSRL { src: second }
        } else {
            MachineInstruction::MSRH { src: second }
        }
    } else if hi == 2 {
        if lo < 4 {
            MachineInstruction::LI { dst: second }
        } else if lo < 8 {
            MachineInstruction::ZERO { dst: second }
        } else if lo == 12 {
            MachineInstruction::RTWL
        } else if lo == 13 {
            MachineInstruction::RTWH
        } else if lo == 14 {
            MachineInstruction::RTRL
        } else if lo == 15 {
            MachineInstruction::RTRH
        } else {
            MachineInstruction::NOP
        }
    } else if hi == 4 {
        MachineInstruction::ADD { acc: first, val: second }
    } else if hi == 5 {
        MachineInstruction::SUB { acc: first, val: second }
    } else if hi == 6 {
        MachineInstruction::NAND { acc: first, val: second }
    } else if hi == 7 {
        MachineInstruction::XOR { acc: first, val: second }
    } else if hi == 8 {
        if lo < 4 {
            MachineInstruction::ADDI { dst: second }
        } else if lo < 8 {
            MachineInstruction::INC { dst: second }
        } else if lo < 12 {
            MachineInstruction::DEC { dst: second }
        } else {
            MachineInstruction::NEG { dst: second }
        }
    } else if hi == 12 {
        if lo == 0 {
            MachineInstruction::PJMP
        } else if lo == 1 {
            MachineInstruction::JMP
        } else if lo == 2 {
            MachineInstruction::JAL
        } else if lo == 3 {
            MachineInstruction::RET
        } else if lo == 4 {
            MachineInstruction::JCR
        } else if lo == 5 {
            MachineInstruction::JZR
        } else if lo == 6 {
            MachineInstruction::JNR
        } else if lo == 7 {
            MachineInstruction::JLTR
        } else {
            MachineInstruction::NOP
        }
    } else if hi == 15 {
        if lo < 4 {
            MachineInstruction::SPSL { src: second }
        } else if lo < 8 {
            MachineInstruction::SPSH { src: second }
        } else if lo == 8 {
            MachineInstruction::PUSH
        } else if lo == 9 {
            MachineInstruction::PULL
        } else if lo == 10 {
            MachineInstruction::PEEK
        } else if lo == 11 {
            MachineInstruction::SPOF
        } else if lo == 15 {
            MachineInstruction::HLT
        } else {
            MachineInstruction::NOP
        }
    } else {
        MachineInstruction::NOP
    }
}

/// An opcode whose two low bits name a register.
pub open spec fn with_register(base: u8, r: GeneralRegister) -> u8 {
    (base + r.spec_index()) as u8
}

/// An opcode whose low nibble names two registers, the first in its high half.
pub open spec fn with_pair(base: u8, first: GeneralRegister, second: GeneralRegister) -> u8 {
    (base + 4 * first.spec_index() + second.spec_index()) as u8
}

/// The byte that encodes an instruction.
pub open spec fn spec_encode(i: MachineInstruction) -> u8 {
    match i {
        MachineInstruction::MV { dst, src } => with_pair(0x00, dst, src),
        MachineInstruction::MEMR { dst } => with_register(0x10, dst),
        MachineInstruction::MEMW { src } => with_register(0x14, src),
        MachineInstruction::MSRL { src } => with_register(0x18, src),
        MachineInstruction::MSRH { src } => with_register(0x1C, src),
        MachineInstruction::LI { dst } => with_register(0x20, dst),
        MachineInstruction::ZERO { dst } => with_register(0x24, dst),
        MachineInstruction::RTWL => 0x2C,
        MachineInstruction::RTWH => 0x2D,
        MachineInstruction::RTRL => 0x2E,
        MachineInstruction::RTRH => 0x2F,
        MachineInstruction::ADD { acc, val } => with_pair(0x40, acc, val),
        MachineInstruction::SUB { acc, val } => with_pair(0x50, acc, val),
        MachineInstruction::NAND { acc, val } => with_pair(0x60, acc, val),
        MachineInstruction::XOR { acc, val } => with_pair(0x70, acc, val),
        MachineInstruction::ADDI { dst } => with_register(0x80, dst),
        MachineInstruction::INC { dst } => with_register(0x84, dst),
        MachineInstruction::DEC { dst } => with_register(0x88, dst),
        MachineInstruction::NEG { dst } => with_register(0x8C, dst),
        MachineInstruction::PJMP => 0xC0,
        MachineInstruction::JMP => 0xC1,
        MachineInstruction::JAL => 0xC2,
        MachineInstruction::RET => 0xC3,
        MachineInstruction::JCR => 0xC4,
        MachineInstruction::JZR => 0xC5,
        MachineInstruction::JNR => 0xC6,
        MachineInstruction::JLTR => 0xC7,
        MachineInstruction::SPSL { src } => with_register(0xF0, src),
        MachineInstruction::SPSH { src } => with_register(0xF4, src),
        MachineInstruction::PUSH => 0xF8,
        MachineInstruction::PULL => 0xF9,
        MachineInstruction::PEEK => 0xFA,
        MachineInstruction::SPOF => 0xFB,
        MachineInstruction::HLT => 0xFF,
        MachineInstruction::NOP => CANONICAL_NOP,
    }
}

proof fn lemma_register_index(i: int)
    requires
        0 <= i < 4,
    ensures
        reg(i).spec_index() == i,
{
}

/// The two register fields of an opcode decode to the registers they were built from.
proof fn lemma_pair_fields(base: u8, first: GeneralRegister, second: GeneralRegister)
    requires
        base % 16 == 0,
        base <= 0xF0,
    ensures
        with_pair(base, first, second) as int / 16 == base as int / 16,
        reg((with_pair(base, first, second) as int % 16) / 4) == first,
        reg((with_pair(base, first, second) as int % 16) % 4) == second,
{
    match first {
        GeneralRegister::A => {},
        GeneralRegister::B => {},
        GeneralRegister::C => {},
        GeneralRegister::D => {},
    }
}

/// The register field of an opcode decodes to the register it was built from.
proof fn lemma_register_field(base: u8, r: GeneralRegister)
    requires
        base % 4 == 0,
        base <= 0xFC,
    ensures
        with_register(base, r) as int / 16 == base as int / 16,
        with_register(base, r) as int % 16 == base as int % 16 + r.spec_index(),
        reg((with_register(base, r) as int % 16) % 4) == r,
{
}

impl MachineInstruction {
    /// Decodes a byte by matching its most significant bits against each
    /// instruction family, longest prefixes of a family first.
    pub fn from_byte(value: u8) -> (r: MachineInstruction)
        ensures
            r == spec_decode(value),
    {
        proof {
            lemma2_to64();
        }
        let first = GeneralRegister::from_index((value % 16) / 4);
        let second = GeneralRegister::from_index(value % 4);
        if value.starts_with(0b00_00, 4) {
            MachineInstruction::MV { dst: first, src: second }
        } else if value.starts_with(0b00_01_00, 6) {
            MachineInstruction::MEMR { dst: second }
        } else if value.starts_with(0b00_01_01, 6) {
            MachineInstruction::MEMW { src: second }
        } else if value.starts_with(0b00_01_10, 6) {
            MachineInstruction::MSRL { src: second }
        } else if value.starts_with(0b00_01_11, 6) {
            MachineInstruction::MSRH { src: second }
        } else if value.starts_with(0b00_10_00, 6) {
            MachineInstruction::LI { dst: second }
        } else if value.starts_with(0b00_10_01, 6) {
            MachineInstruction::ZERO { dst: second }
        } else if value == 0b00_10_11_00 {
            MachineInstruction::RTWL
        } else if value == 0b00_10_11_01 {
            MachineInstruction::RTWH
        } else if value == 0b00_10_11_10 {
            MachineInstruction::RTRL
        } else if value == 0b00_10_11_11 {
            MachineInstruction::RTRH
        } else if value.starts_with(0b01_00, 4) {
            MachineInstruction::ADD { acc: first, val: second }
        } else if value.starts_with(0b01_01, 4) {
            MachineInstruction::SUB { acc: first, val: second }
        } else if value.starts_with(0b01_10, 4) {
            MachineInstruction::NAND { acc: first, val: second }
        } else if value.starts_with(0b01_11, 4) {
            MachineInstruction::XOR { acc: first, val: second }
        } else if value.starts_with(0b10_00_00, 6) {
            MachineInstruction::ADDI { dst: second }
        } else if value.starts_with(0b10_00_01, 6) {
            MachineInstruction::INC { dst: second }
        } else if value.starts_with(0b10_00_10, 6) {
            MachineInstruction::DEC { dst: second }
        } else if value.starts_with(0b10_00_11, 6) {
            MachineInstruction::NEG { dst: second }
        } else if value == 0b11_00_00_00 {
            MachineInstruction::PJMP
        } else if value == 0b11_00_00_01 {
            MachineInstruction::JMP
        } else if value == 0b11_00_00_10 {
            MachineInstruction::JAL
        } else if value == 0b11_00_00_11 {
            MachineInstruction::RET
        } else if value == 0b11_00_01_00 {
            MachineInstruction::JCR
        } else if value == 0b11_00_01_01 {
            MachineInstruction::JZR
        } else if value == 0b11_00_01_10 {
            MachineInstruction::JNR
        } else if value == 0b11_00_01_11 {
            MachineInstruction::JLTR
        } else if value.starts_with(0b11_11_00, 6) {
            MachineInstruction::SPSL { src: second }
        } else if value.starts_with(0b11_11_01, 6) {
            MachineInstruction::SPSH { src: second }
        } else if value == 0b11_11_10_00 {
            MachineInstruction::PUSH
        } else if value == 0b11_11_10_01 {
            MachineInstruction::PULL
        } else if value == 0b11_11_10_10 {
            MachineInstruction::PEEK
        } else if value == 0b11_11_10_11 {
            MachineInstruction::SPOF
        } else if value == 0b11_11_11_11 {
            MachineInstruction::HLT
        } else {
            MachineInstruction::NOP
        }
    }

    /// The opcode byte of this instruction: the byte that decodes to it, and
    /// for NOP the canonical one.
    pub fn opcode(&self) -> (r: u8)
        ensures
            r == spec_encode(*self),
    {
        if *self == MachineInstruction::NOP {
            return CANONICAL_NOP;
        }
        proof {
            lemma_decode_of_encode(*self);
        }
        let mut value: u16 = 0;
        while value < 256
            invariant
                value <= 256,
                *self != MachineInstruction::NOP,
                spec_decode(spec_encode(*self)) == *self,
                forall|c: u8| (c as u16) < value ==> spec_decode(c) != *self,
            decreases 256 - value,
        {
            let decoded = MachineInstruction::from_byte(value as u8);
            if decoded == *self {
                proof {
                    lemma_encode_of_decode(value as u8);
                }
                return value as u8;
            }
            value = value + 1;
        }
        proof {
            let c = spec_encode(*self);
            assert((c as u16) < value);
        }
        0
    }
}

/// Encoding an instruction and decoding the byte gives the instruction back,
/// for every instruction.
#[verifier::rlimit(50)]
pub proof fn lemma_decode_of_encode(i: MachineInstruction)
    ensures
        spec_decode(spec_encode(i)) == i,
{
    match i {
        MachineInstruction::MV { dst, src } => lemma_pair_fields(0x00, dst, src),
        MachineInstruction::MEMR { dst } => lemma_register_field(0x10, dst),
        MachineInstruction::MEMW { src } => lemma_register_field(0x14, src),
        MachineInstruction::MSRL { src } => lemma_register_field(0x18, src),
        MachineInstruction::MSRH { src } => lemma_register_field(0x1C, src),
        MachineInstruction::LI { dst } => lemma_register_field(0x20, dst),
        MachineInstruction::ZERO { dst } => lemma_register_field(0x24, dst),
        MachineInstruction::ADD { acc, val } => lemma_pair_fields(0x40, acc, val),
        MachineInstruction::SUB { acc, val } => lemma_pair_fields(0x50, acc, val),
        MachineInstruction::NAND { acc, val } => lemma_pair_fields(0x60, acc, val),
        MachineInstruction::XOR { acc, val } => lemma_pair_fields(0x70, acc, val),
        MachineInstruction::ADDI { dst } => lemma_register_field(0x80, dst),
        MachineInstruction::INC { dst } => lemma_register_field(0x84, dst),
        MachineInstruction::DEC { dst } => lemma_register_field(0x88, dst),
        MachineInstruction::NEG { dst } => lemma_register_field(0x8C, dst),
        MachineInstruction::SPSL { src } => lemma_register_field(0xF0, src),
        MachineInstruction::SPSH { src } => lemma_register_field(0xF4, src),
        _ => {},
    }
}

/// Decoding a byte and encoding the instruction gives the byte back, but for
/// the bytes without an instruction of their own: those decode to NOP, which
/// encodes to the canonical NOP byte.
pub proof fn lemma_encode_of_decode(b: u8)
    ensures
        spec_encode(spec_decode(b)) == if spec_decode(b) == MachineInstruction::NOP {
            CANONICAL_NOP
        } else {
            b
        },
        spec_decode(CANONICAL_NOP) == MachineInstruction::NOP,
{
    let lo = b as int % 16;
    lemma_register_index(lo / 4);
    lemma_register_index(lo % 4);
}

} // verus!

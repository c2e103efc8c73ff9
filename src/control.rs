use vstd::prelude::*;
use crate::register::GeneralRegister;

verus! {

/// One control signal of the CPU; each owns one bit of a control word.
#[allow(clippy::upper_case_acronyms)]
#[derive(PartialEq, Eq, Structural, Clone, Copy, Debug)]
pub enum ControlLine {
    /// Reset the whole machine.
    RST,
    /// Reset the microcode step counter.
    MRST,
    /// Register Out Enable: put the selected general register on the bus.
    ROE,
    /// Register Out select, low bit.
    ROL,
    /// Register Out select, high bit.
    ROH,
    /// Register In Enable: load the bus into the selected general register.
    RIE,
    /// Register In select, low bit.
    RIL,
    /// Register In select, high bit.
    RIH,
    /// Halt the clock.
    HLT,
    /// Memory In: write the bus to RAM.
    MI,
    /// Write the bus to a RAM address register.
    WME,
    /// Select the RAM address register, low or high.
    WMS,
    /// Memory Instruction Select: address RAM through the address registers.
    MIS,
    /// Instruction Pointer Advance: increment the instruction pointer.
    IPA,
    /// Memory Out: put the addressed RAM byte on the bus.
    MO,
    /// Instruction Register Enable: load the bus into the instruction register.
    IRE,
    /// ALU 1 In: load the bus into ALU register 1.
    A1I,
    /// ALU 2 In: load the bus into ALU register 2.
    A2I,
    /// Carry In: operate with carry.
    CI,
    /// ALU operation select, low bit.
    AOPL,
    /// ALU operation select, high bit.
    AOPH,
    /// ALU Out: put the ALU result on the bus.
    AO,
    /// Instruction Pointer Enable.
    IPE,
    /// Instruction Pointer Out: put the instruction pointer on the bus.
    IPO,
    /// Instruction Pointer select, low or high.
    IPS,
    /// One Out: put 0x01 on the bus.
    ONEO,
    /// FF Out: put 0xFF on the bus.
    FFO,
    /// Stack Pointer Enable.
    SPE,
    /// Stack Pointer In: load the bus into the selected stack pointer register.
    SPI,
    /// Stack Pointer select, low or high.
    SPS,
    /// Jump register In: load the bus into the selected jump register.
    JMPI,
    /// Jump register Enable.
    JMPE,
    /// Jump register select, low or high.
    JMPS,
    /// Return register In: load the bus into the selected return register.
    RETI,
    /// Return register Enable.
    RETE,
    /// Return register select, low or high.
    RETS,
}

impl ControlLine {
    /// The control word bit that this line owns.
    pub open spec fn spec_value(self) -> u64 {
        match self {
            ControlLine::RST => 0x1,
            ControlLine::MRST => 0x2,
            ControlLine::ROE => 0x4,
            ControlLine::ROL => 0x8,
            ControlLine::ROH => 0x10,
            ControlLine::RIE => 0x20,
            ControlLine::RIL => 0x40,
            ControlLine::RIH => 0x80,
            ControlLine::HLT => 0x100,
            ControlLine::MI => 0x200,
            ControlLine::WME => 0x400,
            ControlLine::WMS => 0x800,
            ControlLine::MIS => 0x1000,
            ControlLine::IPA => 0x2000,
            ControlLine::MO => 0x4000,
            ControlLine::IRE => 0x8000,
            ControlLine::A1I => 0x10000,
            ControlLine::A2I => 0x20000,
            ControlLine::CI => 0x40000,
            ControlLine::AOPL => 0x80000,
            ControlLine::AOPH => 0x100000,
            ControlLine::AO => 0x200000,
            ControlLine::IPE => 0x1000000,
            ControlLine::IPO => 0x2000000,
            ControlLine::IPS => 0x4000000,
            ControlLine::ONEO => 0x8000000,
            ControlLine::FFO => 0x10000000,
            ControlLine::SPE => 0x20000000,
            ControlLine::SPI => 0x40000000,
            ControlLine::SPS => 0x80000000,
            ControlLine::JMPI => 0x100000000,
            ControlLine::JMPE => 0x200000000,
            ControlLine::JMPS => 0x400000000,
            ControlLine::RETI => 0x800000000,
            ControlLine::RETE => 0x1000000000,
            ControlLine::RETS => 0x2000000000,
        }
    }

    #[verifier::rlimit(100)]
    #[verifier::spinoff_prover]
    pub fn value(&self) -> (r: u64)
        ensures
            r == self.spec_value(),
    {
        match self {
            ControlLine::RST => 0x1,
            ControlLine::MRST => 0x2,
            ControlLine::ROE => 0x4,
            ControlLine::ROL => 0x8,
            ControlLine::ROH => 0x10,
            ControlLine::RIE => 0x20,
            ControlLine::RIL => 0x40,
            ControlLine::RIH => 0x80,
            ControlLine::HLT => 0x100,
            ControlLine::MI => 0x200,
            ControlLine::WME => 0x400,
            ControlLine::WMS => 0x800,
            ControlLine::MIS => 0x1000,
            ControlLine::IPA => 0x2000,
            ControlLine::MO => 0x4000,
            ControlLine::IRE => 0x8000,
            ControlLine::A1I => 0x10000,
            ControlLine::A2I => 0x20000,
            ControlLine::CI => 0x40000,
            ControlLine::AOPL => 0x80000,
            ControlLine::AOPH => 0x100000,
            ControlLine::AO => 0x200000,
            ControlLine::IPE => 0x1000000,
            ControlLine::IPO => 0x2000000,
            ControlLine::IPS => 0x4000000,
            ControlLine::ONEO => 0x8000000,
            ControlLine::FFO => 0x10000000,
            ControlLine::SPE => 0x20000000,
            ControlLine::SPI => 0x40000000,
            ControlLine::SPS => 0x80000000,
            ControlLine::JMPI => 0x100000000,
            ControlLine::JMPE => 0x200000000,
            ControlLine::JMPS => 0x400000000,
            ControlLine::RETI => 0x800000000,
            ControlLine::RETE => 0x1000000000,
            ControlLine::RETS => 0x2000000000,
        }
    }
}

/// The lines set in a control word: the values of `lines`, or-ed together.
pub open spec fn lines_value(lines: Seq<ControlLine>) -> u64
    decreases lines.len(),
{
    if lines.len() == 0 {
        0
    } else {
        lines_value(lines.drop_last()) | lines.last().spec_value()
    }
}

/// The control signals of one microcode step.
#[derive(Clone, Copy, Debug)]
pub struct ControlWord(pub u64);

impl ControlWord {
    pub fn from_lines(lines: &[ControlLine]) -> (r: ControlWord)
        ensures
            r.0 == lines_value(lines@),
    {
        let mut value: u64 = 0;
        let mut i: usize = 0;
        while i < lines.len()
            invariant
                i <= lines@.len(),
                value == lines_value(lines@.subrange(0, i as int)),
            decreases lines.len() - i,
        {
            proof {
                let done = lines@.subrange(0, i + 1);
                assert(done.drop_last() =~= lines@.subrange(0, i as int));
            }
            value = value | lines[i].value();
            i = i + 1;
        }
        proof {
            assert(lines@.subrange(0, lines@.len() as int) =~= lines@);
        }
        ControlWord(value)
    }

    pub fn value(&self) -> (r: u64)
        ensures
            r == self.0,
    {
        self.0
    }

    /// The lines of both words.
    pub fn union(self, other: ControlWord) -> (r: ControlWord)
        ensures
            r.0 == self.0 | other.0,
    {
        ControlWord(self.0 | other.0)
    }
}

/// A status flag of the ALU.
#[allow(clippy::upper_case_acronyms)]
#[derive(PartialEq, Eq, Structural, Clone, Copy, Debug)]
pub enum Flag {
    /// Zero: the ALU output is 0x00.
    FZ,
    /// Carry out of the ALU.
    CO,
    /// ALU register 2 is greater than ALU register 1.
    A2G1,
    /// The ALU output is negative.
    NEG,
}

impl Flag {
    pub open spec fn spec_value(self) -> u8 {
        match self {
            Flag::FZ => 0b0001,
            Flag::CO => 0b0010,
            Flag::A2G1 => 0b0100,
            Flag::NEG => 0b1000,
        }
    }

    pub fn value(&self) -> (r: u8)
        ensures
            r == self.spec_value(),
    {
        match self {
            Flag::FZ => 0b0001,
            Flag::CO => 0b0010,
            Flag::A2G1 => 0b0100,
            Flag::NEG => 0b1000,
        }
    }
}

pub open spec fn flags_value(flags: Seq<Flag>) -> u8
    decreases flags.len(),
{
    if flags.len() == 0 {
        0
    } else {
        flags_value(flags.drop_last()) | flags.last().spec_value()
    }
}

/// A set of flags, one bit each in the low nibble.
pub struct Flags(pub u8);

impl Flags {
    pub fn from_flags(flags: &[Flag]) -> (r: Flags)
        ensures
            r.0 == flags_value(flags@),
    {
        let mut value: u8 = 0;
        let mut i: usize = 0;
        while i < flags.len()
            invariant
                i <= flags@.len(),
                value == flags_value(flags@.subrange(0, i as int)),
            decreases flags.len() - i,
        {
            proof {
                let done = flags@.subrange(0, i + 1);
                assert(done.drop_last() =~= flags@.subrange(0, i as int));
            }
            value = value | flags[i].value();
            i = i + 1;
        }
        proof {
            assert(flags@.subrange(0, flags@.len() as int) =~= flags@);
        }
        Flags(value)
    }

    /// The flags of a 4-bit pattern.
    pub fn from_bits(value: u8) -> (r: Flags)
        requires
            value <= 0b1111,
        ensures
            r.0 == value,
    {
        Flags(value)
    }

    pub fn has(&self, flag: Flag) -> (r: bool)
        ensures
            r == (self.0 & flag.spec_value() != 0),
    {
        (self.0 & flag.value()) != 0
    }
}

/// The lines that load the bus into a register.
pub open spec fn register_in_lines(r: GeneralRegister) -> Seq<ControlLine> {
    match r {
        GeneralRegister::A => seq![ControlLine::RIE],
        GeneralRegister::B => seq![ControlLine::RIE, ControlLine::RIL],
        GeneralRegister::C => seq![ControlLine::RIE, ControlLine::RIH],
        GeneralRegister::D => seq![ControlLine::RIE, ControlLine::RIH, ControlLine::RIL],
    }
}

/// The lines that put a register on the bus.
pub open spec fn register_out_lines(r: GeneralRegister) -> Seq<ControlLine> {
    match r {
        GeneralRegister::A => seq![ControlLine::ROE],
        GeneralRegister::B => seq![ControlLine::ROE, ControlLine::ROL],
        GeneralRegister::C => seq![ControlLine::ROE, ControlLine::ROH],
        GeneralRegister::D => seq![ControlLine::ROE, ControlLine::ROH, ControlLine::ROL],
    }
}

impl GeneralRegister {
    pub fn register_in(&self) -> (r: ControlWord)
        ensures
            r.0 == lines_value(register_in_lines(*self)),
    {
        let lines: Vec<ControlLine> = match self {
            GeneralRegister::A => vec![ControlLine::RIE],
            GeneralRegister::B => vec![ControlLine::RIE, ControlLine::RIL],
            GeneralRegister::C => vec![ControlLine::RIE, ControlLine::RIH],
            GeneralRegister::D => vec![ControlLine::RIE, ControlLine::RIH, ControlLine::RIL],
        };
        proof {
            assert(lines@ =~= register_in_lines(*self));
        }
        ControlWord::from_lines(lines.as_slice())
    }

    pub fn register_out(&self) -> (r: ControlWord)
        ensures
            r.0 == lines_value(register_out_lines(*self)),
    {
        let lines: Vec<ControlLine> = match self {
            GeneralRegister::A => vec![ControlLine::ROE],
            GeneralRegister::B => vec![ControlLine::ROE, ControlLine::ROL],
            GeneralRegister::C => vec![ControlLine::ROE, ControlLine::ROH],
            GeneralRegister::D => vec![ControlLine::ROE, ControlLine::ROH, ControlLine::ROL],
        };
        proof {
            assert(lines@ =~= register_out_lines(*self));
        }
        ControlWord::from_lines(lines.as_slice())
    }
}

} // verus!

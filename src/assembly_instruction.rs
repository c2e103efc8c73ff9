use vstd::prelude::*;
use crate::machine_instruction::MachineInstruction;
use crate::register::AssemblyRegister;

verus! {

/// The address operand of PJMP.
#[derive(Debug)]
pub enum AbsoluteAddress {
    Label { name: String },
    HardCoded { address: u16 },
}

/// The offset operand of a relative branch.
#[derive(Debug)]
pub enum Offset {
    Label { name: String },
    HardCoded { offset: i8 },
}

/// What follows an opcode in the program, as a mathematical value.
pub enum OperandView {
    Nothing,
    /// A literal byte.
    Byte(u8),
    /// A literal 16-bit address.
    Address(u16),
    /// An absolute label, resolved when linking.
    AbsoluteLabel(Seq<char>),
    /// A literal signed displacement.
    Offset(i8),
    /// A relative label, resolved when linking.
    RelativeLabel(Seq<char>),
}

impl AbsoluteAddress {
    pub open spec fn operand(&self) -> OperandView {
        match self {
            AbsoluteAddress::Label { name } => OperandView::AbsoluteLabel(name@),
            AbsoluteAddress::HardCoded { address } => OperandView::Address(*address),
        }
    }
}

impl Offset {
    pub open spec fn operand(&self) -> OperandView {
        match self {
            Offset::Label { name } => OperandView::RelativeLabel(name@),
            Offset::HardCoded { offset } => OperandView::Offset(*offset),
        }
    }
}

/// What follows an opcode in the program.
#[derive(Debug)]
pub enum Operand {
    Nothing,
    Byte(u8),
    Address(u16),
    AbsoluteLabel(String),
    Offset(i8),
    RelativeLabel(String),
}

impl View for Operand {
    type V = OperandView;

    open spec fn view(&self) -> OperandView {
        match self {
            Operand::Nothing => OperandView::Nothing,
            Operand::Byte(b) => OperandView::Byte(*b),
            Operand::Address(a) => OperandView::Address(*a),
            Operand::AbsoluteLabel(n) => OperandView::AbsoluteLabel(n@),
            Operand::Offset(o) => OperandView::Offset(*o),
            Operand::RelativeLabel(n) => OperandView::RelativeLabel(n@),
        }
    }
}

impl AbsoluteAddress {
    pub fn operand_of(&self) -> (r: Operand)
        ensures
            r@ == self.operand(),
    {
        match self {
            AbsoluteAddress::Label { name } => Operand::AbsoluteLabel(name.clone()),
            AbsoluteAddress::HardCoded { address } => Operand::Address(*address),
        }
    }
}

impl Offset {
    pub fn operand_of(&self) -> (r: Operand)
        ensures
            r@ == self.operand(),
    {
        match self {
            Offset::Label { name } => Operand::RelativeLabel(name.clone()),
            Offset::HardCoded { offset } => Operand::Offset(*offset),
        }
    }
}

/// A parsed instruction: the opcode it stands for and its operand.
pub struct InstructionView {
    pub machine: MachineInstruction,
    pub operand: OperandView,
}

/// One instruction as written in assembly, with its operands.
#[allow(clippy::upper_case_acronyms)]
#[derive(Debug)]
pub enum AssemblyInstruction {
    NOP,
    MV { dst: AssemblyRegister, src: AssemblyRegister },
    MEMR { dst: AssemblyRegister },
    MEMW { src: AssemblyRegister },
    MSRL { src: AssemblyRegister },
    MSRH { src: AssemblyRegister },
    LI { dst: AssemblyRegister, value: u8 },
    ZERO { dst: AssemblyRegister },
    RTWL,
    RTWH,
    RTRL,
    RTRH,
    ADD { acc: AssemblyRegister, val: AssemblyRegister },
    SUB { acc: AssemblyRegister, val: AssemblyRegister },
    NAND { acc: AssemblyRegister, val: AssemblyRegister },
    XOR { acc: AssemblyRegister, val: AssemblyRegister },
    ADDI { dst: AssemblyRegister, value: u8 },
    INC { dst: AssemblyRegister },
    DEC { dst: AssemblyRegister },
    NEG { dst: AssemblyRegister },
    PJMP { address: AbsoluteAddress },
    JMP,
    JAL,
    RET,
    JCR { offset: Offset },
    JZR { offset: Offset },
    JNR { offset: Offset },
    JLTR { offset: Offset },
    SPSL { src: AssemblyRegister },
    SPSH { src: AssemblyRegister },
    PUSH,
    PULL,
    PEEK,
    SPOF { offset: u8 },
    HLT,
}

impl View for AssemblyInstruction {
    type V = InstructionView;

    open spec fn view(&self) -> InstructionView {
        match self {
            AssemblyInstruction::NOP => InstructionView { machine: MachineInstruction::NOP, operand: OperandView::Nothing },
            AssemblyInstruction::MV { dst, src } => InstructionView { machine: MachineInstruction::MV { dst: dst.spec_general(), src: src.spec_general() }, operand: OperandView::Nothing },
            AssemblyInstruction::MEMR { dst } => InstructionView { machine: MachineInstruction::MEMR { dst: dst.spec_general() }, operand: OperandView::Nothing },
            AssemblyInstruction::MEMW { src } => InstructionView { machine: MachineInstruction::MEMW { src: src.spec_general() }, operand: OperandView::Nothing },
            AssemblyInstruction::MSRL { src } => InstructionView { machine: MachineInstruction::MSRL { src: src.spec_general() }, operand: OperandView::Nothing },
            AssemblyInstruction::MSRH { src } => InstructionView { machine: MachineInstruction::MSRH { src: src.spec_general() }, operand: OperandView::Nothing },
            AssemblyInstruction::LI { dst, value } => InstructionView { machine: MachineInstruction::LI { dst: dst.spec_general() }, operand: OperandView::Byte(*value) },
            AssemblyInstruction::ZERO { dst } => InstructionView { machine: MachineInstruction::ZERO { dst: dst.spec_general() }, operand: OperandView::Nothing },
            AssemblyInstruction::RTWL => InstructionView { machine: MachineInstruction::RTWL, operand: OperandView::Nothing },
            AssemblyInstruction::RTWH => InstructionView { machine: MachineInstruction::RTWH, operand: OperandView::Nothing },
            AssemblyInstruction::RTRL => InstructionView { machine: MachineInstruction::RTRL, operand: OperandView::Nothing },
            AssemblyInstruction::RTRH => InstructionView { machine: MachineInstruction::RTRH, operand: OperandView::Nothing },
            AssemblyInstruction::ADD { acc, val } => InstructionView { machine: MachineInstruction::ADD { acc: acc.spec_general(), val: val.spec_general() }, operand: OperandView::Nothing },
            AssemblyInstruction::SUB { acc, val } => InstructionView { machine: MachineInstruction::SUB { acc: acc.spec_general(), val: val.spec_general() }, operand: OperandView::Nothing },
            AssemblyInstruction::NAND { acc, val } => InstructionView { machine: MachineInstruction::NAND { acc: acc.spec_general(), val: val.spec_general() }, operand: OperandView::Nothing },
            AssemblyInstruction::XOR { acc, val } => InstructionView { machine: MachineInstruction::XOR { acc: acc.spec_general(), val: val.spec_general() }, operand: OperandView::Nothing },
            AssemblyInstruction::ADDI { dst, value } => InstructionView { machine: MachineInstruction::ADDI { dst: dst.spec_general() }, operand: OperandView::Byte(*value) },
            AssemblyInstruction::INC { dst } => InstructionView { machine: MachineInstruction::INC { dst: dst.spec_general() }, operand: OperandView::Nothing },
            AssemblyInstruction::DEC { dst } => InstructionView { machine: MachineInstruction::DEC { dst: dst.spec_general() }, operand: OperandView::Nothing },
            AssemblyInstruction::NEG { dst } => InstructionView { machine: MachineInstruction::NEG { dst: dst.spec_general() }, operand: OperandView::Nothing },
            AssemblyInstruction::PJMP { address } => InstructionView { machine: MachineInstruction::PJMP, operand: address.operand() },
            AssemblyInstruction::JMP => InstructionView { machine: MachineInstruction::JMP, operand: OperandView::Nothing },
            AssemblyInstruction::JAL => InstructionView { machine: MachineInstruction::JAL, operand: OperandView::Nothing },
            AssemblyInstruction::RET => InstructionView { machine: MachineInstruction::RET, operand: OperandView::Nothing },
            AssemblyInstruction::JCR { offset } => InstructionView { machine: MachineInstruction::JCR, operand: offset.operand() },
            AssemblyInstruction::JZR { offset } => InstructionView { machine: MachineInstruction::JZR, operand: offset.operand() },
            AssemblyInstruction::JNR { offset } => InstructionView { machine: MachineInstruction::JNR, operand: offset.operand() },
            AssemblyInstruction::JLTR { offset } => InstructionView { machine: MachineInstruction::JLTR, operand: offset.operand() },
            AssemblyInstruction::SPSL { src } => InstructionView { machine: MachineInstruction::SPSL { src: src.spec_general() }, operand: OperandView::Nothing },
            AssemblyInstruction::SPSH { src } => InstructionView { machine: MachineInstruction::SPSH { src: src.spec_general() }, operand: OperandView::Nothing },
            AssemblyInstruction::PUSH => InstructionView { machine: MachineInstruction::PUSH, operand: OperandView::Nothing },
            AssemblyInstruction::PULL => InstructionView { machine: MachineInstruction::PULL, operand: OperandView::Nothing },
            AssemblyInstruction::PEEK => InstructionView { machine: MachineInstruction::PEEK, operand: OperandView::Nothing },
            AssemblyInstruction::SPOF { offset } => InstructionView { machine: MachineInstruction::SPOF, operand: OperandView::Byte(*offset) },
            AssemblyInstruction::HLT => InstructionView { machine: MachineInstruction::HLT, operand: OperandView::Nothing },
        }
    }
}

impl AssemblyInstruction {
    /// The opcode this instruction stands for, and its operand.
    #[verifier::spinoff_prover]
    #[verifier::rlimit(100)]
    pub fn parts(&self) -> (r: (MachineInstruction, Operand))
        ensures
            r.0 == self@.machine,
            r.1@ == self@.operand,
    {
        match self {
            AssemblyInstruction::NOP => (MachineInstruction::NOP, Operand::Nothing),
            AssemblyInstruction::MV { dst, src } => (MachineInstruction::MV { dst: dst.general(), src: src.general() }, Operand::Nothing),
            AssemblyInstruction::MEMR { dst } => (MachineInstruction::MEMR { dst: dst.general() }, Operand::Nothing),
            AssemblyInstruction::MEMW { src } => (MachineInstruction::MEMW { src: src.general() }, Operand::Nothing),
            AssemblyInstruction::MSRL { src } => (MachineInstruction::MSRL { src: src.general() }, Operand::Nothing),
            AssemblyInstruction::MSRH { src } => (MachineInstruction::MSRH { src: src.general() }, Operand::Nothing),
            AssemblyInstruction::LI { dst, value } => (MachineInstruction::LI { dst: dst.general() }, Operand::Byte(*value)),
            AssemblyInstruction::ZERO { dst } => (MachineInstruction::ZERO { dst: dst.general() }, Operand::Nothing),
            AssemblyInstruction::RTWL => (MachineInstruction::RTWL, Operand::Nothing),
            AssemblyInstruction::RTWH => (MachineInstruction::RTWH, Operand::Nothing),
            AssemblyInstruction::RTRL => (MachineInstruction::RTRL, Operand::Nothing),
            AssemblyInstruction::RTRH => (MachineInstruction::RTRH, Operand::Nothing),
            AssemblyInstruction::ADD { acc, val } => (MachineInstruction::ADD { acc: acc.general(), val: val.general() }, Operand::Nothing),
            AssemblyInstruction::SUB { acc, val } => (MachineInstruction::SUB { acc: acc.general(), val: val.general() }, Operand::Nothing),
            AssemblyInstruction::NAND { acc, val } => (MachineInstruction::NAND { acc: acc.general(), val: val.general() }, Operand::Nothing),
            AssemblyInstruction::XOR { acc, val } => (MachineInstruction::XOR { acc: acc.general(), val: val.general() }, Operand::Nothing),
            AssemblyInstruction::ADDI { dst, value } => (MachineInstruction::ADDI { dst: dst.general() }, Operand::Byte(*value)),
            AssemblyInstruction::INC { dst } => (MachineInstruction::INC { dst: dst.general() }, Operand::Nothing),
            AssemblyInstruction::DEC { dst } => (MachineInstruction::DEC { dst: dst.general() }, Operand::Nothing),
            AssemblyInstruction::NEG { dst } => (MachineInstruction::NEG { dst: dst.general() }, Operand::Nothing),
            AssemblyInstruction::PJMP { address } => (MachineInstruction::PJMP, address.operand_of()),
            AssemblyInstruction::JMP => (MachineInstruction::JMP, Operand::Nothing),
            AssemblyInstruction::JAL => (MachineInstruction::JAL, Operand::Nothing),
            AssemblyInstruction::RET => (MachineInstruction::RET, Operand::Nothing),
            AssemblyInstruction::JCR { offset } => (MachineInstruction::JCR, offset.operand_of()),
            AssemblyInstruction::JZR { offset } => (MachineInstruction::JZR, offset.operand_of()),
            AssemblyInstruction::JNR { offset } => (MachineInstruction::JNR, offset.operand_of()),
            AssemblyInstruction::JLTR { offset } => (MachineInstruction::JLTR, offset.operand_of()),
            AssemblyInstruction::SPSL { src } => (MachineInstruction::SPSL { src: src.general() }, Operand::Nothing),
            AssemblyInstruction::SPSH { src } => (MachineInstruction::SPSH { src: src.general() }, Operand::Nothing),
            AssemblyInstruction::PUSH => (MachineInstruction::PUSH, Operand::Nothing),
            AssemblyInstruction::PULL => (MachineInstruction::PULL, Operand::Nothing),
            AssemblyInstruction::PEEK => (MachineInstruction::PEEK, Operand::Nothing),
            AssemblyInstruction::SPOF { offset } => (MachineInstruction::SPOF, Operand::Byte(*offset)),
            AssemblyInstruction::HLT => (MachineInstruction::HLT, Operand::Nothing),
        }
    }
}

} // verus!

use vstd::prelude::*;
use crate::assembly_instruction::{AbsoluteAddress, AssemblyInstruction, InstructionView, Offset, OperandView};
use crate::lexer::{
    has_tag,
    match_tag,
    parse_hex,
    parse_i8,
    parse_name,
    parse_u8,
    run_end,
    scan,
    spec_hex,
    spec_i8,
    spec_name,
    spec_u8,
    CharClass,
    Source,
};
use crate::machine_instruction::MachineInstruction;
use crate::register::AssemblyRegister;

verus! {

/// The number of mnemonics.
pub const MNEMONICS: usize = 35;

/// The operands a mnemonic takes, after one or more spaces.
#[derive(PartialEq, Eq, Structural, Clone, Copy, Debug)]
pub enum Form {
    /// None.
    Bare,
    /// One register.
    Register,
    /// Two registers, separated by a comma.
    Pair,
    /// A register, a comma, and a hexadecimal byte.
    RegisterByte,
    /// An absolute label or a hexadecimal address.
    Address,
    /// A relative label or a signed decimal byte.
    Offset,
    /// An unsigned decimal byte.
    Byte,
}

/// Mnemonic `k`, in the order in which they are tried.
pub open spec fn mnemonic(k: int) -> Seq<char> {
    if k == 0 {
        "NOP"@
    }
    else if k == 1 {
        "MV"@
    }
    else if k == 2 {
        "MEMR"@
    }
    else if k == 3 {
        "MEMW"@
    }
    else if k == 4 {
        "MSRL"@
    }
    else if k == 5 {
        "MSRH"@
    }
    else if k == 6 {
        "LI"@
    }
    else if k == 7 {
        "ZERO"@
    }
    else if k == 8 {
        "RTWL"@
    }
    else if k == 9 {
        "RTWH"@
    }
    else if k == 10 {
        "RTRL"@
    }
    else if k == 11 {
        "RTRH"@
    }
    else if k == 12 {
        "ADD"@
    }
    else if k == 13 {
        "SUB"@
    }
    else if k == 14 {
        "NAND"@
    }
    else if k == 15 {
        "XOR"@
    }
    else if k == 16 {
        "ADDI"@
    }
    else if k == 17 {
        "INC"@
    }
    else if k == 18 {
        "DEC"@
    }
    else if k == 19 {
        "NEG"@
    }
    else if k == 20 {
        "PJMP"@
    }
    else if k == 21 {
        "JMP"@
    }
    else if k == 22 {
        "JAL"@
    }
    else if k == 23 {
        "RET"@
    }
    else if k == 24 {
        "JCR"@
    }
    else if k == 25 {
        "JZR"@
    }
    else if k == 26 {
        "JNR"@
    }
    else if k == 27 {
        "JLTR"@
    }
    else if k == 28 {
        "SPSL"@
    }
    else if k == 29 {
        "SPSH"@
    }
    else if k == 30 {
        "PUSH"@
    }
    else if k == 31 {
        "PULL"@
    }
    else if k == 32 {
        "PEEK"@
    }
    else if k == 33 {
        "SPOF"@
    }
    else {
        "HLT"@
    }
}

pub fn mnemonic_text(k: usize) -> (r: &'static str)
    requires
        k < MNEMONICS,
    ensures
        r@ == mnemonic(k as int),
{
    if k == 0 {
        "NOP"
    }
    else if k == 1 {
        "MV"
    }
    else if k == 2 {
        "MEMR"
    }
    else if k == 3 {
        "MEMW"
    }
    else if k == 4 {
        "MSRL"
    }
    else if k == 5 {
        "MSRH"
    }
    else if k == 6 {
        "LI"
    }
    else if k == 7 {
        "ZERO"
    }
    else if k == 8 {
        "RTWL"
    }
    else if k == 9 {
        "RTWH"
    }
    else if k == 10 {
        "RTRL"
    }
    else if k == 11 {
        "RTRH"
    }
    else if k == 12 {
        "ADD"
    }
    else if k == 13 {
        "SUB"
    }
    else if k == 14 {
        "NAND"
    }
    else if k == 15 {
        "XOR"
    }
    else if k == 16 {
        "ADDI"
    }
    else if k == 17 {
        "INC"
    }
    else if k == 18 {
        "DEC"
    }
    else if k == 19 {
        "NEG"
    }
    else if k == 20 {
        "PJMP"
    }
    else if k == 21 {
        "JMP"
    }
    else if k == 22 {
        "JAL"
    }
    else if k == 23 {
        "RET"
    }
    else if k == 24 {
        "JCR"
    }
    else if k == 25 {
        "JZR"
    }
    else if k == 26 {
        "JNR"
    }
    else if k == 27 {
        "JLTR"
    }
    else if k == 28 {
        "SPSL"
    }
    else if k == 29 {
        "SPSH"
    }
    else if k == 30 {
        "PUSH"
    }
    else if k == 31 {
        "PULL"
    }
    else if k == 32 {
        "PEEK"
    }
    else if k == 33 {
        "SPOF"
    }
    else {
        "HLT"
    }
}

/// The operands that mnemonic `k` takes.
pub open spec fn form(k: int) -> Form {
    if k == 0 {
        Form::Bare
    }
    else if k == 1 {
        Form::Pair
    }
    else if k == 2 {
        Form::Register
    }
    else if k == 3 {
        Form::Register
    }
    else if k == 4 {
        Form::Register
    }
    else if k == 5 {
        Form::Register
    }
    else if k == 6 {
        Form::RegisterByte
    }
    else if k == 7 {
        Form::Register
    }
    else if k == 8 {
        Form::Bare
    }
    else if k == 9 {
        Form::Bare
    }
    else if k == 10 {
        Form::Bare
    }
    else if k == 11 {
        Form::Bare
    }
    else if k == 12 {
        Form::Pair
    }
    else if k == 13 {
        Form::Pair
    }
    else if k == 14 {
        Form::Pair
    }
    else if k == 15 {
        Form::Pair
    }
    else if k == 16 {
        Form::RegisterByte
    }
    else if k == 17 {
        Form::Register
    }
    else if k == 18 {
        Form::Register
    }
    else if k == 19 {
        Form::Register
    }
    else if k == 20 {
        Form::Address
    }
    else if k == 21 {
        Form::Bare
    }
    else if k == 22 {
        Form::Bare
    }
    else if k == 23 {
        Form::Bare
    }
    else if k == 24 {
        Form::Offset
    }
    else if k == 25 {
        Form::Offset
    }
    else if k == 26 {
        Form::Offset
    }
    else if k == 27 {
        Form::Offset
    }
    else if k == 28 {
        Form::Register
    }
    else if k == 29 {
        Form::Register
    }
    else if k == 30 {
        Form::Bare
    }
    else if k == 31 {
        Form::Bare
    }
    else if k == 32 {
        Form::Bare
    }
    else if k == 33 {
        Form::Byte
    }
    else {
        Form::Bare
    }
}

pub fn form_of(k: usize) -> (r: Form)
    requires
        k < MNEMONICS,
    ensures
        r == form(k as int),
{
    if k == 0 {
        Form::Bare
    }
    else if k == 1 {
        Form::Pair
    }
    else if k == 2 {
        Form::Register
    }
    else if k == 3 {
        Form::Register
    }
    else if k == 4 {
        Form::Register
    }
    else if k == 5 {
        Form::Register
    }
    else if k == 6 {
        Form::RegisterByte
    }
    else if k == 7 {
        Form::Register
    }
    else if k == 8 {
        Form::Bare
    }
    else if k == 9 {
        Form::Bare
    }
    else if k == 10 {
        Form::Bare
    }
    else if k == 11 {
        Form::Bare
    }
    else if k == 12 {
        Form::Pair
    }
    else if k == 13 {
        Form::Pair
    }
    else if k == 14 {
        Form::Pair
    }
    else if k == 15 {
        Form::Pair
    }
    else if k == 16 {
        Form::RegisterByte
    }
    else if k == 17 {
        Form::Register
    }
    else if k == 18 {
        Form::Register
    }
    else if k == 19 {
        Form::Register
    }
    else if k == 20 {
        Form::Address
    }
    else if k == 21 {
        Form::Bare
    }
    else if k == 22 {
        Form::Bare
    }
    else if k == 23 {
        Form::Bare
    }
    else if k == 24 {
        Form::Offset
    }
    else if k == 25 {
        Form::Offset
    }
    else if k == 26 {
        Form::Offset
    }
    else if k == 27 {
        Form::Offset
    }
    else if k == 28 {
        Form::Register
    }
    else if k == 29 {
        Form::Register
    }
    else if k == 30 {
        Form::Bare
    }
    else if k == 31 {
        Form::Bare
    }
    else if k == 32 {
        Form::Bare
    }
    else if k == 33 {
        Form::Byte
    }
    else {
        Form::Bare
    }
}

/// Parsed operands.
pub enum Operands {
    Nothing,
    Register(AssemblyRegister),
    Pair(AssemblyRegister, AssemblyRegister),
    RegisterByte(AssemblyRegister, u8),
    Address(AbsoluteAddress),
    Offset(Offset),
    Byte(u8),
}

pub enum OperandsView {
    Nothing,
    Register(AssemblyRegister),
    Pair(AssemblyRegister, AssemblyRegister),
    RegisterByte(AssemblyRegister, u8),
    Address(OperandView),
    Offset(OperandView),
    Byte(u8),
}

impl View for Operands {
    type V = OperandsView;

    open spec fn view(&self) -> OperandsView {
        match self {
            Operands::Nothing => OperandsView::Nothing,
            Operands::Register(r) => OperandsView::Register(*r),
            Operands::Pair(a, b) => OperandsView::Pair(*a, *b),
            Operands::RegisterByte(r, v) => OperandsView::RegisterByte(*r, *v),
            Operands::Address(a) => OperandsView::Address(a.operand()),
            Operands::Offset(o) => OperandsView::Offset(o.operand()),
            Operands::Byte(v) => OperandsView::Byte(*v),
        }
    }
}

/// Whether operands have the shape that `form` gives.
pub open spec fn has_form(ops: OperandsView, form: Form) -> bool {
    match form {
        Form::Bare => ops is Nothing,
        Form::Register => ops is Register,
        Form::Pair => ops is Pair,
        Form::RegisterByte => ops is RegisterByte,
        Form::Address => ops is Address,
        Form::Offset => ops is Offset,
        Form::Byte => ops is Byte,
    }
}

pub open spec fn nop_view() -> InstructionView {
    InstructionView { machine: MachineInstruction::NOP, operand: OperandView::Nothing }
}

/// The instruction that mnemonic `k` with operands `ops` stands for.
pub open spec fn instruction_of(k: int, ops: OperandsView) -> InstructionView {
    if k == 0 {
        InstructionView { machine: MachineInstruction::NOP, operand: OperandView::Nothing }
    }
    else if k == 1 {
        match ops {
            OperandsView::Pair(a, b) => InstructionView {
                machine: MachineInstruction::MV { dst: a.spec_general(), src: b.spec_general() },
                operand: OperandView::Nothing,
            },
            _ => nop_view(),
        }
    }
    else if k == 2 {
        match ops {
            OperandsView::Register(r) => InstructionView {
                machine: MachineInstruction::MEMR { dst: r.spec_general() },
                operand: OperandView::Nothing,
            },
            _ => nop_view(),
        }
    }
    else if k == 3 {
        match ops {
            OperandsView::Register(r) => InstructionView {
                machine: MachineInstruction::MEMW { src: r.spec_general() },
                operand: OperandView::Nothing,
            },
            _ => nop_view(),
        }
    }
    else if k == 4 {
        match ops {
            OperandsView::Register(r) => InstructionView {
                machine: MachineInstruction::MSRL { src: r.spec_general() },
                operand: OperandView::Nothing,
            },
            _ => nop_view(),
        }
    }
    else if k == 5 {
        match ops {
            OperandsView::Register(r) => InstructionView {
                machine: MachineInstruction::MSRH { src: r.spec_general() },
                operand: OperandView::Nothing,
            },
            _ => nop_view(),
        }
    }
    else if k == 6 {
        match ops {
            OperandsView::RegisterByte(r, v) => InstructionView {
                machine: MachineInstruction::LI { dst: r.spec_general() },
                operand: OperandView::Byte(v),
            },
            _ => nop_view(),
        }
    }
    else if k == 7 {
        match ops {
            OperandsView::Register(r) => InstructionView {
                machine: MachineInstruction::ZERO { dst: r.spec_general() },
                operand: OperandView::Nothing,
            },
            _ => nop_view(),
        }
    }
    else if k == 8 {
        InstructionView { machine: MachineInstruction::RTWL, operand: OperandView::Nothing }
    }
    else if k == 9 {
        InstructionView { machine: MachineInstruction::RTWH, operand: OperandView::Nothing }
    }
    else if k == 10 {
        InstructionView { machine: MachineInstruction::RTRL, operand: OperandView::Nothing }
    }
    else if k == 11 {
        InstructionView { machine: MachineInstruction::RTRH, operand: OperandView::Nothing }
    }
    else if k == 12 {
        match ops {
            OperandsView::Pair(a, b) => InstructionView {
                machine: MachineInstruction::ADD { acc: a.spec_general(), val: b.spec_general() },
                operand: OperandView::Nothing,
            },
            _ => nop_view(),
        }
    }
    else if k == 13 {
        match ops {
            OperandsView::Pair(a, b) => InstructionView {
                machine: MachineInstruction::SUB { acc: a.spec_general(), val: b.spec_general() },
                operand: OperandView::Nothing,
            },
            _ => nop_view(),
        }
    }
    else if k == 14 {
        match ops {
            OperandsView::Pair(a, b) => InstructionView {
                machine: MachineInstruction::NAND { acc: a.spec_general(), val: b.spec_general() },
                operand: OperandView::Nothing,
            },
            _ => nop_view(),
        }
    }
    else if k == 15 {
        match ops {
            OperandsView::Pair(a, b) => InstructionView {
                machine: MachineInstruction::XOR { acc: a.spec_general(), val: b.spec_general() },
                operand: OperandView::Nothing,
            },
            _ => nop_view(),
        }
    }
    else if k == 16 {
        match ops {
            OperandsView::RegisterByte(r, v) => InstructionView {
                machine: MachineInstruction::ADDI { dst: r.spec_general() },
                operand: OperandView::Byte(v),
            },
            _ => nop_view(),
        }
    }
    else if k == 17 {
        match ops {
            OperandsView::Register(r) => InstructionView {
                machine: MachineInstruction::INC { dst: r.spec_general() },
                operand: OperandView::Nothing,
            },
            _ => nop_view(),
        }
    }
    else if k == 18 {
        match ops {
            OperandsView::Register(r) => InstructionView {
                machine: MachineInstruction::DEC { dst: r.spec_general() },
                operand: OperandView::Nothing,
            },
            _ => nop_view(),
        }
    }
    else if k == 19 {
        match ops {
            OperandsView::Register(r) => InstructionView {
                machine: MachineInstruction::NEG { dst: r.spec_general() },
                operand: OperandView::Nothing,
            },
            _ => nop_view(),
        }
    }
    else if k == 20 {
        match ops {
            OperandsView::Address(o) => InstructionView { machine: MachineInstruction::PJMP, operand: o },
            _ => nop_view(),
        }
    }
    else if k == 21 {
        InstructionView { machine: MachineInstruction::JMP, operand: OperandView::Nothing }
    }
    else if k == 22 {
        InstructionView { machine: MachineInstruction::JAL, operand: OperandView::Nothing }
    }
    else if k == 23 {
        InstructionView { machine: MachineInstruction::RET, operand: OperandView::Nothing }
    }
    else if k == 24 {
        match ops {
            OperandsView::Offset(o) => InstructionView { machine: MachineInstruction::JCR, operand: o },
            _ => nop_view(),
        }
    }
    else if k == 25 {
        match ops {
            OperandsView::Offset(o) => InstructionView { machine: MachineInstruction::JZR, operand: o },
            _ => nop_view(),
        }
    }
    else if k == 26 {
        match ops {
            OperandsView::Offset(o) => InstructionView { machine: MachineInstruction::JNR, operand: o },
            _ => nop_view(),
        }
    }
    else if k == 27 {
        match ops {
            OperandsView::Offset(o) => InstructionView { machine: MachineInstruction::JLTR, operand: o },
            _ => nop_view(),
        }
    }
    else if k == 28 {
        match ops {
            OperandsView::Register(r) => InstructionView {
                machine: MachineInstruction::SPSL { src: r.spec_general() },
                operand: OperandView::Nothing,
            },
            _ => nop_view(),
        }
    }
    else if k == 29 {
        match ops {
            OperandsView::Register(r) => InstructionView {
                machine: MachineInstruction::SPSH { src: r.spec_general() },
                operand: OperandView::Nothing,
            },
            _ => nop_view(),
        }
    }
    else if k == 30 {
        InstructionView { machine: MachineInstruction::PUSH, operand: OperandView::Nothing }
    }
    else if k == 31 {
        InstructionView { machine: MachineInstruction::PULL, operand: OperandView::Nothing }
    }
    else if k == 32 {
        InstructionView { machine: MachineInstruction::PEEK, operand: OperandView::Nothing }
    }
    else if k == 33 {
        match ops {
            OperandsView::Byte(v) => InstructionView {
                machine: MachineInstruction::SPOF,
                operand: OperandView::Byte(v),
            },
            _ => nop_view(),
        }
    }
    else {
        InstructionView { machine: MachineInstruction::HLT, operand: OperandView::Nothing }
    }
}

#[verifier::rlimit(100)]
#[verifier::spinoff_prover]
fn build(k: usize, ops: Operands) -> (r: AssemblyInstruction)
    requires
        k < MNEMONICS,
        has_form(ops@, form(k as int)),
    ensures
        r@ == instruction_of(k as int, ops@),
{
    if k == 0 {
        AssemblyInstruction::NOP
    }
    else if k == 1 {
        match ops {
            Operands::Pair(a, b) => AssemblyInstruction::MV { dst: a, src: b },
            _ => vstd::pervasive::unreached(),
        }
    }
    else if k == 2 {
        match ops {
            Operands::Register(r) => AssemblyInstruction::MEMR { dst: r },
            _ => vstd::pervasive::unreached(),
        }
    }
    else if k == 3 {
        match ops {
            Operands::Register(r) => AssemblyInstruction::MEMW { src: r },
            _ => vstd::pervasive::unreached(),
        }
    }
    else if k == 4 {
        match ops {
            Operands::Register(r) => AssemblyInstruction::MSRL { src: r },
            _ => vstd::pervasive::unreached(),
        }
    }
    else if k == 5 {
        match ops {
            Operands::Register(r) => AssemblyInstruction::MSRH { src: r },
            _ => vstd::pervasive::unreached(),
        }
    }
    else if k == 6 {
        match ops {
            Operands::RegisterByte(r, v) => AssemblyInstruction::LI { dst: r, value: v },
            _ => vstd::pervasive::unreached(),
        }
    }
    else if k == 7 {
        match ops {
            Operands::Register(r) => AssemblyInstruction::ZERO { dst: r },
            _ => vstd::pervasive::unreached(),
        }
    }
    else if k == 8 {
        AssemblyInstruction::RTWL
    }
    else if k == 9 {
        AssemblyInstruction::RTWH
    }
    else if k == 10 {
        AssemblyInstruction::RTRL
    }
    else if k == 11 {
        AssemblyInstruction::RTRH
    }
    else if k == 12 {
        match ops {
            Operands::Pair(a, b) => AssemblyInstruction::ADD { acc: a, val: b },
            _ => vstd::pervasive::unreached(),
        }
    }
    else if k == 13 {
        match ops {
            Operands::Pair(a, b) => AssemblyInstruction::SUB { acc: a, val: b },
            _ => vstd::pervasive::unreached(),
        }
    }
    else if k == 14 {
        match ops {
            Operands::Pair(a, b) => AssemblyInstruction::NAND { acc: a, val: b },
            _ => vstd::pervasive::unreached(),
        }
    }
    else if k == 15 {
        match ops {
            Operands::Pair(a, b) => AssemblyInstruction::XOR { acc: a, val: b },
            _ => vstd::pervasive::unreached(),
        }
    }
    else if k == 16 {
        match ops {
            Operands::RegisterByte(r, v) => AssemblyInstruction::ADDI { dst: r, value: v },
            _ => vstd::pervasive::unreached(),
        }
    }
    else if k == 17 {
        match ops {
            Operands::Register(r) => AssemblyInstruction::INC { dst: r },
            _ => vstd::pervasive::unreached(),
        }
    }
    else if k == 18 {
        match ops {
            Operands::Register(r) => AssemblyInstruction::DEC { dst: r },
            _ => vstd::pervasive::unreached(),
        }
    }
    else if k == 19 {
        match ops {
            Operands::Register(r) => AssemblyInstruction::NEG { dst: r },
            _ => vstd::pervasive::unreached(),
        }
    }
    else if k == 20 {
        match ops {
            Operands::Address(address) => AssemblyInstruction::PJMP { address },
            _ => vstd::pervasive::unreached(),
        }
    }
    else if k == 21 {
        AssemblyInstruction::JMP
    }
    else if k == 22 {
        AssemblyInstruction::JAL
    }
    else if k == 23 {
        AssemblyInstruction::RET
    }
    else if k == 24 {
        match ops {
            Operands::Offset(offset) => AssemblyInstruction::JCR { offset },
            _ => vstd::pervasive::unreached(),
        }
    }
    else if k == 25 {
        match ops {
            Operands::Offset(offset) => AssemblyInstruction::JZR { offset },
            _ => vstd::pervasive::unreached(),
        }
    }
    else if k == 26 {
        match ops {
            Operands::Offset(offset) => AssemblyInstruction::JNR { offset },
            _ => vstd::pervasive::unreached(),
        }
    }
    else if k == 27 {
        match ops {
            Operands::Offset(offset) => AssemblyInstruction::JLTR { offset },
            _ => vstd::pervasive::unreached(),
        }
    }
    else if k == 28 {
        match ops {
            Operands::Register(r) => AssemblyInstruction::SPSL { src: r },
            _ => vstd::pervasive::unreached(),
        }
    }
    else if k == 29 {
        match ops {
            Operands::Register(r) => AssemblyInstruction::SPSH { src: r },
            _ => vstd::pervasive::unreached(),
        }
    }
    else if k == 30 {
        AssemblyInstruction::PUSH
    }
    else if k == 31 {
        AssemblyInstruction::PULL
    }
    else if k == 32 {
        AssemblyInstruction::PEEK
    }
    else if k == 33 {
        match ops {
            Operands::Byte(v) => AssemblyInstruction::SPOF { offset: v },
            _ => vstd::pervasive::unreached(),
        }
    }
    else {
        AssemblyInstruction::HLT
    }
}


/// A register letter.
pub open spec fn spec_register(s: Seq<char>, p: int) -> Option<AssemblyRegister> {
    if 0 <= p < s.len() {
        if s[p] == 'A' {
            Some(AssemblyRegister::A)
        } else if s[p] == 'B' {
            Some(AssemblyRegister::B)
        } else if s[p] == 'C' {
            Some(AssemblyRegister::C)
        } else if s[p] == 'D' {
            Some(AssemblyRegister::D)
        } else {
            None
        }
    } else {
        None
    }
}

/// Where the operand after a comma starts: spaces, a comma, spaces.
pub open spec fn spec_comma(s: Seq<char>, p: int) -> Option<int> {
    let c = run_end(s, p, CharClass::Space);
    if 0 <= c < s.len() && s[c] == ',' {
        Some(run_end(s, c + 1, CharClass::Space))
    } else {
        None
    }
}

/// The operands of form `form`, which start after the mnemonic, at `m`.
pub open spec fn spec_operands(s: Seq<char>, m: int, form: Form) -> Option<(OperandsView, int)> {
    let p = run_end(s, m, CharClass::Space);
    if form == Form::Bare {
        Some((OperandsView::Nothing, m))
    } else if p == m {
        None
    } else {
        match form {
            Form::Register => match spec_register(s, p) {
                Some(r) => Some((OperandsView::Register(r), p + 1)),
                None => None,
            },
            Form::Pair => match (spec_register(s, p), spec_comma(s, p + 1)) {
                (Some(a), Some(d)) => match spec_register(s, d) {
                    Some(b) => Some((OperandsView::Pair(a, b), d + 1)),
                    None => None,
                },
                _ => None,
            },
            Form::RegisterByte => match (spec_register(s, p), spec_comma(s, p + 1)) {
                (Some(a), Some(d)) => match spec_hex(s, d, 2) {
                    Some((v, e)) => Some((OperandsView::RegisterByte(a, v as u8), e)),
                    None => None,
                },
                _ => None,
            },
            Form::Address => match spec_name(s, p, ':') {
                Some((name, e)) => Some(
                    (OperandsView::Address(OperandView::AbsoluteLabel(name)), e),
                ),
                None => match spec_hex(s, p, 4) {
                    Some((v, e)) => Some((OperandsView::Address(OperandView::Address(v as u16)), e)),
                    None => None,
                },
            },
            Form::Offset => match spec_name(s, p, '.') {
                Some((name, e)) => Some(
                    (OperandsView::Offset(OperandView::RelativeLabel(name)), e),
                ),
                None => match spec_i8(s, p) {
                    Some((v, e)) => Some((OperandsView::Offset(OperandView::Offset(v)), e)),
                    None => None,
                },
            },
            _ => match spec_u8(s, p) {
                Some((v, e)) => Some((OperandsView::Byte(v), e)),
                None => None,
            },
        }
    }
}

/// Mnemonic `k` and its operands, at `p`.
pub open spec fn spec_attempt(s: Seq<char>, p: int, k: int) -> Option<(InstructionView, int)> {
    if has_tag(s, p, mnemonic(k)) {
        match spec_operands(s, p + mnemonic(k).len(), form(k)) {
            Some((ops, e)) => Some((instruction_of(k, ops), e)),
            None => None,
        }
    } else {
        None
    }
}

/// The first of the mnemonics `k..` that matches at `p`, with its operands.
pub open spec fn spec_instruction_from(s: Seq<char>, p: int, k: int) -> Option<
    (InstructionView, int),
>
    decreases MNEMONICS - k,
{
    if k >= MNEMONICS {
        None
    } else {
        match spec_attempt(s, p, k) {
            Some(r) => Some(r),
            None => spec_instruction_from(s, p, k + 1),
        }
    }
}

/// An instruction at `p`: the first mnemonic, in a fixed order, whose text
/// and operands match.
pub open spec fn spec_instruction(s: Seq<char>, p: int) -> Option<(InstructionView, int)> {
    spec_instruction_from(s, p, 0)
}

impl AssemblyRegister {
    pub fn parse(src: &Source, p: usize) -> (r: Option<AssemblyRegister>)
        requires
            p <= src@.len(),
        ensures
            r == spec_register(src@, p as int),
    {
        if p >= src.len() {
            return None;
        }
        let c = src.at(p);
        if c == 'A' {
            Some(AssemblyRegister::A)
        } else if c == 'B' {
            Some(AssemblyRegister::B)
        } else if c == 'C' {
            Some(AssemblyRegister::C)
        } else if c == 'D' {
            Some(AssemblyRegister::D)
        } else {
            None
        }
    }
}

fn parse_comma(src: &Source, p: usize) -> (r: Option<usize>)
    requires
        p <= src@.len(),
    ensures
        match r {
            Some(d) => spec_comma(src@, p as int) == Some(d as int) && d <= src@.len(),
            None => spec_comma(src@, p as int) is None,
        },
{
    let c = scan(src, p, CharClass::Space);
    if c < src.len() && src.at(c) == ',' {
        Some(scan(src, c + 1, CharClass::Space))
    } else {
        None
    }
}

fn parse_operands(src: &Source, m: usize, form: Form) -> (r: Option<(Operands, usize)>)
    requires
        src.wf(),
        m <= src@.len(),
    ensures
        match r {
            Some((ops, e)) => spec_operands(src@, m as int, form) == Some((ops@, e as int)),
            None => spec_operands(src@, m as int, form) is None,
        },
        r matches Some((ops, e)) ==> e <= src@.len() && has_form(ops@, form),
{
    let len = src.len();
    let p = scan(src, m, CharClass::Space);
    if form == Form::Bare {
        return Some((Operands::Nothing, m));
    }
    if p == m {
        return None;
    }
    match form {
        Form::Register => match AssemblyRegister::parse(src, p) {
            Some(r) => Some((Operands::Register(r), p + 1)),
            None => None,
        },
        Form::Pair => {
            let a = match AssemblyRegister::parse(src, p) {
                Some(a) => a,
                None => {
                    return None;
                },
            };
            let d = match parse_comma(src, p + 1) {
                Some(d) => d,
                None => {
                    return None;
                },
            };
            match AssemblyRegister::parse(src, d) {
                Some(b) => Some((Operands::Pair(a, b), d + 1)),
                None => None,
            }
        },
        Form::RegisterByte => {
            let a = match AssemblyRegister::parse(src, p) {
                Some(a) => a,
                None => {
                    return None;
                },
            };
            let d = match parse_comma(src, p + 1) {
                Some(d) => d,
                None => {
                    return None;
                },
            };
            match parse_hex(src, d, 2) {
                Some((v, e)) => Some((Operands::RegisterByte(a, v as u8), e)),
                None => None,
            }
        },
        Form::Address => match parse_name(src, p, ':') {
            Some((name, e)) => Some((Operands::Address(AbsoluteAddress::Label { name }), e)),
            None => match parse_hex(src, p, 4) {
                Some((v, e)) => Some((Operands::Address(AbsoluteAddress::HardCoded { address: v }), e)),
                None => None,
            },
        },
        Form::Offset => match parse_name(src, p, '.') {
            Some((name, e)) => Some((Operands::Offset(Offset::Label { name }), e)),
            None => match parse_i8(src, p) {
                Some((v, e)) => Some((Operands::Offset(Offset::HardCoded { offset: v }), e)),
                None => None,
            },
        },
        _ => match parse_u8(src, p) {
            Some((v, e)) => Some((Operands::Byte(v), e)),
            None => None,
        },
    }
}

impl AssemblyInstruction {
    /// The instruction at `p`, and where it ends.
    pub fn parse(src: &Source, p: usize) -> (r: Option<(AssemblyInstruction, usize)>)
        requires
            src.wf(),
            p <= src@.len(),
        ensures
            match r {
                Some((i, e)) => spec_instruction(src@, p as int) == Some((i@, e as int)),
                None => spec_instruction(src@, p as int) is None,
            },
            r matches Some((_, e)) ==> e <= src@.len(),
    {
        let len = src.len();
        let mut k: usize = 0;
        while k < MNEMONICS
            invariant
                k <= MNEMONICS,
                src.wf(),
                p <= src@.len(),
                len == src@.len(),
                spec_instruction_from(src@, p as int, 0) == spec_instruction_from(
                    src@,
                    p as int,
                    k as int,
                ),
            decreases MNEMONICS - k,
        {
            let t = mnemonic_text(k);
            if match_tag(src, p, t) {
                let n = t.unicode_len();
                match parse_operands(src, p + n, form_of(k)) {
                    Some((ops, e)) => {
                        return Some((build(k, ops), e));
                    },
                    None => {},
                }
            }
            k = k + 1;
        }
        None
    }
}

} // verus!

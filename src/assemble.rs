use vstd::prelude::*;
use crate::assembly_instruction::{AssemblyInstruction, InstructionView, Operand, OperandView};
use crate::assembly_line::{parse_instructions, spec_program, AssemblyLineView};
use crate::binary_program::{
    lemma_duplicate_label_rejected,
    link_result,
    offset_byte,
    spec_link,
    BinaryProgram,
};
use crate::error::{AssemblyError, AssemblyErrorView};
use crate::intermediate_assembly::{
    lower_line,
    lower_program,
    spec_lower,
    IntermediateAssembly,
};
use crate::machine_instruction::spec_encode;

verus! {

/// The machine image of a program text, or the first stage's error:
/// parsing, then lowering, then linking.
pub open spec fn spec_assemble(text: Seq<char>) -> Result<Seq<u8>, AssemblyErrorView> {
    match spec_program(text) {
        Err(e) => Err(e),
        Ok(lines) => match spec_lower(lines) {
            Err(e) => Err(e),
            Ok(elements) => spec_link(elements),
        },
    }
}

/// Assembles program text into machine code.
pub fn assemble(input: &str) -> (r: Result<BinaryProgram, AssemblyError>)
    ensures
        link_result(r) == spec_assemble(input@),
{
    let lines = match parse_instructions(input) {
        Ok(lines) => lines,
        Err(e) => {
            return Err(e);
        },
    };
    let intermediate = match IntermediateAssembly::lower(&lines) {
        Ok(intermediate) => intermediate,
        Err(e) => {
            return Err(e);
        },
    };
    BinaryProgram::link(&intermediate)
}

/// Assembly is deterministic: any two results that `assemble` may give for
/// the same text are the same bytes, or the same error.
pub proof fn lemma_assembly_deterministic(
    text: Seq<char>,
    first: Result<BinaryProgram, AssemblyError>,
    second: Result<BinaryProgram, AssemblyError>,
)
    requires
        link_result(first) == spec_assemble(text),
        link_result(second) == spec_assemble(text),
    ensures
        link_result(first) == link_result(second),
{
}

/// The index of the first element of line `i` once lowered.
pub open spec fn first_element(lines: Seq<AssemblyLineView>, i: int) -> int {
    lower_program(lines.subrange(0, i)).len() as int
}

/// Each line's first element carries the line's label, and lines' first
/// elements come in line order.
proof fn lemma_first_elements(lines: Seq<AssemblyLineView>, i: int, j: int)
    requires
        0 <= i < j < lines.len(),
    ensures
        first_element(lines, i) < first_element(lines, j) < lower_program(lines).len(),
        lower_program(lines)[first_element(lines, i)].label == lines[i].label,
        lower_program(lines)[first_element(lines, j)].label == lines[j].label,
    decreases lines.len(),
{
    let last = lines.len() - 1;
    let front = lines.drop_last();
    assert(lower_program(lines) == lower_program(front) + lower_line(lines[last]));
    if j < last {
        lemma_first_elements(front, i, j);
        assert(front.subrange(0, i) == lines.subrange(0, i));
        assert(front.subrange(0, j) == lines.subrange(0, j));
    } else {
        assert(lines.subrange(0, j) == front);
        if i < j - 1 {
            lemma_first_elements(front, i, j - 1);
            assert(front.subrange(0, i) == lines.subrange(0, i));
        } else {
            assert(lines.subrange(0, i) == front.drop_last());
            assert(front.subrange(0, i) == front.drop_last());
            assert(lower_program(front) == lower_program(front.drop_last()) + lower_line(
                front[i],
            ));
        }
    }
}

/// A program text that declares the same label, of the same kind, on two
/// lines does not assemble.
pub proof fn lemma_duplicate_declaration_rejected(text: Seq<char>, i: int, j: int)
    requires
        spec_program(text) is Ok,
        0 <= i < j < spec_program(text)->Ok_0.len(),
        spec_program(text)->Ok_0[i].label is Some,
        spec_program(text)->Ok_0[i].label == spec_program(text)->Ok_0[j].label,
    ensures
        spec_assemble(text) is Err,
{
    let lines = spec_program(text)->Ok_0;
    if spec_lower(lines) is Ok {
        lemma_first_elements(lines, i, j);
        lemma_duplicate_label_rejected(
            lower_program(lines),
            first_element(lines, i),
            first_element(lines, j),
        );
    }
}

/// The bytes of an instruction whose operands are all literal; none if it
/// refers to a label.
pub open spec fn instruction_bytes(i: InstructionView) -> Option<Seq<u8>> {
    let opcode = seq![spec_encode(i.machine)];
    match i.operand {
        OperandView::Nothing => Some(opcode),
        OperandView::Byte(b) => Some(opcode.push(b)),
        OperandView::Address(a) => Some(opcode.push((a / 256) as u8).push((a % 256) as u8)),
        OperandView::Offset(o) => Some(opcode.push(offset_byte(o as int))),
        OperandView::AbsoluteLabel(_) => None,
        OperandView::RelativeLabel(_) => None,
    }
}

/// Machine code for one instruction with literal operands.
pub fn to_machine_code(instruction: &AssemblyInstruction) -> (r: Option<Vec<u8>>)
    ensures
        match r {
            Some(bytes) => instruction_bytes(instruction@) == Some(bytes@),
            None => instruction_bytes(instruction@) is None,
        },
{
    let (machine, operand) = instruction.parts();
    let mut bytes: Vec<u8> = Vec::new();
    bytes.push(machine.opcode());
    match operand {
        Operand::Nothing => {},
        Operand::Byte(b) => {
            bytes.push(b);
        },
        Operand::Address(a) => {
            bytes.push((a / 256) as u8);
            bytes.push((a % 256) as u8);
        },
        Operand::Offset(o) => {
            let byte: u8 = if o < 0 {
                (o as i16 + 256) as u8
            } else {
                o as u8
            };
            bytes.push(byte);
        },
        Operand::AbsoluteLabel(_) => {
            return None;
        },
        Operand::RelativeLabel(_) => {
            return None;
        },
    }
    proof {
        assert(instruction_bytes(instruction@)->Some_0 =~= bytes@);
    }
    Some(bytes)
}

} // verus!

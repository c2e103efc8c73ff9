use vstd::prelude::*;
use crate::assembly_instruction::{Operand, OperandView};
use crate::assembly_line::{program_view, AssemblyLine, AssemblyLineView};
use crate::binary_program::offset_byte;
use crate::error::{AssemblyError, AssemblyErrorView};
use crate::label::{Label, LabelView};
use crate::machine_instruction::MachineInstruction;

verus! {

/// One unit of output whose byte length is known before any label is resolved.
#[derive(Debug)]
pub enum IntermediateElement {
    /// A label to resolve: two bytes if absolute, one if relative.
    Label(Label),
    /// A literal byte.
    Value(u8),
    /// An opcode byte.
    Instruction(MachineInstruction),
}

pub enum ElementView {
    Label(LabelView),
    Value(u8),
    Instruction(MachineInstruction),
}

impl View for IntermediateElement {
    type V = ElementView;

    open spec fn view(&self) -> ElementView {
        match self {
            IntermediateElement::Label(l) => ElementView::Label(l@),
            IntermediateElement::Value(v) => ElementView::Value(*v),
            IntermediateElement::Instruction(i) => ElementView::Instruction(*i),
        }
    }
}

/// How many bytes an element encodes to.
pub open spec fn element_length(e: ElementView) -> nat {
    match e {
        ElementView::Label(LabelView::Absolute(_)) => 2,
        _ => 1,
    }
}

impl IntermediateElement {
    pub fn content_length(&self) -> (r: u16)
        ensures
            r as nat == element_length(self@),
    {
        match self {
            IntermediateElement::Label(Label::Absolute(_)) => 2,
            IntermediateElement::Label(Label::Relative(_)) => 1,
            IntermediateElement::Value(_) => 1,
            IntermediateElement::Instruction(_) => 1,
        }
    }
}

/// An element, with the label declared at its position, if any.
#[derive(Debug)]
pub struct IntermediateAssemblyLine {
    pub assembly: IntermediateElement,
    pub label: Option<Label>,
}

pub struct LineView {
    pub element: ElementView,
    pub label: Option<LabelView>,
}

pub open spec fn label_view(l: Option<Label>) -> Option<LabelView> {
    match l {
        Some(l) => Some(l@),
        None => None,
    }
}

impl View for IntermediateAssemblyLine {
    type V = LineView;

    open spec fn view(&self) -> LineView {
        LineView { element: self.assembly@, label: label_view(self.label) }
    }
}

impl IntermediateAssemblyLine {
    pub fn new(label: Option<Label>, assembly: IntermediateElement) -> (r: Self)
        ensures
            r@ == (LineView { element: assembly@, label: label_view(label) }),
    {
        IntermediateAssemblyLine { assembly, label }
    }

    pub fn instruction(label: Option<Label>, instruction: MachineInstruction) -> (r: Self)
        ensures
            r@ == (LineView {
                element: ElementView::Instruction(instruction),
                label: label_view(label),
            }),
    {
        IntermediateAssemblyLine { assembly: IntermediateElement::Instruction(instruction), label }
    }

    pub fn value(value: u8) -> (r: Self)
        ensures
            r@ == (LineView { element: ElementView::Value(value), label: None }),
    {
        IntermediateAssemblyLine::new(None, IntermediateElement::Value(value))
    }

    pub fn label_absolute(name: String) -> (r: Self)
        ensures
            r@ == (LineView {
                element: ElementView::Label(LabelView::Absolute(name@)),
                label: None,
            }),
    {
        IntermediateAssemblyLine::new(None, IntermediateElement::Label(Label::Absolute(name)))
    }

    pub fn label_relative(name: String) -> (r: Self)
        ensures
            r@ == (LineView {
                element: ElementView::Label(LabelView::Relative(name@)),
                label: None,
            }),
    {
        IntermediateAssemblyLine::new(None, IntermediateElement::Label(Label::Relative(name)))
    }
}

/// The elements that follow an opcode for its operand. A literal address is
/// split into two bytes, high byte first; labels are left to the linker.
pub open spec fn operand_elements(operand: OperandView) -> Seq<ElementView> {
    match operand {
        OperandView::Nothing => seq![],
        OperandView::Byte(b) => seq![ElementView::Value(b)],
        OperandView::Address(a) => seq![
            ElementView::Value((a / 256) as u8),
            ElementView::Value((a % 256) as u8),
        ],
        OperandView::AbsoluteLabel(n) => seq![ElementView::Label(LabelView::Absolute(n))],
        OperandView::Offset(o) => seq![ElementView::Value(offset_byte(o as int))],
        OperandView::RelativeLabel(n) => seq![ElementView::Label(LabelView::Relative(n))],
    }
}

pub open spec fn unlabelled(e: ElementView) -> LineView {
    LineView { element: e, label: None }
}

/// The elements of one line: its opcode, which carries the line's label, then
/// its operand's elements, which carry none.
pub open spec fn lower_line(line: AssemblyLineView) -> Seq<LineView> {
    seq![
        LineView {
            element: ElementView::Instruction(line.instruction.machine),
            label: line.label,
        },
    ] + operand_elements(line.instruction.operand).map_values(|e: ElementView| unlabelled(e))
}

/// The elements of a program, line after line.
pub open spec fn lower_program(lines: Seq<AssemblyLineView>) -> Seq<LineView>
    decreases lines.len(),
{
    if lines.len() == 0 {
        Seq::empty()
    } else {
        lower_program(lines.drop_last()) + lower_line(lines.last())
    }
}

/// The largest number of elements a lowered program may have.
pub const MAX_ELEMENTS: usize = 65535;

/// Lowering, or the error when the program has too many elements.
pub open spec fn spec_lower(lines: Seq<AssemblyLineView>) -> Result<
    Seq<LineView>,
    AssemblyErrorView,
> {
    if lower_program(lines).len() > MAX_ELEMENTS {
        Err(AssemblyErrorView::ProgramTooLarge(lower_program(lines).len()))
    } else {
        Ok(lower_program(lines))
    }
}

pub open spec fn lines_view(lines: Seq<IntermediateAssemblyLine>) -> Seq<LineView> {
    lines.map_values(|l: IntermediateAssemblyLine| l@)
}

impl IntermediateAssemblyLine {
    /// The elements of one line.
    pub fn map(assembly: &AssemblyLine) -> (r: Vec<IntermediateAssemblyLine>)
        ensures
            lines_view(r@) == lower_line(assembly@),
    {
        let (machine, operand) = assembly.instruction.parts();
        let label = match &assembly.label {
            Some(l) => Some(l.duplicate()),
            None => None,
        };
        let mut r: Vec<IntermediateAssemblyLine> = Vec::new();
        r.push(IntermediateAssemblyLine::instruction(label, machine));
        match operand {
            Operand::Nothing => {},
            Operand::Byte(b) => {
                r.push(IntermediateAssemblyLine::value(b));
            },
            Operand::Address(a) => {
                r.push(IntermediateAssemblyLine::value((a / 256) as u8));
                r.push(IntermediateAssemblyLine::value((a % 256) as u8));
            },
            Operand::AbsoluteLabel(name) => {
                r.push(IntermediateAssemblyLine::label_absolute(name));
            },
            Operand::Offset(o) => {
                let byte: u8 = if o < 0 {
                    (o as i16 + 256) as u8
                } else {
                    o as u8
                };
                r.push(IntermediateAssemblyLine::value(byte));
            },
            Operand::RelativeLabel(name) => {
                r.push(IntermediateAssemblyLine::label_relative(name));
            },
        }
        proof {
            assert(lines_view(r@) =~= lower_line(assembly@));
        }
        r
    }
}

/// The byte offset of element `i`: the lengths of the elements before it, summed.
pub open spec fn offset_at(lines: Seq<LineView>, i: int) -> nat
    decreases i,
{
    if i <= 0 {
        0
    } else {
        offset_at(lines, i - 1) + element_length(lines[i - 1].element)
    }
}

/// The number of bytes the elements encode to.
pub open spec fn total_length(lines: Seq<LineView>) -> nat {
    offset_at(lines, lines.len() as int)
}

/// The lowered program: elements in program order.
pub struct IntermediateAssembly(pub Vec<IntermediateAssemblyLine>);

impl View for IntermediateAssembly {
    type V = Seq<LineView>;

    open spec fn view(&self) -> Seq<LineView> {
        self.0@.map_values(|l: IntermediateAssemblyLine| l@)
    }
}

impl IntermediateAssembly {
    /// Lowers a parsed program to elements, in program order.
    pub fn lower(input: &Vec<AssemblyLine>) -> (r: Result<IntermediateAssembly, AssemblyError>)
        ensures
            match r {
                Ok(a) => spec_lower(program_view(input@)) == Ok::<
                    Seq<LineView>,
                    AssemblyErrorView,
                >(a@),
                Err(e) => spec_lower(program_view(input@)) == Err::<
                    Seq<LineView>,
                    AssemblyErrorView,
                >(e@),
            },
    {
        let ghost lines = program_view(input@);
        let mut out: Vec<IntermediateAssemblyLine> = Vec::new();
        let mut i: usize = 0;
        while i < input.len()
            invariant
                i <= input.len(),
                lines == program_view(input@),
                lines_view(out@) == lower_program(lines.subrange(0, i as int)),
            decreases input.len() - i,
        {
            let mut elements = IntermediateAssemblyLine::map(&input[i]);
            let ghost before = out@;
            out.append(&mut elements);
            proof {
                let done = lines.subrange(0, i as int + 1);
                assert(done.drop_last() =~= lines.subrange(0, i as int));
                assert(done.last() == input@[i as int]@);
                assert(lines_view(out@) =~= lines_view(before) + lower_line(done.last()));
            }
            i = i + 1;
        }
        proof {
            assert(lines.subrange(0, input.len() as int) =~= lines);
        }
        if out.len() > MAX_ELEMENTS {
            return Err(AssemblyError::ProgramTooLarge(out.len()));
        }
        let r = IntermediateAssembly(out);
        proof {
            assert(r@ =~= lines_view(r.0@));
        }
        Ok(r)
    }

    /// The number of bytes the program encodes to.
    pub fn len(&self) -> (r: usize)
        requires
            self@.len() <= usize::MAX / 2,
        ensures
            r as nat == total_length(self@),
    {
        let mut total: usize = 0;
        let mut i: usize = 0;
        while i < self.0.len()
            invariant
                i <= self.0.len(),
                self@.len() == self.0.len(),
                self.0.len() <= usize::MAX / 2,
                total as nat == offset_at(self@, i as int),
                total <= 2 * i,
            decreases self.0.len() - i,
        {
            let n = self.0[i].assembly.content_length();
            total = total + n as usize;
            i = i + 1;
        }
        total
    }
}

} // verus!

use vstd::prelude::*;
use crate::label::{Label, LabelView};

verus! {

/// Why an assembly failed. A failed assembly produces no bytes.
#[derive(Debug)]
pub enum AssemblyError {
    /// The text does not follow the grammar from `position` (in characters) on.
    Syntax { position: usize, remaining: String },
    /// A label is declared twice.
    DuplicateLabel(Label),
    /// A label is used but never declared.
    UndeclaredLabel(Label),
    /// A relative label is too far from the byte that refers to it.
    OffsetOutOfRange { label: Label, address: u16 },
    /// The program does not fit the 16-bit address space; holds its size.
    ProgramTooLarge(usize),
}

pub enum AssemblyErrorView {
    Syntax { position: nat, remaining: Seq<char> },
    DuplicateLabel(LabelView),
    UndeclaredLabel(LabelView),
    OffsetOutOfRange { label: LabelView, address: nat },
    ProgramTooLarge(nat),
}

impl View for AssemblyError {
    type V = AssemblyErrorView;

    open spec fn view(&self) -> AssemblyErrorView {
        match self {
            AssemblyError::Syntax { position, remaining } => AssemblyErrorView::Syntax {
                position: *position as nat,
                remaining: remaining@,
            },
            AssemblyError::DuplicateLabel(l) => AssemblyErrorView::DuplicateLabel(l@),
            AssemblyError::UndeclaredLabel(l) => AssemblyErrorView::UndeclaredLabel(l@),
            AssemblyError::OffsetOutOfRange { label, address } => {
                AssemblyErrorView::OffsetOutOfRange { label: label@, address: *address as nat }
            },
            AssemblyError::ProgramTooLarge(n) => AssemblyErrorView::ProgramTooLarge(*n as nat),
        }
    }
}

} // verus!

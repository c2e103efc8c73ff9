use vstd::prelude::*;
use crate::error::{AssemblyError, AssemblyErrorView};
use crate::intermediate_assembly::{
    element_length,
    offset_at,
    total_length,
    ElementView,
    IntermediateAssembly,
    IntermediateElement,
    LineView,
};
use crate::label::{Label, LabelView};
use crate::machine_instruction::spec_encode;

verus! {

/// The largest number of bytes a program may have.
pub const MAX_PROGRAM_LENGTH: usize = 65535;

/// Label addresses, in the order the labels were declared.
pub type LabelTable = Seq<(LabelView, nat)>;

/// The address of the first entry for `label`, if any.
pub open spec fn lookup(table: LabelTable, label: LabelView) -> Option<nat>
    decreases table.len(),
{
    if table.len() == 0 {
        None
    } else if table[0].0 == label {
        Some(table[0].1)
    } else {
        lookup(table.drop_first(), label)
    }
}

/// Pass 1 over the first `n` elements: each declared label gets the offset of
/// its element; a label declared a second time is the error.
pub open spec fn label_table(lines: Seq<LineView>, n: int) -> Result<LabelTable, LabelView>
    decreases n,
{
    if n <= 0 {
        Ok(Seq::empty())
    } else {
        match label_table(lines, n - 1) {
            Err(l) => Err(l),
            Ok(table) => match lines[n - 1].label {
                None => Ok(table),
                Some(l) => if lookup(table, l) is Some {
                    Err(l)
                } else {
                    Ok(table.push((l, offset_at(lines, n - 1))))
                },
            },
        }
    }
}

/// The byte that holds a signed displacement in `-128..=127`.
pub open spec fn offset_byte(offset: int) -> u8 {
    (if offset < 0 {
        offset + 256
    } else {
        offset
    }) as u8
}

/// The bytes of one element placed at byte `position`.
pub open spec fn element_bytes(e: ElementView, table: LabelTable, position: nat) -> Result<
    Seq<u8>,
    AssemblyErrorView,
> {
    match e {
        ElementView::Instruction(i) => Ok(seq![spec_encode(i)]),
        ElementView::Value(v) => Ok(seq![v]),
        ElementView::Label(l) => match lookup(table, l) {
            None => Err(AssemblyErrorView::UndeclaredLabel(l)),
            Some(address) => match l {
                LabelView::Absolute(_) => Ok(seq![(address / 256) as u8, (address % 256) as u8]),
                LabelView::Relative(_) => {
                    let offset = address - position;
                    if -128 <= offset <= 127 {
                        Ok(seq![offset_byte(offset)])
                    } else {
                        Err(AssemblyErrorView::OffsetOutOfRange { label: l, address })
                    }
                },
            },
        },
    }
}

/// Pass 2 over the first `n` elements: their bytes, in order, or the first error.
pub open spec fn emit(lines: Seq<LineView>, table: LabelTable, n: int) -> Result<
    Seq<u8>,
    AssemblyErrorView,
>
    decreases n,
{
    if n <= 0 {
        Ok(Seq::empty())
    } else {
        match emit(lines, table, n - 1) {
            Err(e) => Err(e),
            Ok(bytes) => match element_bytes(lines[n - 1].element, table, offset_at(lines, n - 1)) {
                Err(e) => Err(e),
                Ok(b) => Ok(bytes + b),
            },
        }
    }
}

/// The machine image of a lowered program, or why there is none.
pub open spec fn spec_link(lines: Seq<LineView>) -> Result<Seq<u8>, AssemblyErrorView> {
    if total_length(lines) > MAX_PROGRAM_LENGTH {
        Err(AssemblyErrorView::ProgramTooLarge(program_size(lines)))
    } else {
        match label_table(lines, lines.len() as int) {
            Err(l) => Err(AssemblyErrorView::DuplicateLabel(l)),
            Ok(table) => emit(lines, table, lines.len() as int),
        }
    }
}

pub open spec fn table_view(table: Seq<(Label, u16)>) -> LabelTable {
    table.map_values(|e: (Label, u16)| (e.0@, e.1 as nat))
}

/// Byte offsets never decrease along the program.
pub proof fn lemma_offset_monotonic(lines: Seq<LineView>, i: int, j: int)
    requires
        0 <= i <= j,
    ensures
        offset_at(lines, i) <= offset_at(lines, j),
    decreases j - i,
{
    if i < j {
        lemma_offset_monotonic(lines, i, j - 1);
    }
}

/// Once pass 1 has failed on a prefix, it fails the same way on every longer one.
proof fn lemma_table_error_persists(lines: Seq<LineView>, i: int, j: int)
    requires
        0 <= i <= j,
        label_table(lines, i) is Err,
    ensures
        label_table(lines, j) == label_table(lines, i),
    decreases j - i,
{
    if i < j {
        lemma_table_error_persists(lines, i, j - 1);
    }
}

proof fn lemma_lookup_step(table: LabelTable, i: int, label: LabelView)
    requires
        0 <= i < table.len(),
    ensures
        lookup(table.subrange(i, table.len() as int), label) == if table[i].0 == label {
            Some(table[i].1)
        } else {
            lookup(table.subrange(i + 1, table.len() as int), label)
        },
{
    assert(table.subrange(i, table.len() as int).drop_first() =~= table.subrange(
        i + 1,
        table.len() as int,
    ));
}

/// The address of `label` in `table`.
fn find(table: &Vec<(Label, u16)>, label: &Label) -> (r: Option<u16>)
    ensures
        match r {
            Some(a) => lookup(table_view(table@), label@) == Some(a as nat),
            None => lookup(table_view(table@), label@) is None,
        },
{
    let ghost t = table_view(table@);
    let mut i: usize = 0;
    proof {
        assert(t.subrange(0, t.len() as int) =~= t);
    }
    while i < table.len()
        invariant
            i <= table.len(),
            t == table_view(table@),
            t.len() == table.len(),
            lookup(t, label@) == lookup(t.subrange(i as int, t.len() as int), label@),
        decreases table.len() - i,
    {
        proof {
            lemma_lookup_step(t, i as int, label@);
        }
        if table[i].0 == *label {
            return Some(table[i].1);
        }
        i = i + 1;
    }
    proof {
        assert(t.subrange(i as int, t.len() as int).len() == 0);
    }
    None
}

/// Once pass 2 has failed on a prefix, it fails the same way on every longer one.
proof fn lemma_emit_error_persists(lines: Seq<LineView>, table: LabelTable, i: int, j: int)
    requires
        0 <= i <= j,
        emit(lines, table, i) is Err,
    ensures
        emit(lines, table, j) == emit(lines, table, i),
    decreases j - i,
{
    if i < j {
        lemma_emit_error_persists(lines, table, i, j - 1);
    }
}

/// The size reported for a program that does not fit: its element count when
/// that alone is over the limit, else its byte count.
pub open spec fn program_size(lines: Seq<LineView>) -> nat {
    if lines.len() > MAX_PROGRAM_LENGTH {
        lines.len()
    } else {
        total_length(lines)
    }
}

proof fn lemma_length_at_least_count(lines: Seq<LineView>, i: int)
    requires
        0 <= i,
    ensures
        offset_at(lines, i) >= i,
    decreases i,
{
    if i > 0 {
        lemma_length_at_least_count(lines, i - 1);
    }
}

/// The result of linking, as the spec functions state it.
pub open spec fn link_result(r: Result<BinaryProgram, AssemblyError>) -> Result<
    Seq<u8>,
    AssemblyErrorView,
> {
    match r {
        Ok(p) => Ok(p.0@),
        Err(e) => Err(e@),
    }
}

/// A program in machine code, ready to be loaded at address 0.
pub struct BinaryProgram(pub Vec<u8>);

impl BinaryProgram {
    /// Pass 1: the address of every declared label.
    pub fn compute_labels_addresses(assembly: &IntermediateAssembly) -> (r: Result<
        Vec<(Label, u16)>,
        AssemblyError,
    >)
        requires
            total_length(assembly@) <= MAX_PROGRAM_LENGTH,
        ensures
            match r {
                Ok(table) => label_table(assembly@, assembly@.len() as int) == Ok::<
                    LabelTable,
                    LabelView,
                >(table_view(table@)),
                Err(e) => exists|l: LabelView|
                    label_table(assembly@, assembly@.len() as int) == Err::<LabelTable, LabelView>(
                        l,
                    ) && e@ == AssemblyErrorView::DuplicateLabel(l),
            },
    {
        let ghost lines = assembly@;
        let mut addresses: Vec<(Label, u16)> = Vec::new();
        let mut current_index: u16 = 0;
        let mut i: usize = 0;
        proof {
            assert(table_view(addresses@) =~= Seq::<(LabelView, nat)>::empty());
        }
        while i < assembly.0.len()
            invariant
                lines == assembly@,
                lines.len() == assembly.0.len(),
                i <= assembly.0.len(),
                total_length(lines) <= MAX_PROGRAM_LENGTH,
                current_index as nat == offset_at(lines, i as int),
                label_table(lines, i as int) == Ok::<LabelTable, LabelView>(
                    table_view(addresses@),
                ),
            decreases assembly.0.len() - i,
        {
            let line = &assembly.0[i];
            proof {
                lemma_offset_monotonic(lines, i as int + 1, lines.len() as int);
                assert(lines[i as int] == line@);
            }
            match &line.label {
                Some(label) => {
                    if find(&addresses, label).is_some() {
                        proof {
                            lemma_table_error_persists(lines, i as int + 1, lines.len() as int);
                        }
                        return Err(AssemblyError::DuplicateLabel(label.duplicate()));
                    }
                    let ghost before = addresses@;
                    addresses.push((label.duplicate(), current_index));
                    proof {
                        assert(table_view(addresses@) =~= table_view(before).push(
                            (label@, current_index as nat),
                        ));
                    }
                },
                None => {},
            }
            current_index = current_index + line.assembly.content_length();
            i = i + 1;
        }
        Ok(addresses)
    }

    /// Resolves the labels of a lowered program and encodes it (passes 1 and 2).
    pub fn link(input: &IntermediateAssembly) -> (r: Result<BinaryProgram, AssemblyError>)
        ensures
            link_result(r) == spec_link(input@),
    {
        let ghost lines = input@;
        let n = input.0.len();
        if n > MAX_PROGRAM_LENGTH {
            proof {
                lemma_length_at_least_count(lines, lines.len() as int);
            }
            return Err(AssemblyError::ProgramTooLarge(n));
        }
        let total = input.len();
        if total > MAX_PROGRAM_LENGTH {
            return Err(AssemblyError::ProgramTooLarge(total));
        }
        let labels = match BinaryProgram::compute_labels_addresses(input) {
            Ok(labels) => labels,
            Err(e) => {
                return Err(e);
            },
        };
        let ghost table = table_view(labels@);
        let mut buffer: Vec<u8> = Vec::new();
        let mut i: usize = 0;
        while i < n
            invariant
                lines == input@,
                lines.len() == n,
                n == input.0.len(),
                i <= n,
                total_length(lines) <= MAX_PROGRAM_LENGTH,
                table == table_view(labels@),
                label_table(lines, n as int) == Ok::<LabelTable, LabelView>(table),
                emit(lines, table, i as int) == Ok::<Seq<u8>, AssemblyErrorView>(buffer@),
                buffer@.len() == offset_at(lines, i as int),
            decreases n - i,
        {
            let line = &input.0[i];
            let ghost before = buffer@;
            proof {
                lemma_offset_monotonic(lines, i as int + 1, n as int);
                assert(lines[i as int] == line@);
            }
            match &line.assembly {
                IntermediateElement::Instruction(instruction) => {
                    buffer.push(instruction.opcode());
                },
                IntermediateElement::Value(value) => {
                    buffer.push(*value);
                },
                IntermediateElement::Label(label) => {
                    let address = match find(&labels, label) {
                        Some(address) => address,
                        None => {
                            proof {
                                lemma_emit_error_persists(lines, table, i as int + 1, n as int);
                            }
                            return Err(AssemblyError::UndeclaredLabel(label.duplicate()));
                        },
                    };
                    match label {
                        Label::Relative(_) => {
                            let offset: i32 = address as i32 - buffer.len() as i32;
                            if offset > 127 || offset < -128 {
                                proof {
                                    lemma_emit_error_persists(
                                        lines,
                                        table,
                                        i as int + 1,
                                        n as int,
                                    );
                                }
                                return Err(
                                    AssemblyError::OffsetOutOfRange {
                                        label: label.duplicate(),
                                        address,
                                    },
                                );
                            }
                            let byte: u8 = if offset < 0 {
                                (offset + 256) as u8
                            } else {
                                offset as u8
                            };
                            buffer.push(byte);
                        },
                        Label::Absolute(_) => {
                            buffer.push((address / 256) as u8);
                            buffer.push((address % 256) as u8);
                        },
                    }
                },
            }
            proof {
                let b = element_bytes(lines[i as int].element, table, offset_at(lines, i as int));
                assert(buffer@ =~= before + b->Ok_0);
            }
            i = i + 1;
        }
        Ok(BinaryProgram(buffer))
    }
}

/// Every element encodes to exactly as many bytes as its reported length.
pub proof fn lemma_element_length_consistent(e: ElementView, table: LabelTable, position: nat)
    ensures
        element_bytes(e, table, position) matches Ok(bytes) ==> bytes.len() == element_length(
            e,
        ),
{
}

/// The bytes emitted for a prefix of the program are as many as the reported
/// lengths of its elements, summed.
pub proof fn lemma_emitted_length(lines: Seq<LineView>, table: LabelTable, n: int)
    requires
        0 <= n,
    ensures
        emit(lines, table, n) matches Ok(bytes) ==> bytes.len() == offset_at(lines, n),
    decreases n,
{
    if n > 0 {
        lemma_emitted_length(lines, table, n - 1);
        lemma_element_length_consistent(
            lines[n - 1].element,
            table,
            offset_at(lines, n - 1),
        );
    }
}

proof fn lemma_lookup_push(table: LabelTable, entry: (LabelView, nat), label: LabelView)
    ensures
        lookup(table.push(entry), label) == if lookup(table, label) is Some {
            lookup(table, label)
        } else if entry.0 == label {
            Some(entry.1)
        } else {
            None::<nat>
        },
    decreases table.len(),
{
    if table.len() > 0 {
        assert(table.push(entry).drop_first() =~= table.drop_first().push(entry));
        assert(table.push(entry)[0] == table[0]);
        lemma_lookup_push(table.drop_first(), entry, label);
    } else {
        let empty = Seq::<(LabelView, nat)>::empty();
        assert(table.push(entry).drop_first() =~= empty);
        assert(lookup(empty, label) is None);
        assert(table.push(entry)[0] == entry);
    }
}

/// Pass 1 gives each declared label the offset of the element it is declared on.
pub proof fn lemma_declared_address(lines: Seq<LineView>, n: int, i: int)
    requires
        0 <= i < n <= lines.len(),
        label_table(lines, n) is Ok,
        lines[i].label is Some,
    ensures
        lookup(label_table(lines, n)->Ok_0, lines[i].label->Some_0) == Some(offset_at(lines, i)),
    decreases n,
{
    let l = lines[i].label->Some_0;
    let previous = label_table(lines, n - 1);
    assert(previous is Ok);
    let t = previous->Ok_0;
    if i < n - 1 {
        lemma_declared_address(lines, n - 1, i);
        if let Some(m) = lines[n - 1].label {
            lemma_lookup_push(t, (m, offset_at(lines, n - 1)), l);
        }
    } else {
        lemma_lookup_push(t, (l, offset_at(lines, n - 1)), l);
    }
}

/// Label addresses follow declaration order: a label declared after another
/// has an address at least as large, larger by exactly the lengths of the
/// elements between them.
pub proof fn lemma_label_addresses_monotonic(lines: Seq<LineView>, i: int, j: int)
    requires
        0 <= i <= j < lines.len(),
        label_table(lines, lines.len() as int) is Ok,
        lines[i].label is Some,
        lines[j].label is Some,
    ensures
        ({
            let table = label_table(lines, lines.len() as int)->Ok_0;
            &&& lookup(table, lines[i].label->Some_0) == Some(offset_at(lines, i))
            &&& lookup(table, lines[j].label->Some_0) == Some(offset_at(lines, j))
            &&& offset_at(lines, i) <= offset_at(lines, j)
            &&& offset_at(lines, j) == offset_at(lines, i) + lengths_between(lines, i, j)
        }),
{
    lemma_declared_address(lines, lines.len() as int, i);
    lemma_declared_address(lines, lines.len() as int, j);
    lemma_offset_monotonic(lines, i, j);
    lemma_lengths_between(lines, i, j);
}

/// The lengths of the elements `i..j`, summed.
pub open spec fn lengths_between(lines: Seq<LineView>, i: int, j: int) -> nat
    decreases j - i,
{
    if j <= i {
        0
    } else {
        lengths_between(lines, i, j - 1) + element_length(lines[j - 1].element)
    }
}

proof fn lemma_lengths_between(lines: Seq<LineView>, i: int, j: int)
    requires
        0 <= i <= j,
    ensures
        offset_at(lines, j) == offset_at(lines, i) + lengths_between(lines, i, j),
    decreases j - i,
{
    if i < j {
        lemma_lengths_between(lines, i, j - 1);
    }
}

/// A program that declares the same label twice does not link: unless it is
/// too large, it fails with a duplicate-label error.
pub proof fn lemma_duplicate_label_rejected(lines: Seq<LineView>, i: int, j: int)
    requires
        0 <= i < j < lines.len(),
        lines[i].label is Some,
        lines[i].label == lines[j].label,
    ensures
        spec_link(lines) is Err,
        total_length(lines) <= MAX_PROGRAM_LENGTH ==> spec_link(
            lines,
        ) is Err && spec_link(lines)->Err_0 is DuplicateLabel,
{
    let l = lines[j].label->Some_0;
    if label_table(lines, j) is Ok {
        lemma_declared_address(lines, j, i);
        assert(label_table(lines, j + 1) == Err::<LabelTable, LabelView>(l));
        lemma_table_error_persists(lines, j + 1, lines.len() as int);
    } else {
        lemma_table_error_persists(lines, j, lines.len() as int);
    }
}

/// A relative label at `address`, used at byte `position`, encodes as the
/// signed byte `address - position` when that is in `-128..=127`, and fails
/// with an out-of-range error otherwise.
pub proof fn lemma_relative_offset_bounds(
    name: Seq<char>,
    table: LabelTable,
    position: nat,
    address: nat,
)
    requires
        lookup(table, LabelView::Relative(name)) == Some(address),
    ensures
        ({
            let offset = address - position;
            let r = element_bytes(ElementView::Label(LabelView::Relative(name)), table, position);
            &&& -128 <= offset <= 127 ==> r == Ok::<Seq<u8>, AssemblyErrorView>(
                seq![offset_byte(offset)],
            )
            &&& (offset > 127 || offset < -128) ==> r == Err::<Seq<u8>, AssemblyErrorView>(
                AssemblyErrorView::OffsetOutOfRange {
                    label: LabelView::Relative(name),
                    address,
                },
            )
        }),
{
}

} // verus!

use vstd::prelude::*;
use crate::assembly_instruction::{AssemblyInstruction, InstructionView};
use crate::error::{AssemblyError, AssemblyErrorView};
use crate::instruction_parser::spec_instruction;
use crate::intermediate_assembly::label_view;
use crate::label::{Label, LabelView};
use crate::lexer::{
    parse_name,
    run_end,
    scan,
    skip_trivia,
    spec_name,
    trivia_end,
    CharClass,
    Source,
};

verus! {

/// One line of a program: an optional label declaration and one instruction.
/// The label names the address of the instruction's first byte.
#[derive(Debug)]
pub struct AssemblyLine {
    pub label: Option<Label>,
    pub instruction: AssemblyInstruction,
}

pub struct AssemblyLineView {
    pub label: Option<LabelView>,
    pub instruction: InstructionView,
}

impl View for AssemblyLine {
    type V = AssemblyLineView;

    open spec fn view(&self) -> AssemblyLineView {
        AssemblyLineView { label: label_view(self.label), instruction: self.instruction@ }
    }
}

pub open spec fn program_view(lines: Seq<AssemblyLine>) -> Seq<AssemblyLineView> {
    lines.map_values(|l: AssemblyLine| l@)
}

/// A label declaration: its sigil, its name, and at least one space.
pub open spec fn spec_declaration(s: Seq<char>, p: int, sigil: char) -> Option<(Seq<char>, int)> {
    match spec_name(s, p, sigil) {
        Some((name, e)) => {
            let q = run_end(s, e, CharClass::Space);
            if q > e {
                Some((name, q))
            } else {
                None
            }
        },
        None => None,
    }
}

/// An absolute label is declared with `:`, a relative one with `.`.
pub open spec fn spec_label(s: Seq<char>, p: int) -> Option<(LabelView, int)> {
    match spec_declaration(s, p, ':') {
        Some((name, q)) => Some((LabelView::Absolute(name), q)),
        None => match spec_declaration(s, p, '.') {
            Some((name, q)) => Some((LabelView::Relative(name), q)),
            None => None,
        },
    }
}

/// A line at `p`: an optional label declaration, spaces, one instruction.
pub open spec fn spec_line(s: Seq<char>, p: int) -> Option<(AssemblyLineView, int)> {
    let (label, q) = match spec_label(s, p) {
        Some((l, q)) => (Some(l), q),
        None => (None, p),
    };
    match spec_instruction(s, run_end(s, q, CharClass::Space)) {
        Some((i, e)) => Some((AssemblyLineView { label, instruction: i }, e)),
        None => None,
    }
}

/// The lines from `p` on, each after the first preceded by whitespace or
/// comments, and where they end, with the trivia after the last one.
pub open spec fn lines_from(s: Seq<char>, p: int) -> (Seq<AssemblyLineView>, int)
    decreases s.len() - p,
{
    match spec_line(s, p) {
        None => (Seq::empty(), p),
        Some((l, q)) => {
            let t = trivia_end(s, q);
            if t == q || !(p < t <= s.len()) {
                (seq![l], q)
            } else {
                let rest = lines_from(s, t);
                (seq![l] + rest.0, rest.1)
            }
        },
    }
}

/// A program: whitespace and comments, then lines, to the end of the text.
pub open spec fn spec_program(s: Seq<char>) -> Result<Seq<AssemblyLineView>, AssemblyErrorView> {
    let (lines, e) = lines_from(s, trivia_end(s, 0));
    if e == s.len() {
        Ok(lines)
    } else {
        Err(AssemblyErrorView::Syntax { position: e as nat, remaining: s.subrange(e, s.len() as int) })
    }
}

fn parse_declaration(src: &Source, p: usize, sigil: char) -> (r: Option<(String, usize)>)
    requires
        src.wf(),
        p <= src@.len(),
    ensures
        match r {
            Some((name, q)) => spec_declaration(src@, p as int, sigil) == Some((name@, q as int)),
            None => spec_declaration(src@, p as int, sigil) is None,
        },
        r matches Some((_, q)) ==> q <= src@.len(),
{
    match parse_name(src, p, sigil) {
        Some((name, e)) => {
            let q = scan(src, e, CharClass::Space);
            if q > e {
                Some((name, q))
            } else {
                None
            }
        },
        None => None,
    }
}

impl AssemblyLine {
    fn parse_label(src: &Source, p: usize) -> (r: Option<(Label, usize)>)
        requires
            src.wf(),
            p <= src@.len(),
        ensures
            match r {
                Some((l, q)) => spec_label(src@, p as int) == Some((l@, q as int)),
                None => spec_label(src@, p as int) is None,
            },
            r matches Some((_, q)) ==> q <= src@.len(),
    {
        match parse_declaration(src, p, ':') {
            Some((name, q)) => Some((Label::Absolute(name), q)),
            None => match parse_declaration(src, p, '.') {
                Some((name, q)) => Some((Label::Relative(name), q)),
                None => None,
            },
        }
    }

    /// The line at `p`, and where it ends.
    pub fn parse(src: &Source, p: usize) -> (r: Option<(AssemblyLine, usize)>)
        requires
            src.wf(),
            p <= src@.len(),
        ensures
            match r {
                Some((l, e)) => spec_line(src@, p as int) == Some((l@, e as int)),
                None => spec_line(src@, p as int) is None,
            },
            r matches Some((_, e)) ==> e <= src@.len(),
    {
        let (label, q) = match AssemblyLine::parse_label(src, p) {
            Some((l, q)) => (Some(l), q),
            None => (None, p),
        };
        let start = scan(src, q, CharClass::Space);
        match AssemblyInstruction::parse(src, start) {
            Some((instruction, e)) => Some((AssemblyLine { label, instruction }, e)),
            None => None,
        }
    }
}

/// Parses a whole program. Fails with a syntax error, at the first position
/// that the grammar cannot account for, unless all of the text is consumed.
pub fn parse_instructions(input: &str) -> (r: Result<Vec<AssemblyLine>, AssemblyError>)
    ensures
        match r {
            Ok(lines) => spec_program(input@) == Ok::<
                Seq<AssemblyLineView>,
                AssemblyErrorView,
            >(program_view(lines@)),
            Err(e) => spec_program(input@) == Err::<Seq<AssemblyLineView>, AssemblyErrorView>(e@),
        },
{
    let src = Source::new(input);
    let ghost s = src@;
    let start = skip_trivia(&src, 0);
    let ghost target = lines_from(s, start as int);
    let mut lines: Vec<AssemblyLine> = Vec::new();
    let mut p = start;
    let mut end: usize = start;
    proof {
        assert(program_view(lines@) =~= Seq::<AssemblyLineView>::empty());
        assert(target.0 =~= program_view(lines@) + lines_from(s, p as int).0);
    }
    loop
        invariant_except_break
            target.0 == program_view(lines@) + lines_from(s, p as int).0,
            target.1 == lines_from(s, p as int).1,
        invariant
            src.wf(),
            s == src@,
            p <= s.len(),
            target == lines_from(s, start as int),
        ensures
            end <= s.len(),
            target.0 == program_view(lines@),
            target.1 == end,
        decreases s.len() - p,
    {
        let ghost before = program_view(lines@);
        match AssemblyLine::parse(&src, p) {
            None => {
                proof {
                    assert(target.0 =~= program_view(lines@));
                }
                end = p;
                break ;
            },
            Some((line, q)) => {
                let ghost l = line@;
                lines.push(line);
                proof {
                    assert(program_view(lines@) =~= before.push(l));
                }
                let t = skip_trivia(&src, q);
                if t == q || !(p < t) {
                    proof {
                        assert(target.0 =~= program_view(lines@));
                    }
                    end = q;
                    break ;
                }
                proof {
                    assert(before + lines_from(s, p as int).0 =~= program_view(lines@) + lines_from(
                        s,
                        t as int,
                    ).0);
                }
                p = t;
            },
        }
    }
    if end == src.len() {
        Ok(lines)
    } else {
        Err(AssemblyError::Syntax { position: end, remaining: src.slice(end, src.len()) })
    }
}

} // verus!

use vstd::prelude::*;

verus! {

/// A named program location. Absolute and relative labels live in separate
/// namespaces: the kind is part of the label's identity.
#[derive(Debug)]
pub enum Label {
    /// Resolves to a full 16-bit address, written high byte first.
    Absolute(String),
    /// Resolves to a signed 8-bit displacement.
    Relative(String),
}

/// A label as a mathematical value: its kind and its name.
pub enum LabelView {
    Absolute(Seq<char>),
    Relative(Seq<char>),
}

impl View for Label {
    type V = LabelView;

    open spec fn view(&self) -> LabelView {
        match self {
            Label::Absolute(name) => LabelView::Absolute(name@),
            Label::Relative(name) => LabelView::Relative(name@),
        }
    }
}

impl PartialEq for Label {
    fn eq(&self, other: &Label) -> (r: bool) {
        match (self, other) {
            (Label::Absolute(a), Label::Absolute(b)) => a.eq(b),
            (Label::Relative(a), Label::Relative(b)) => a.eq(b),
            _ => false,
        }
    }
}

impl vstd::std_specs::cmp::PartialEqSpecImpl for Label {
    open spec fn obeys_eq_spec() -> bool {
        true
    }

    open spec fn eq_spec(&self, other: &Label) -> bool {
        self@ == other@
    }
}

impl Label {
    /// A label of the same kind and name.
    pub fn duplicate(&self) -> (r: Label)
        ensures
            r@ == self@,
    {
        match self {
            Label::Absolute(name) => Label::Absolute(name.clone()),
            Label::Relative(name) => Label::Relative(name.clone()),
        }
    }

    pub fn name(&self) -> (r: &String)
        ensures
            r@ == match self@ {
                LabelView::Absolute(n) => n,
                LabelView::Relative(n) => n,
            },
    {
        match self {
            Label::Absolute(name) => name,
            Label::Relative(name) => name,
        }
    }
}

} // verus!

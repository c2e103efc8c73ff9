use vstd::prelude::*;
use vstd::std_specs::iter::IteratorSpec;

verus! {

/// Program text, held both as given and as characters for indexing.
pub struct Source<'a> {
    text: &'a str,
    chars: Vec<char>,
}

impl<'a> View for Source<'a> {
    type V = Seq<char>;

    closed spec fn view(&self) -> Seq<char> {
        self.chars@
    }
}

impl<'a> Source<'a> {
    pub closed spec fn wf(&self) -> bool {
        self.chars@ == self.text@
    }

    pub fn new(text: &'a str) -> (r: Source<'a>)
        ensures
            r.wf(),
            r@ == text@,
    {
        broadcast use vstd::string::axiom_spec_iter, vstd::string::next_postcondition;

        let mut chars: Vec<char> = Vec::new();
        for c in it: text.chars()
            invariant
                it.seq() == text@,
                chars@ == it.seq().take(it.index() as int),
        {
            proof {
                assert(it.seq().take(it.index() as int + 1) =~= chars@.push(c));
            }
            chars.push(c);
        }
        assert(text@.take(text@.len() as int) =~= text@);
        Source { text, chars }
    }

    pub fn len(&self) -> (r: usize)
        ensures
            r == self@.len(),
    {
        self.chars.len()
    }

    pub fn at(&self, i: usize) -> (c: char)
        requires
            i < self@.len(),
        ensures
            c == self@[i as int],
    {
        self.chars[i]
    }

    /// The characters `from..to`, as a string.
    pub fn slice(&self, from: usize, to: usize) -> (r: String)
        requires
            self.wf(),
            from <= to <= self@.len(),
        ensures
            r@ == self@.subrange(from as int, to as int),
    {
        self.text.substring_char(from, to).to_owned()
    }
}

/// The kinds of characters the grammar distinguishes.
#[derive(PartialEq, Eq, Structural, Clone, Copy, Debug)]
pub enum CharClass {
    /// Space, tab, carriage return, line feed.
    Space,
    /// ASCII letters and digits.
    Alphanumeric,
    /// ASCII hexadecimal digits, either case.
    HexDigit,
    /// ASCII decimal digits.
    Digit,
    /// Anything but a line feed.
    NotNewline,
}

pub open spec fn in_class(c: char, class: CharClass) -> bool {
    match class {
        CharClass::Space => c == ' ' || c == '\t' || c == '\r' || c == '\n',
        CharClass::Alphanumeric => ('a' <= c <= 'z') || ('A' <= c <= 'Z') || ('0' <= c <= '9'),
        CharClass::HexDigit => ('a' <= c <= 'f') || ('A' <= c <= 'F') || ('0' <= c <= '9'),
        CharClass::Digit => '0' <= c <= '9',
        CharClass::NotNewline => c != '\n',
    }
}

pub fn is_in_class(c: char, class: CharClass) -> (r: bool)
    ensures
        r == in_class(c, class),
{
    match class {
        CharClass::Space => c == ' ' || c == '\t' || c == '\r' || c == '\n',
        CharClass::Alphanumeric => ('a' <= c && c <= 'z') || ('A' <= c && c <= 'Z') || ('0' <= c
            && c <= '9'),
        CharClass::HexDigit => ('a' <= c && c <= 'f') || ('A' <= c && c <= 'F') || ('0' <= c && c
            <= '9'),
        CharClass::Digit => '0' <= c && c <= '9',
        CharClass::NotNewline => c != '\n',
    }
}

/// The end of the longest run of characters of `class` that starts at `p`.
pub open spec fn run_end(s: Seq<char>, p: int, class: CharClass) -> int
    decreases s.len() - p,
{
    if 0 <= p < s.len() && in_class(s[p], class) {
        run_end(s, p + 1, class)
    } else {
        p
    }
}

pub proof fn lemma_run_end_bounds(s: Seq<char>, p: int, class: CharClass)
    requires
        0 <= p <= s.len(),
    ensures
        p <= run_end(s, p, class) <= s.len(),
        forall|i: int| p <= i < run_end(s, p, class) ==> in_class(#[trigger] s[i], class),
    decreases s.len() - p,
{
    if p < s.len() && in_class(s[p], class) {
        lemma_run_end_bounds(s, p + 1, class);
    }
}

pub fn scan(src: &Source, p: usize, class: CharClass) -> (r: usize)
    requires
        p <= src@.len(),
    ensures
        r == run_end(src@, p as int, class),
        p <= r <= src@.len(),
{
    let mut q = p;
    while q < src.len() && is_in_class(src.at(q), class)
        invariant
            p <= q <= src@.len(),
            run_end(src@, q as int, class) == run_end(src@, p as int, class),
        decreases src@.len() - q,
    {
        q = q + 1;
    }
    q
}

/// The end of the whitespace and comments that start at `p`. A comment runs
/// from `#` to the end of its line.
pub open spec fn trivia_end(s: Seq<char>, p: int) -> int
    decreases s.len() - p,
{
    if 0 <= p < s.len() && in_class(s[p], CharClass::Space) {
        trivia_end(s, p + 1)
    } else if 0 <= p < s.len() && s[p] == '#' {
        let e = run_end(s, p + 1, CharClass::NotNewline);
        if p < e <= s.len() {
            trivia_end(s, e)
        } else {
            p
        }
    } else {
        p
    }
}

pub fn skip_trivia(src: &Source, p: usize) -> (r: usize)
    requires
        p <= src@.len(),
    ensures
        r == trivia_end(src@, p as int),
        p <= r <= src@.len(),
{
    let mut q = p;
    loop
        invariant
            p <= q <= src@.len(),
            trivia_end(src@, q as int) == trivia_end(src@, p as int),
        decreases src@.len() - q,
    {
        if q < src.len() && is_in_class(src.at(q), CharClass::Space) {
            q = q + 1;
        } else if q < src.len() && src.at(q) == '#' {
            q = scan(src, q + 1, CharClass::NotNewline);
        } else {
            return q;
        }
    }
}

/// Whether the text at `p` starts with `t`.
pub open spec fn has_tag(s: Seq<char>, p: int, t: Seq<char>) -> bool {
    0 <= p && p + t.len() <= s.len() && s.subrange(p, p + t.len()) == t
}

pub fn match_tag(src: &Source, p: usize, t: &str) -> (r: bool)
    requires
        p <= src@.len(),
    ensures
        r == has_tag(src@, p as int, t@),
{
    let n = t.unicode_len();
    if n > src.len() - p {
        return false;
    }
    let mut i: usize = 0;
    while i < n
        invariant
            n == t@.len(),
            p + n <= src@.len(),
            src@.len() <= usize::MAX,
            i <= n,
            forall|j: int| 0 <= j < i ==> src@[p + j] == t@[j],
        decreases n - i,
    {
        if src.at(p + i) != t.get_char(i) {
            assert(src@.subrange(p as int, p + n)[i as int] != t@[i as int]);
            return false;
        }
        i = i + 1;
    }
    assert(src@.subrange(p as int, p + n) =~= t@);
    true
}

/// A label name after its sigil: one or more ASCII letters and digits.
pub open spec fn spec_name(s: Seq<char>, p: int, sigil: char) -> Option<(Seq<char>, int)> {
    if 0 <= p < s.len() && s[p] == sigil {
        let e = run_end(s, p + 1, CharClass::Alphanumeric);
        if e > p + 1 {
            Some((s.subrange(p + 1, e), e))
        } else {
            None
        }
    } else {
        None
    }
}

pub fn parse_name(src: &Source, p: usize, sigil: char) -> (r: Option<(String, usize)>)
    requires
        src.wf(),
        p <= src@.len(),
    ensures
        match r {
            Some((name, q)) => spec_name(src@, p as int, sigil) == Some((name@, q as int)),
            None => spec_name(src@, p as int, sigil) is None,
        },
        r matches Some((_, q)) ==> q <= src@.len(),
{
    if p < src.len() && src.at(p) == sigil {
        let e = scan(src, p + 1, CharClass::Alphanumeric);
        if e > p + 1 {
            return Some((src.slice(p + 1, e), e));
        }
    }
    None
}

pub open spec fn hex_digit_value(c: char) -> nat {
    if '0' <= c <= '9' {
        (c as nat - '0' as nat) as nat
    } else if 'a' <= c <= 'f' {
        (c as nat - 'a' as nat + 10) as nat
    } else {
        (c as nat - 'A' as nat + 10) as nat
    }
}

/// The value of hexadecimal digits, most significant first.
pub open spec fn hex_value(digits: Seq<char>) -> nat
    decreases digits.len(),
{
    if digits.len() == 0 {
        0
    } else {
        16 * hex_value(digits.drop_last()) + hex_digit_value(digits.last())
    }
}

/// The value of decimal digits, most significant first.
pub open spec fn decimal_value(digits: Seq<char>) -> nat
    decreases digits.len(),
{
    if digits.len() == 0 {
        0
    } else {
        10 * decimal_value(digits.drop_last()) + (digits.last() as nat - '0' as nat) as nat
    }
}

/// A hexadecimal literal: `0x` and one to `max_digits` hexadecimal digits.
/// More digits than that is no literal.
pub open spec fn spec_hex(s: Seq<char>, p: int, max_digits: int) -> Option<(nat, int)> {
    if has_tag(s, p, seq!['0', 'x']) {
        let e = run_end(s, p + 2, CharClass::HexDigit);
        if 1 <= e - (p + 2) <= max_digits {
            Some((hex_value(s.subrange(p + 2, e)), e))
        } else {
            None
        }
    } else {
        None
    }
}

pub open spec fn pow16(n: nat) -> nat
    decreases n,
{
    if n == 0 {
        1
    } else {
        16 * pow16((n - 1) as nat)
    }
}

proof fn lemma_pow16_small(n: nat)
    requires
        n <= 4,
    ensures
        pow16(n) <= 65536,
{
    reveal_with_fuel(pow16, 5);
}

/// Reads a hexadecimal literal of at most `max_digits` (at most four) digits.
pub fn parse_hex(src: &Source, p: usize, max_digits: usize) -> (r: Option<(u16, usize)>)
    requires
        p <= src@.len(),
        1 <= max_digits <= 4,
    ensures
        match r {
            Some((v, q)) => spec_hex(src@, p as int, max_digits as int) == Some((v as nat, q as int)),
            None => spec_hex(src@, p as int, max_digits as int) is None,
        },
        r matches Some((_, q)) ==> q <= src@.len(),
        r matches Some((v, _)) ==> v < pow16(max_digits as nat),
{
    if !(src.len() - p >= 2 && src.at(p) == '0' && src.at(p + 1) == 'x') {
        proof {
            if has_tag(src@, p as int, seq!['0', 'x']) {
                assert(src@.subrange(p as int, p + 2)[0] == src@[p as int]);
                assert(src@.subrange(p as int, p + 2)[1] == src@[p + 1]);
            }
        }
        return None;
    }
    proof {
        assert(src@.subrange(p as int, p + 2) =~= seq!['0', 'x']);
    }
    let start = p + 2;
    let e = scan(src, start, CharClass::HexDigit);
    if e == start || e - start > max_digits {
        return None;
    }
    proof {
        lemma_run_end_bounds(src@, start as int, CharClass::HexDigit);
    }
    let ghost digits = src@.subrange(start as int, e as int);
    let mut value: u32 = 0;
    let mut i: usize = start;
    while i < e
        invariant
            start <= i <= e <= src@.len(),
            e - start <= 4,
            digits == src@.subrange(start as int, e as int),
            forall|j: int| start <= j < e ==> in_class(#[trigger] src@[j], CharClass::HexDigit),
            value as nat == hex_value(src@.subrange(start as int, i as int)),
            value < pow16((i - start) as nat),
        decreases e - i,
    {
        let c = src.at(i);
        let d: u32 = if '0' <= c && c <= '9' {
            (c as u32) - ('0' as u32)
        } else if 'a' <= c && c <= 'f' {
            (c as u32) - ('a' as u32) + 10
        } else {
            (c as u32) - ('A' as u32) + 10
        };
        proof {
            let done = src@.subrange(start as int, i + 1);
            assert(done.drop_last() =~= src@.subrange(start as int, i as int));
            assert(done.last() == c);
            lemma_pow16_small((i + 1 - start) as nat);
            assert(pow16((i + 1 - start) as nat) == 16 * pow16((i - start) as nat));
        }
        value = value * 16 + d;
        i = i + 1;
    }
    proof {
        lemma_pow16_small((e - start) as nat);
        reveal_with_fuel(pow16, 5);
    }
    Some((value as u16, e))
}

/// A decimal literal: an optional sign, if `signed`, then decimal digits.
/// Its value, unbounded.
pub open spec fn spec_decimal(s: Seq<char>, p: int, signed: bool) -> Option<(int, int)> {
    let negative = signed && 0 <= p < s.len() && s[p] == '-';
    let start = if signed && 0 <= p < s.len() && (s[p] == '-' || s[p] == '+') {
        p + 1
    } else {
        p
    };
    let e = run_end(s, start, CharClass::Digit);
    if 0 <= p && e > start {
        let v = decimal_value(s.subrange(start, e)) as int;
        Some((if negative { -v } else { v }, e))
    } else {
        None
    }
}

/// Reads a decimal literal: its sign, and its magnitude unless that is over 1000.
fn parse_decimal(src: &Source, p: usize, signed: bool) -> (r: Option<(bool, Option<u32>, usize)>)
    requires
        p <= src@.len(),
    ensures
        match r {
            Some((negative, value, q)) => spec_decimal(src@, p as int, signed) matches Some((v, e))
                && e == q && q <= src@.len() && negative == (v < 0 || (signed && src@[p as int]
                == '-')) && match value {
                Some(m) => (if negative {
                    -(m as int)
                } else {
                    m as int
                }) == v && m <= 1000,
                None => v > 1000 || v < -1000,
            },
            None => spec_decimal(src@, p as int, signed) is None,
        },
{
    let negative = signed && p < src.len() && src.at(p) == '-';
    let start = if signed && p < src.len() && (src.at(p) == '-' || src.at(p) == '+') {
        p + 1
    } else {
        p
    };
    let e = scan(src, start, CharClass::Digit);
    if e == start {
        return None;
    }
    proof {
        lemma_run_end_bounds(src@, start as int, CharClass::Digit);
    }
    let mut value: u32 = 0;
    let mut big = false;
    let mut i: usize = start;
    while i < e
        invariant
            start <= i <= e <= src@.len(),
            forall|j: int| start <= j < e ==> in_class(#[trigger] src@[j], CharClass::Digit),
            !big ==> value as nat == decimal_value(src@.subrange(start as int, i as int)),
            !big ==> value <= 1000,
            big ==> decimal_value(src@.subrange(start as int, i as int)) > 1000,
        decreases e - i,
    {
        let c = src.at(i);
        let d: u32 = (c as u32) - ('0' as u32);
        proof {
            let done = src@.subrange(start as int, i + 1);
            assert(done.drop_last() =~= src@.subrange(start as int, i as int));
            assert(done.last() == c);
        }
        if !big {
            let next = value * 10 + d;
            if next > 1000 {
                big = true;
            } else {
                value = next;
            }
        }
        i = i + 1;
    }
    if big {
        Some((negative, None, e))
    } else {
        Some((negative, Some(value), e))
    }
}

/// Reads a hexadecimal byte (`0x` and one or two digits) at the start of
/// `input`; gives the text after it and the value.
pub fn hex_u8(input: &str) -> (r: Option<(String, u8)>)
    ensures
        match spec_hex(input@, 0, 2) {
            Some((v, e)) => r matches Some((rest, b)) && b == v && rest@ == input@.subrange(
                e,
                input@.len() as int,
            ),
            None => r is None,
        },
{
    let src = Source::new(input);
    match parse_hex(&src, 0, 2) {
        Some((v, e)) => {
            proof {
                reveal_with_fuel(pow16, 3);
            }
            Some((src.slice(e, src.len()), v as u8))
        },
        None => None,
    }
}

/// Reads a hexadecimal address (`0x` and one to four digits) at the start of
/// `input`; gives the text after it and the value.
pub fn hex_u16(input: &str) -> (r: Option<(String, u16)>)
    ensures
        match spec_hex(input@, 0, 4) {
            Some((v, e)) => r matches Some((rest, w)) && w == v && rest@ == input@.subrange(
                e,
                input@.len() as int,
            ),
            None => r is None,
        },
{
    let src = Source::new(input);
    match parse_hex(&src, 0, 4) {
        Some((v, e)) => Some((src.slice(e, src.len()), v)),
        None => None,
    }
}

/// A signed decimal literal in `-128..=127`.
pub open spec fn spec_i8(s: Seq<char>, p: int) -> Option<(i8, int)> {
    match spec_decimal(s, p, true) {
        Some((v, e)) => if -128 <= v <= 127 {
            Some((v as i8, e))
        } else {
            None
        },
        None => None,
    }
}

/// An unsigned decimal literal in `0..=255`.
pub open spec fn spec_u8(s: Seq<char>, p: int) -> Option<(u8, int)> {
    match spec_decimal(s, p, false) {
        Some((v, e)) => if v <= 255 {
            Some((v as u8, e))
        } else {
            None
        },
        None => None,
    }
}

pub fn parse_i8(src: &Source, p: usize) -> (r: Option<(i8, usize)>)
    requires
        p <= src@.len(),
    ensures
        match r {
            Some((v, q)) => spec_i8(src@, p as int) == Some((v, q as int)),
            None => spec_i8(src@, p as int) is None,
        },
        r matches Some((_, q)) ==> q <= src@.len(),
{
    match parse_decimal(src, p, true) {
        Some((negative, Some(m), q)) => {
            if negative && m <= 128 {
                Some(((0 - m as i32) as i8, q))
            } else if !negative && m <= 127 {
                Some((m as i8, q))
            } else {
                None
            }
        },
        _ => None,
    }
}

pub fn parse_u8(src: &Source, p: usize) -> (r: Option<(u8, usize)>)
    requires
        p <= src@.len(),
    ensures
        match r {
            Some((v, q)) => spec_u8(src@, p as int) == Some((v, q as int)),
            None => spec_u8(src@, p as int) is None,
        },
        r matches Some((_, q)) ==> q <= src@.len(),
{
    match parse_decimal(src, p, false) {
        Some((_, Some(m), q)) => {
            if m <= 255 {
                Some((m as u8, q))
            } else {
                None
            }
        },
        _ => None,
    }
}

} // verus!

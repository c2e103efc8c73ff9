use vstd::prelude::*;
use vstd::arithmetic::power2::{pow2, lemma2_to64};

verus! {

/// Matching of the most significant bits of a fixed-width value against a prefix.
pub trait StartsWith: Sized {
    /// The width of the value, in bits.
    spec fn width() -> nat;

    /// Whether the `prefix_bits` most significant bits of `self` are the
    /// `prefix_bits` least significant bits of `prefix`.
    spec fn has_prefix(&self, prefix: Self, prefix_bits: nat) -> bool;

    /// Whether `self` starts with the binary digits `digits`, most significant first.
    spec fn has_binary_prefix(&self, digits: Seq<char>) -> bool;

    fn starts_with(&self, prefix: Self, prefix_bits: usize) -> (r: bool)
        requires
            1 <= prefix_bits <= Self::width(),
        ensures
            r == self.has_prefix(prefix, prefix_bits as nat),
    ;

    /// `prefix` is written in binary, with `_` allowed as a separator.
    fn binary_representation_starts_with(&self, prefix: &str) -> (r: bool)
        requires
            is_binary_pattern(prefix@),
            1 <= binary_digits(prefix@).len() <= Self::width(),
        ensures
            r == self.has_binary_prefix(binary_digits(prefix@)),
    ;
}

/// Only the characters `0`, `1` and `_`.
pub open spec fn is_binary_pattern(s: Seq<char>) -> bool {
    forall|i: int| 0 <= i < s.len() ==> s[i] == '0' || s[i] == '1' || s[i] == '_'
}

/// The pattern with its `_` separators removed.
pub open spec fn binary_digits(s: Seq<char>) -> Seq<char> {
    s.filter(|c: char| c != '_')
}

/// The value of a string of binary digits, most significant first.
pub open spec fn binary_value(digits: Seq<char>) -> nat
    decreases digits.len(),
{
    if digits.len() == 0 {
        0
    } else {
        2 * binary_value(digits.drop_last()) + if digits.last() == '1' { 1nat } else { 0nat }
    }
}

proof fn lemma_prefix_mask(v: u8, p: u8, shift: u8)
    requires
        shift < 8,
    ensures
        ((v & (0xFFu8 << shift)) == (p << shift)) == (v as nat / pow2(shift as nat) == p as nat
            % pow2((8 - shift) as nat)),
{
    lemma2_to64();
    if shift == 0 {
        assert(pow2(0) == 1 && pow2(8) == 256);
        assert(shift == 0u8 ==> ((v & (0xFFu8 << shift)) == (p << shift)) == (v == p)) by (bit_vector);
        assert(v as nat / pow2(shift as nat) == v as nat / 1);
        assert(p as nat % pow2((8 - shift) as nat) == p as nat % 256);
    } else if shift == 1 {
        assert(pow2(1) == 2 && pow2(7) == 128);
        assert(shift == 1u8 ==> ((v & (0xFFu8 << shift)) == (p << shift)) == (v / 2 == p % 128)) by (bit_vector);
        assert(v as nat / pow2(shift as nat) == v as nat / 2);
        assert(p as nat % pow2((8 - shift) as nat) == p as nat % 128);
    } else if shift == 2 {
        assert(pow2(2) == 4 && pow2(6) == 64);
        assert(shift == 2u8 ==> ((v & (0xFFu8 << shift)) == (p << shift)) == (v / 4 == p % 64)) by (bit_vector);
        assert(v as nat / pow2(shift as nat) == v as nat / 4);
        assert(p as nat % pow2((8 - shift) as nat) == p as nat % 64);
    } else if shift == 3 {
        assert(pow2(3) == 8 && pow2(5) == 32);
        assert(shift == 3u8 ==> ((v & (0xFFu8 << shift)) == (p << shift)) == (v / 8 == p % 32)) by (bit_vector);
        assert(v as nat / pow2(shift as nat) == v as nat / 8);
        assert(p as nat % pow2((8 - shift) as nat) == p as nat % 32);
    } else if shift == 4 {
        assert(pow2(4) == 16 && pow2(4) == 16);
        assert(shift == 4u8 ==> ((v & (0xFFu8 << shift)) == (p << shift)) == (v / 16 == p % 16)) by (bit_vector);
        assert(v as nat / pow2(shift as nat) == v as nat / 16);
        assert(p as nat % pow2((8 - shift) as nat) == p as nat % 16);
    } else if shift == 5 {
        assert(pow2(5) == 32 && pow2(3) == 8);
        assert(shift == 5u8 ==> ((v & (0xFFu8 << shift)) == (p << shift)) == (v / 32 == p % 8)) by (bit_vector);
        assert(v as nat / pow2(shift as nat) == v as nat / 32);
        assert(p as nat % pow2((8 - shift) as nat) == p as nat % 8);
    } else if shift == 6 {
        assert(pow2(6) == 64 && pow2(2) == 4);
        assert(shift == 6u8 ==> ((v & (0xFFu8 << shift)) == (p << shift)) == (v / 64 == p % 4)) by (bit_vector);
        assert(v as nat / pow2(shift as nat) == v as nat / 64);
        assert(p as nat % pow2((8 - shift) as nat) == p as nat % 4);
    } else {
        assert(pow2(7) == 128 && pow2(1) == 2);
        assert(shift == 7u8 ==> ((v & (0xFFu8 << shift)) == (p << shift)) == (v / 128 == p % 2)) by (bit_vector);
        assert(v as nat / pow2(shift as nat) == v as nat / 128);
        assert(p as nat % pow2((8 - shift) as nat) == p as nat % 2);
    }
}

impl StartsWith for u8 {
    open spec fn width() -> nat {
        8
    }

    open spec fn has_prefix(&self, prefix: u8, prefix_bits: nat) -> bool {
        *self as nat / pow2((8 - prefix_bits) as nat) == prefix as nat % pow2(prefix_bits)
    }

    open spec fn has_binary_prefix(&self, digits: Seq<char>) -> bool {
        self.has_prefix(binary_value(digits) as u8, digits.len())
    }

    fn starts_with(&self, prefix: u8, prefix_bits: usize) -> (r: bool) {
        let shift = (8 - prefix_bits) as u8;
        let mask: u8 = 0xFFu8 << shift;
        let prefix_aligned: u8 = prefix << shift;
        let masked: u8 = *self & mask;
        proof {
            lemma_prefix_mask(*self, prefix, shift);
        }
        masked == prefix_aligned
    }

    fn binary_representation_starts_with(&self, prefix: &str) -> (r: bool) {
        let ghost all = prefix@;
        let len = prefix.unicode_len();
        let mut value: u8 = 0;
        let mut count: usize = 0;
        let mut i: usize = 0;
        proof {
            lemma2_to64();
            assert(all.subrange(0, 0) == Seq::<char>::empty());
            assert(binary_digits(Seq::<char>::empty()) == Seq::<char>::empty());
        }
        while i < len
            invariant
                len == all.len(),
                prefix@ == all,
                is_binary_pattern(all),
                1 <= binary_digits(all).len() <= 8,
                i <= len,
                count == binary_digits(all.subrange(0, i as int)).len(),
                value as nat == binary_value(binary_digits(all.subrange(0, i as int))),
                count <= 8,
                value < pow2(count as nat),
            decreases len - i,
        {
            let c = prefix.get_char(i);
            proof {
                lemma_digits_step(all, i as int);
                lemma_digits_prefix_le(all, i as int + 1);
                lemma2_to64();
            }
            if c != '_' {
                proof {
                    vstd::arithmetic::power2::lemma_pow2_unfold((count + 1) as nat);
                }
                let ghost before = binary_digits(all.subrange(0, i as int));
                proof {
                    assert(before.push(c).drop_last() == before);
                }
                value = value * 2 + if c == '1' { 1u8 } else { 0u8 };
                count = count + 1;
            }
            i = i + 1;
        }
        proof {
            assert(all.subrange(0, len as int) == all);
        }
        self.starts_with(value, count)
    }
}

proof fn lemma_digits_step(s: Seq<char>, i: int)
    requires
        0 <= i < s.len(),
    ensures
        binary_digits(s.subrange(0, i + 1)) == if s[i] != '_' {
            binary_digits(s.subrange(0, i)).push(s[i])
        } else {
            binary_digits(s.subrange(0, i))
        },
{
    let f = |c: char| c != '_';
    assert(s.subrange(0, i + 1).drop_last() == s.subrange(0, i));
    assert(s.subrange(0, i + 1).last() == s[i]);
    reveal_with_fuel(Seq::filter, 1);
    assert(s.subrange(0, i + 1).filter(f) == if f(s[i]) {
        s.subrange(0, i).filter(f).push(s[i])
    } else {
        s.subrange(0, i).filter(f)
    });
}

proof fn lemma_digits_prefix_le(s: Seq<char>, i: int)
    requires
        0 <= i <= s.len(),
    ensures
        binary_digits(s.subrange(0, i)).len() <= binary_digits(s).len(),
    decreases s.len() - i,
{
    if i < s.len() {
        lemma_digits_step(s, i);
        lemma_digits_prefix_le(s, i + 1);
    } else {
        assert(s.subrange(0, i) == s);
    }
}

} // verus!

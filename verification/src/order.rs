//! Lexicographic ordering of strings by character code point.
//!
//! Registry listings are sorted by key in ascending lexicographic order.
//! The order is defined over the character sequences of the keys; since
//! UTF-8 encoding preserves code-point order, this coincides with the
//! byte-wise order of the encoded keys.

use vstd::prelude::*;

verus! {

/// Helper for `seq_lt`: lexicographic comparison of `a` and `b` from
/// position `i` on, with the first `i` characters assumed equal.
pub open spec fn seq_lt_from(a: Seq<char>, b: Seq<char>, i: int) -> bool
    decreases a.len() - i,
{
    if i >= a.len() {
        i < b.len()
    } else if i >= b.len() {
        false
    } else if (a[i] as u32) < (b[i] as u32) {
        true
    } else if (a[i] as u32) > (b[i] as u32) {
        false
    } else {
        seq_lt_from(a, b, i + 1)
    }
}

/// Strict lexicographic order on character sequences: `a` comes before `b`.
pub open spec fn seq_lt(a: Seq<char>, b: Seq<char>) -> bool {
    seq_lt_from(a, b, 0)
}

/// From equal prefixes, `seq_lt_from` is irreflexive: no sequence is below itself.
proof fn lemma_seq_lt_from_irreflexive(a: Seq<char>, i: int)
    ensures
        !seq_lt_from(a, a, i),
    decreases a.len() - i,
{
    if i < a.len() {
        lemma_seq_lt_from_irreflexive(a, i + 1);
    }
}

/// The order is irreflexive.
pub proof fn lemma_seq_lt_irreflexive(a: Seq<char>)
    ensures
        !seq_lt(a, a),
{
    lemma_seq_lt_from_irreflexive(a, 0);
}

proof fn lemma_seq_lt_from_connected(a: Seq<char>, b: Seq<char>, i: int)
    requires
        0 <= i <= a.len(),
        0 <= i <= b.len(),
        a.subrange(0, i) == b.subrange(0, i),
        !seq_lt_from(a, b, i),
        !seq_lt_from(b, a, i),
    ensures
        a == b,
    decreases a.len() - i,
{
    if i >= a.len() {
        assert(i == a.len());
        assert(i == b.len());
        assert forall|j: int| 0 <= j < i implies a[j] == b[j] by {
            assert(a[j] == a.subrange(0, i)[j]);
            assert(b[j] == b.subrange(0, i)[j]);
        }
        assert(a =~= b);
    } else if i >= b.len() {
        assert(seq_lt_from(b, a, i));
    } else {
        assert(a[i] == b[i]) by {
            vstd::utf8::char_u32_cast(a[i], a[i] as u32);
            vstd::utf8::char_u32_cast(b[i], b[i] as u32);
        }
        assert(a.subrange(0, i + 1) =~= b.subrange(0, i + 1)) by {
            assert forall|j: int| 0 <= j < i implies #[trigger] a.subrange(0, i + 1)[j]
                == b.subrange(0, i + 1)[j] by {
                assert(a.subrange(0, i)[j] == b.subrange(0, i)[j]);
            }
        }
        lemma_seq_lt_from_connected(a, b, i + 1);
    }
}

/// The order is connected: two sequences neither of which is below the
/// other are equal.
pub proof fn lemma_seq_lt_connected(a: Seq<char>, b: Seq<char>)
    requires
        !seq_lt(a, b),
        !seq_lt(b, a),
    ensures
        a == b,
{
    assert(a.subrange(0, 0) =~= b.subrange(0, 0));
    lemma_seq_lt_from_connected(a, b, 0);
}

proof fn lemma_seq_lt_from_transitive(a: Seq<char>, b: Seq<char>, c: Seq<char>, i: int)
    requires
        0 <= i,
        seq_lt_from(a, b, i),
        seq_lt_from(b, c, i),
    ensures
        seq_lt_from(a, c, i),
    decreases b.len() - i,
{
    if i < a.len() && i < b.len() && i < c.len() {
        if (a[i] as u32) == (b[i] as u32) && (b[i] as u32) == (c[i] as u32) {
            lemma_seq_lt_from_transitive(a, b, c, i + 1);
        }
    }
}

/// The order is transitive.
pub proof fn lemma_seq_lt_transitive(a: Seq<char>, b: Seq<char>, c: Seq<char>)
    requires
        seq_lt(a, b),
        seq_lt(b, c),
    ensures
        seq_lt(a, c),
{
    lemma_seq_lt_from_transitive(a, b, c, 0);
}

/// Decides the lexicographic order `seq_lt` on two string slices.
pub fn str_lt(a: &str, b: &str) -> (r: bool)
    ensures
        r == seq_lt(a@, b@),
{
    let a_len = a.unicode_len();
    let b_len = b.unicode_len();
    let mut i: usize = 0;
    loop
        invariant
            0 <= i <= a_len,
            i <= b_len,
            a_len == a@.len(),
            b_len == b@.len(),
            seq_lt(a@, b@) == seq_lt_from(a@, b@, i as int),
        decreases a_len - i,
    {
        if i >= a_len {
            return i < b_len;
        }
        if i >= b_len {
            return false;
        }
        let ca = a.get_char(i) as u32;
        let cb = b.get_char(i) as u32;
        if ca < cb {
            return true;
        }
        if ca > cb {
            return false;
        }
        i = i + 1;
    }
}

/// Decides the lexicographic order `seq_lt` on two strings.
pub fn string_lt(a: &String, b: &String) -> (r: bool)
    ensures
        r == seq_lt(a@, b@),
{
    str_lt(a.as_str(), b.as_str())
}

/// Decides equality of two string slices, by way of the order: two
/// strings neither of which is below the other are equal.
pub fn str_eq(a: &str, b: &str) -> (r: bool)
    ensures
        r == (a@ == b@),
{
    let below = str_lt(a, b);
    let above = str_lt(b, a);
    proof {
        if !seq_lt(a@, b@) && !seq_lt(b@, a@) {
            lemma_seq_lt_connected(a@, b@);
        }
        if a@ == b@ {
            lemma_seq_lt_irreflexive(a@);
        }
    }
    !below && !above
}

} // verus!

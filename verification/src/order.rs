//! Byte-lexicographic ordering of symbol names: a total order, decided in
//! executable code, under which the emitted method lists are sorted so that
//! equal input always yields byte-identical output order.

use vstd::prelude::*;
use vstd::relations::total_ordering;
use vstd::seq_lib::lemma_sorted_unique;

verus! {

/// Byte-lexicographic "less or equal", comparing from position `i` on.
pub open spec fn bytes_le_from(a: Seq<u8>, b: Seq<u8>, i: int) -> bool
    decreases a.len() - i,
{
    if i < 0 {
        bytes_le_from(a, b, 0)
    } else if i >= a.len() {
        true
    } else if i >= b.len() {
        false
    } else if a[i] < b[i] {
        true
    } else if a[i] > b[i] {
        false
    } else {
        bytes_le_from(a, b, i + 1)
    }
}

/// Byte-lexicographic "less or equal" on whole byte sequences.
pub open spec fn bytes_le(a: Seq<u8>, b: Seq<u8>) -> bool {
    bytes_le_from(a, b, 0)
}

/// The order is reflexive.
pub proof fn lemma_bytes_le_refl_from(a: Seq<u8>, i: int)
    ensures
        bytes_le_from(a, a, i),
    decreases a.len() - i,
{
    if i < 0 {
        lemma_bytes_le_refl_from(a, 0);
    } else if i < a.len() {
        lemma_bytes_le_refl_from(a, i + 1);
    }
}

/// The order is total: of any two sequences, one is less or equal to the
/// other.
pub proof fn lemma_bytes_le_total_from(a: Seq<u8>, b: Seq<u8>, i: int)
    ensures
        bytes_le_from(a, b, i) || bytes_le_from(b, a, i),
    decreases a.len() - i,
{
    if i < 0 {
        lemma_bytes_le_total_from(a, b, 0);
    } else if i < a.len() && i < b.len() && a[i] == b[i] {
        lemma_bytes_le_total_from(a, b, i + 1);
    }
}

/// The order is antisymmetric: mutually ordered sequences that agree before
/// position `i` are equal.
pub proof fn lemma_bytes_le_antisym_from(a: Seq<u8>, b: Seq<u8>, i: int)
    requires
        0 <= i <= a.len(),
        0 <= i <= b.len(),
        a.take(i) == b.take(i),
        bytes_le_from(a, b, i),
        bytes_le_from(b, a, i),
    ensures
        a == b,
    decreases a.len() - i,
{
    if i >= a.len() {
        assert(i >= b.len());
        assert(a =~= a.take(i));
        assert(b =~= b.take(i));
    } else {
        assert(i < b.len());
        assert(a[i] == b[i]);
        assert(a.take(i + 1) =~= b.take(i + 1));
        lemma_bytes_le_antisym_from(a, b, i + 1);
    }
}

/// The order is transitive.
pub proof fn lemma_bytes_le_trans_from(a: Seq<u8>, b: Seq<u8>, c: Seq<u8>, i: int)
    requires
        bytes_le_from(a, b, i),
        bytes_le_from(b, c, i),
    ensures
        bytes_le_from(a, c, i),
    decreases a.len() - i,
{
    if i < 0 {
        lemma_bytes_le_trans_from(a, b, c, 0);
    } else if i < a.len() {
        assert(i < b.len());
        assert(i < c.len());
        if a[i] == b[i] && b[i] == c[i] {
            lemma_bytes_le_trans_from(a, b, c, i + 1);
        }
    }
}

/// `bytes_le` is a total ordering in the standard sense.
pub proof fn lemma_bytes_le_total_ordering()
    ensures
        total_ordering(|a: Seq<u8>, b: Seq<u8>| bytes_le(a, b)),
{
    let leq = |a: Seq<u8>, b: Seq<u8>| bytes_le(a, b);
    assert forall|a: Seq<u8>| #[trigger] leq(a, a) by {
        lemma_bytes_le_refl_from(a, 0);
    }
    assert forall|a: Seq<u8>, b: Seq<u8>| #[trigger] leq(a, b) && #[trigger] leq(b, a) implies a
        == b by {
        assert(a.take(0) =~= b.take(0));
        lemma_bytes_le_antisym_from(a, b, 0);
    }
    assert forall|a: Seq<u8>, b: Seq<u8>, c: Seq<u8>|
        #[trigger] leq(a, b) && #[trigger] leq(b, c) implies leq(a, c) by {
        lemma_bytes_le_trans_from(a, b, c, 0);
    }
    assert forall|a: Seq<u8>, b: Seq<u8>| #[trigger] leq(a, b) || #[trigger] leq(b, a) by {
        lemma_bytes_le_total_from(a, b, 0);
    }
}

/// Any two name sequences that are sorted under `bytes_le` and hold the
/// same names with the same multiplicities are identical: the emitted
/// order of symbol names is fully determined by what the names are.
pub proof fn lemma_sorted_names_unique(s1: Seq<Seq<u8>>, s2: Seq<Seq<u8>>)
    requires
        vstd::relations::sorted_by(s1, |a: Seq<u8>, b: Seq<u8>| bytes_le(a, b)),
        vstd::relations::sorted_by(s2, |a: Seq<u8>, b: Seq<u8>| bytes_le(a, b)),
        s1.to_multiset() == s2.to_multiset(),
    ensures
        s1 == s2,
{
    lemma_bytes_le_total_ordering();
    lemma_sorted_unique(s1, s2, |a: Seq<u8>, b: Seq<u8>| bytes_le(a, b));
    assert(s1 =~= s2);
}

/// Decides the byte-lexicographic order of two strings, comparing their
/// UTF-8 encodings.
pub fn str_bytes_le(a: &String, b: &String) -> (r: bool)
    ensures
        r == bytes_le(vstd::utf8::encode_utf8(a@), vstd::utf8::encode_utf8(b@)),
{
    let va = a.as_str().as_bytes_vec();
    let vb = b.as_str().as_bytes_vec();
    let mut i: usize = 0;
    while i < va.len()
        invariant
            i <= va@.len(),
            va@ == vstd::utf8::encode_utf8(a@),
            vb@ == vstd::utf8::encode_utf8(b@),
            bytes_le(va@, vb@) == bytes_le_from(va@, vb@, i as int),
        decreases va@.len() - i,
    {
        if i >= vb.len() {
            return false;
        }
        if va[i] < vb[i] {
            return true;
        }
        if va[i] > vb[i] {
            return false;
        }
        i += 1;
    }
    true
}

} // verus!

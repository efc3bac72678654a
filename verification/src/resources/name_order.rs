use vstd::prelude::*;
use vstd::utf8::{encode_utf8, encode_utf8_decode_utf8};

verus! {

/// `a` comes before `b` when both are compared byte by byte from position `i` on:
/// at the first differing byte the smaller one wins, and a sequence that ends first
/// comes first.
pub open spec fn bytes_less_from(a: Seq<u8>, b: Seq<u8>, i: int) -> bool
    decreases a.len() - i,
{
    if i < 0 || i >= a.len() {
        0 <= i < b.len()
    } else if i >= b.len() {
        false
    } else if a[i] < b[i] {
        true
    } else if a[i] > b[i] {
        false
    } else {
        bytes_less_from(a, b, i + 1)
    }
}

/// `a` comes before `b` in the order `String` compares in: byte by byte over the
/// UTF-8 encodings.
pub open spec fn name_less(a: Seq<char>, b: Seq<char>) -> bool {
    bytes_less_from(encode_utf8(a), encode_utf8(b), 0)
}

/// The names are in strictly increasing order, so none occurs twice.
pub open spec fn sorted_names(names: Seq<Seq<char>>) -> bool {
    forall|i: int, j: int| 0 <= i < j < names.len() ==> name_less(#[trigger] names[i], #[trigger] names[j])
}

proof fn lemma_bytes_irreflexive(a: Seq<u8>, i: int)
    requires
        0 <= i,
    ensures
        !bytes_less_from(a, a, i),
    decreases a.len() - i,
{
    if i < a.len() {
        lemma_bytes_irreflexive(a, i + 1);
    }
}

proof fn lemma_bytes_transitive(a: Seq<u8>, b: Seq<u8>, c: Seq<u8>, i: int)
    requires
        0 <= i,
        bytes_less_from(a, b, i),
        bytes_less_from(b, c, i),
    ensures
        bytes_less_from(a, c, i),
    decreases a.len() - i,
{
    if i < a.len() && i < b.len() && i < c.len() && a[i] == b[i] && b[i] == c[i] {
        lemma_bytes_transitive(a, b, c, i + 1);
    }
}

proof fn lemma_bytes_total(a: Seq<u8>, b: Seq<u8>, i: int)
    requires
        0 <= i <= a.len(),
        i <= b.len(),
        a.subrange(i, a.len() as int) != b.subrange(i, b.len() as int),
    ensures
        bytes_less_from(a, b, i) || bytes_less_from(b, a, i),
    decreases a.len() - i,
{
    if i == a.len() {
        if i == b.len() {
            assert(a.subrange(i, a.len() as int) =~= b.subrange(i, b.len() as int));
        }
    } else if i < b.len() && a[i] == b[i] {
        if a.subrange(i + 1, a.len() as int) == b.subrange(i + 1, b.len() as int) {
            assert(a.subrange(i, a.len() as int) =~= seq![a[i]] + a.subrange(i + 1, a.len() as int));
            assert(b.subrange(i, b.len() as int) =~= seq![b[i]] + b.subrange(i + 1, b.len() as int));
        }
        lemma_bytes_total(a, b, i + 1);
    }
}

/// No name comes before itself.
pub proof fn lemma_name_irreflexive(a: Seq<char>)
    ensures
        !name_less(a, a),
{
    lemma_bytes_irreflexive(encode_utf8(a), 0);
}

/// The order of names is transitive.
pub proof fn lemma_name_transitive(a: Seq<char>, b: Seq<char>, c: Seq<char>)
    requires
        name_less(a, b),
        name_less(b, c),
    ensures
        name_less(a, c),
{
    lemma_bytes_transitive(encode_utf8(a), encode_utf8(b), encode_utf8(c), 0);
}

/// Of two different names one comes before the other.
pub proof fn lemma_name_total(a: Seq<char>, b: Seq<char>)
    requires
        a != b,
    ensures
        name_less(a, b) || name_less(b, a),
{
    let ea = encode_utf8(a);
    let eb = encode_utf8(b);
    encode_utf8_decode_utf8(a);
    encode_utf8_decode_utf8(b);
    assert(ea.subrange(0, ea.len() as int) =~= ea);
    assert(eb.subrange(0, eb.len() as int) =~= eb);
    lemma_bytes_total(ea, eb, 0);
}

/// Whether `a` comes before `b` in the order `String` compares in.
pub fn str_less(a: &str, b: &str) -> (r: bool)
    ensures
        r == name_less(a@, b@),
{
    let ab = a.as_bytes();
    let bb = b.as_bytes();
    let ghost ea = encode_utf8(a@);
    let ghost eb = encode_utf8(b@);
    assert(ab@ == ea && bb@ == eb);
    let mut i: usize = 0;
    while i < ab.len() && i < bb.len() && ab[i] == bb[i]
        invariant
            ab@ == ea,
            bb@ == eb,
            i <= ab@.len(),
            i <= bb@.len(),
            bytes_less_from(ea, eb, 0) == bytes_less_from(ea, eb, i as int),
        decreases ab@.len() - i,
    {
        i = i + 1;
    }
    if i == ab.len() {
        i < bb.len()
    } else if i == bb.len() {
        false
    } else {
        ab[i] < bb[i]
    }
}

} // verus!

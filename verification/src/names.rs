//! Names of layers and extensions, held as the bytes before their terminator
//! (what a Vulkan name array holds and compares by), and the list operations the
//! setup decisions are made of.
use vstd::prelude::*;
use vstd::string::StringSliceAdditionalSpecFns;

verus! {

/// The bytes of a text, as UTF-8 encodes it.
pub open spec fn text_bytes(s: &str) -> Seq<u8> {
    s.spec_bytes()
}

/// The byte strings of a list of names.
pub open spec fn names_of(list: Seq<Vec<u8>>) -> Seq<Seq<u8>> {
    list.map_values(|n: Vec<u8>| n@)
}

/// `wanted` with every name dropped that `available` does not hold, order kept.
pub open spec fn spec_filter_present(wanted: Seq<Seq<u8>>, available: Seq<Seq<u8>>) -> Seq<Seq<u8>> {
    wanted.filter(|n: Seq<u8>| available.contains(n))
}

/// A copy of a name.
pub fn copy_name(name: &Vec<u8>) -> (r: Vec<u8>)
    ensures
        r@ == name@,
{
    vstd::slice::slice_to_vec(name.as_slice())
}

/// Whether two names are the same byte string.
pub fn same_name(a: &Vec<u8>, b: &Vec<u8>) -> (r: bool)
    ensures
        r == (a@ == b@),
{
    if a.len() != b.len() {
        return false;
    }
    let mut i: usize = 0;
    while i < a.len()
        invariant
            a.len() == b.len(),
            i <= a.len(),
            forall|j: int| 0 <= j < i ==> a@[j] == b@[j],
        decreases a.len() - i,
    {
        if a[i] != b[i] {
            return false;
        }
        i = i + 1;
    }
    assert(a@ =~= b@);
    true
}

/// Whether `list` holds `name`.
pub fn contains_name(list: &Vec<Vec<u8>>, name: &Vec<u8>) -> (r: bool)
    ensures
        r == names_of(list@).contains(name@),
{
    let mut i: usize = 0;
    while i < list.len()
        invariant
            i <= list.len(),
            forall|j: int| 0 <= j < i ==> list@[j]@ != name@,
        decreases list.len() - i,
    {
        if same_name(&list[i], name) {
            assert(names_of(list@)[i as int] == name@);
            return true;
        }
        i = i + 1;
    }
    assert(!names_of(list@).contains(name@)) by {
        if names_of(list@).contains(name@) {
            let k = choose|k: int| 0 <= k < names_of(list@).len() && names_of(list@)[k] == name@;
            assert(list@[k]@ == name@);
        }
    }
    false
}

/// Whether every name of `needles` is held by `haystack`.
pub fn contains_all(haystack: &Vec<Vec<u8>>, needles: &Vec<Vec<u8>>) -> (r: bool)
    ensures
        r == (forall|i: int|
            0 <= i < needles@.len() ==> names_of(haystack@).contains(#[trigger] needles@[i]@)),
{
    let mut i: usize = 0;
    while i < needles.len()
        invariant
            i <= needles.len(),
            forall|j: int| 0 <= j < i ==> names_of(haystack@).contains(#[trigger] needles@[j]@),
        decreases needles.len() - i,
    {
        if !contains_name(haystack, &needles[i]) {
            return false;
        }
        i = i + 1;
    }
    true
}

/// The names of `wanted` that `available` also holds, in the order of `wanted`.
pub fn filter_present(wanted: &Vec<Vec<u8>>, available: &Vec<Vec<u8>>) -> (r: Vec<Vec<u8>>)
    ensures
        names_of(r@) == spec_filter_present(names_of(wanted@), names_of(available@)),
{
    let ghost pred = |n: Seq<u8>| names_of(available@).contains(n);
    let mut r: Vec<Vec<u8>> = Vec::new();
    let mut i: usize = 0;
    while i < wanted.len()
        invariant
            i <= wanted.len(),
            pred == (|n: Seq<u8>| names_of(available@).contains(n)),
            names_of(r@) == names_of(wanted@).take(i as int).filter(pred),
        decreases wanted.len() - i,
    {
        proof {
            reveal(Seq::filter);
            assert(names_of(wanted@).take(i + 1).drop_last() =~= names_of(wanted@).take(i as int));
        }
        let ghost before = r@;
        if contains_name(available, &wanted[i]) {
            let c = copy_name(&wanted[i]);
            r.push(c);
            assert(names_of(r@) =~= names_of(before).push(wanted@[i as int]@));
        }
        i = i + 1;
    }
    assert(names_of(wanted@).take(wanted.len() as int) =~= names_of(wanted@));
    r
}

/// Keeping only some elements of a list without repeats leaves no repeats.
pub proof fn lemma_filter_keeps_distinct<A>(s: Seq<A>, pred: spec_fn(A) -> bool)
    requires
        s.no_duplicates(),
    ensures
        s.filter(pred).no_duplicates(),
    decreases s.len(),
{
    reveal(Seq::filter);
    if s.len() > 0 {
        let rest = s.drop_last();
        assert(rest.no_duplicates());
        lemma_filter_keeps_distinct(rest, pred);
        if pred(s.last()) {
            let f = rest.filter(pred);
            if f.contains(s.last()) {
                rest.lemma_filter_contains_rev(pred, s.last());
                let k = choose|k: int| 0 <= k < rest.len() && rest[k] == s.last();
                assert(s[k] == s[s.len() - 1]);
            }
            assert(f.push(s.last()).no_duplicates()) by {
                assert forall|i: int, j: int|
                    0 <= i < f.push(s.last()).len() && 0 <= j < f.push(s.last()).len() && i != j
                    implies f.push(s.last())[i] != f.push(s.last())[j] by {
                    if i < f.len() && j < f.len() {
                    } else if i < f.len() {
                        assert(f.contains(f[i]));
                    } else {
                        assert(f.contains(f[j]));
                    }
                }
            }
        }
    }
}

/// Two texts with the same bytes are the same text.
pub proof fn lemma_text_bytes_injective(a: &str, b: &str)
    requires
        text_bytes(a) == text_bytes(b),
    ensures
        a@ == b@,
{
    broadcast use vstd::utf8::encode_utf8_decode_utf8;

    assert(vstd::utf8::decode_utf8(vstd::utf8::encode_utf8(a@)) == a@);
    assert(vstd::utf8::decode_utf8(vstd::utf8::encode_utf8(b@)) == b@);
}

} // verus!

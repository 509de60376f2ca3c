//! Lexicographic ordering of strings by character code point, and sorted
//! duplicate-free insertion: what the assembler uses to emit the collected
//! import lines once each, in one deterministic order.

use vstd::prelude::*;
use vstd::string::*;

verus! {

/// Strict lexicographic order on character sequences, by code point.
pub open spec fn seq_lt(a: Seq<char>, b: Seq<char>) -> bool
    decreases a.len(),
{
    if b.len() == 0 {
        false
    } else if a.len() == 0 {
        true
    } else if (a[0] as u32) < (b[0] as u32) {
        true
    } else if (b[0] as u32) < (a[0] as u32) {
        false
    } else {
        seq_lt(a.skip(1), b.skip(1))
    }
}

/// Whether a string orders strictly before another, lexicographically by
/// character code point.
pub fn str_lt(a: &str, b: &str) -> (r: bool)
    ensures
        r == seq_lt(a@, b@),
{
    let la = a.unicode_len();
    let lb = b.unicode_len();
    let mut i: usize = 0;
    proof {
        assert(a@.skip(0) =~= a@);
        assert(b@.skip(0) =~= b@);
    }
    loop
        invariant
            la == a@.len(),
            lb == b@.len(),
            i <= la,
            i <= lb,
            seq_lt(a@, b@) == seq_lt(a@.skip(i as int), b@.skip(i as int)),
        decreases la - i,
    {
        if i >= lb {
            proof {
                assert(b@.skip(i as int).len() == 0);
            }
            return false;
        }
        if i >= la {
            proof {
                assert(a@.skip(i as int).len() == 0);
            }
            return true;
        }
        let ca = a.get_char(i);
        let cb = b.get_char(i);
        proof {
            assert(a@.skip(i as int)[0] == a@[i as int]);
            assert(b@.skip(i as int)[0] == b@[i as int]);
        }
        if (ca as u32) < (cb as u32) {
            return true;
        }
        if (cb as u32) < (ca as u32) {
            return false;
        }
        proof {
            assert(a@.skip(i as int).skip(1) =~= a@.skip(i as int + 1));
            assert(b@.skip(i as int).skip(1) =~= b@.skip(i as int + 1));
        }
        i += 1;
    }
}

/// Insertion into a sorted, duplicate-free sequence: an element already
/// present leaves the sequence as it is; a new one stands before the first
/// element it orders under.
pub open spec fn insert_sorted_spec(l: Seq<Seq<char>>, x: Seq<char>) -> Seq<Seq<char>>
    decreases l.len(),
{
    if l.len() == 0 {
        seq![x]
    } else if x == l[0] {
        l
    } else if seq_lt(x, l[0]) {
        seq![x] + l
    } else {
        seq![l[0]] + insert_sorted_spec(l.skip(1), x)
    }
}

/// Splitting a sorted insertion at a position whose earlier elements neither
/// equal the inserted one nor order after it.
proof fn lemma_insert_sorted_split(l: Seq<Seq<char>>, x: Seq<char>, i: int)
    requires
        0 <= i <= l.len(),
        forall|k: int| 0 <= k < i ==> x != l[k] && !seq_lt(x, #[trigger] l[k]),
    ensures
        insert_sorted_spec(l, x) == l.take(i) + insert_sorted_spec(l.skip(i), x),
    decreases i,
{
    if i == 0 {
        assert(l.take(0) + insert_sorted_spec(l.skip(0), x) =~= insert_sorted_spec(l, x)) by {
            assert(l.skip(0) =~= l);
            assert(l.take(0).len() == 0);
        }
    } else {
        lemma_insert_sorted_split(l, x, i - 1);
        assert(l.skip(i - 1).len() > 0);
        assert(l.skip(i - 1)[0] == l[i - 1]);
        assert(insert_sorted_spec(l.skip(i - 1), x) == seq![l[i - 1]] + insert_sorted_spec(
            l.skip(i - 1).skip(1),
            x,
        ));
        assert(l.skip(i - 1).skip(1) =~= l.skip(i));
        assert(l.take(i - 1) + (seq![l[i - 1]] + insert_sorted_spec(l.skip(i), x)) =~= l.take(i)
            + insert_sorted_spec(l.skip(i), x));
    }
}

/// Insert a line into a sorted, duplicate-free list of lines, keeping it
/// sorted and duplicate-free.
pub fn insert_sorted(v: &mut Vec<String>, x: String)
    ensures
        final(v).deep_view() == insert_sorted_spec(old(v).deep_view(), x@),
{
    let ghost dv = old(v).deep_view();
    let mut i: usize = 0;
    while i < v.len()
        invariant
            *v == *old(v),
            i <= v@.len(),
            dv == old(v).deep_view(),
            forall|k: int| 0 <= k < i ==> x@ != dv[k] && !seq_lt(x@, #[trigger] dv[k]),
        decreases v@.len() - i,
    {
        proof {
            assert(dv[i as int] == v@[i as int]@);
        }
        if x == v[i] {
            proof {
                lemma_insert_sorted_split(dv, x@, i as int);
                assert(dv.skip(i as int)[0] == dv[i as int]);
                assert(insert_sorted_spec(dv.skip(i as int), x@) == dv.skip(i as int));
                assert(dv.take(i as int) + dv.skip(i as int) =~= dv);
            }
            return ;
        }
        if str_lt(x.as_str(), v[i].as_str()) {
            proof {
                lemma_insert_sorted_split(dv, x@, i as int);
                assert(dv.skip(i as int)[0] == dv[i as int]);
                assert(insert_sorted_spec(dv.skip(i as int), x@) == seq![x@] + dv.skip(i as int));
            }
            v.insert(i, x);
            proof {
                assert(v.deep_view() =~~= dv.take(i as int) + (seq![x@] + dv.skip(i as int)));
            }
            return ;
        }
        i += 1;
    }
    proof {
        lemma_insert_sorted_split(dv, x@, dv.len() as int);
        assert(dv.skip(dv.len() as int).len() == 0);
        assert(insert_sorted_spec(dv.skip(dv.len() as int), x@) =~= seq![x@]);
    }
    v.push(x);
    proof {
        assert(v.deep_view() =~~= dv.take(dv.len() as int) + seq![x@]);
    }
}

/// Merging the first `m` lines of a list into a sorted, duplicate-free list.
pub open spec fn merge_sorted_spec(l: Seq<Seq<char>>, add: Seq<Seq<char>>, m: int) -> Seq<Seq<char>>
    decreases m,
{
    if m <= 0 {
        l
    } else {
        insert_sorted_spec(merge_sorted_spec(l, add, m - 1), add[m - 1])
    }
}

/// Merge all lines of a list into a sorted, duplicate-free list.
pub fn merge_sorted(v: &mut Vec<String>, add: &Vec<String>)
    ensures
        final(v).deep_view() == merge_sorted_spec(
            old(v).deep_view(),
            add.deep_view(),
            add.deep_view().len() as int,
        ),
{
    let mut j: usize = 0;
    while j < add.len()
        invariant
            j <= add@.len(),
            v.deep_view() == merge_sorted_spec(old(v).deep_view(), add.deep_view(), j as int),
        decreases add@.len() - j,
    {
        proof {
            assert(add.deep_view()[j as int] == add@[j as int]@);
        }
        insert_sorted(v, add[j].clone());
        j += 1;
    }
}

} // verus!

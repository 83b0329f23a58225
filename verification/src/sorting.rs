//! A stable insertion sort, stated as a spec-level function so that callers
//! can pin their loaded state to one canonical ordering.
//!
//! `spec_sort_by(ge, s)` processes `s` left to right and inserts each element
//! after every already-placed element that compares greater-or-equal, so
//! elements that compare equal keep their original order.

use vstd::prelude::*;

verus! {

/// Insert `x` into `s` behind every leading element `e` with `ge(e, x)`.
pub open spec fn spec_insert_by<A>(ge: spec_fn(A, A) -> bool, x: A, s: Seq<A>) -> Seq<A>
    decreases s.len(),
{
    if s.len() == 0 {
        seq![x]
    } else if ge(s[0], x) {
        seq![s[0]].add(spec_insert_by(ge, x, s.skip(1)))
    } else {
        seq![x].add(s)
    }
}

/// Stable insertion sort of `s` under the greater-or-equal relation `ge`.
pub open spec fn spec_sort_by<A>(ge: spec_fn(A, A) -> bool, s: Seq<A>) -> Seq<A>
    decreases s.len(),
{
    if s.len() == 0 {
        Seq::empty()
    } else {
        spec_insert_by(ge, s.last(), spec_sort_by(ge, s.drop_last()))
    }
}

/// Every pair of elements of `s`, in order, satisfies `ge`.
pub open spec fn spec_sorted_by<A>(ge: spec_fn(A, A) -> bool, s: Seq<A>) -> bool {
    forall|i: int, j: int| 0 <= i < j < s.len() ==> ge(#[trigger] s[i], #[trigger] s[j])
}

/// The relation holds one way or the other between any two elements.
pub open spec fn spec_ge_total<A>(ge: spec_fn(A, A) -> bool) -> bool {
    forall|a: A, b: A| #[trigger] ge(a, b) || #[trigger] ge(b, a)
}

/// The relation is transitive.
pub open spec fn spec_ge_trans<A>(ge: spec_fn(A, A) -> bool) -> bool {
    forall|a: A, b: A, c: A| #[trigger] ge(a, b) && #[trigger] ge(b, c) ==> ge(a, c)
}

/// Inserting at the first position whose element does not compare
/// greater-or-equal yields exactly `spec_insert_by`.
pub proof fn lemma_insert_by_at<A>(ge: spec_fn(A, A) -> bool, x: A, s: Seq<A>, j: int)
    requires
        0 <= j <= s.len(),
        forall|k: int| 0 <= k < j ==> ge(#[trigger] s[k], x),
        j < s.len() ==> !ge(s[j], x),
    ensures
        spec_insert_by(ge, x, s) == s.take(j).add(seq![x]).add(s.skip(j)),
    decreases j,
{
    if s.len() == 0 {
        assert(spec_insert_by(ge, x, s) =~= s.take(j).add(seq![x]).add(s.skip(j)));
    } else if j == 0 {
        assert(!ge(s[0], x));
        assert(spec_insert_by(ge, x, s) == seq![x].add(s));
        assert(s.take(0).add(seq![x]).add(s.skip(0)) =~= seq![x].add(s));
    } else {
        assert(ge(s[0], x));
        let t = s.skip(1);
        assert(forall|k: int| 0 <= k < j - 1 ==> ge(#[trigger] t[k], x));
        assert(j - 1 < t.len() ==> !ge(t[j - 1], x));
        lemma_insert_by_at(ge, x, t, j - 1);
        assert(spec_insert_by(ge, x, s) == seq![s[0]].add(
            t.take(j - 1).add(seq![x]).add(t.skip(j - 1)),
        ));
        assert(seq![s[0]].add(t.take(j - 1).add(seq![x]).add(t.skip(j - 1))) =~= s.take(j).add(
            seq![x],
        ).add(s.skip(j)));
    }
}

/// Inserting into a sorted sequence keeps it sorted, for a total and
/// transitive relation.
pub proof fn lemma_insert_by_sorted<A>(ge: spec_fn(A, A) -> bool, x: A, s: Seq<A>)
    requires
        spec_ge_total(ge),
        spec_ge_trans(ge),
        spec_sorted_by(ge, s),
    ensures
        spec_sorted_by(ge, spec_insert_by(ge, x, s)),
    decreases s.len(),
{
    if s.len() == 0 {
    } else if ge(s[0], x) {
        assert(spec_sorted_by(ge, s.skip(1)));
        lemma_insert_by_sorted(ge, x, s.skip(1));
        let inner = spec_insert_by(ge, x, s.skip(1));
        let out = seq![s[0]].add(inner);
        assert forall|i: int, j: int| 0 <= i < j < out.len() implies ge(out[i], out[j]) by {
            if i == 0 {
                lemma_insert_by_membership(ge, x, s.skip(1), j - 1);
                let e = inner[j - 1];
                if e != x {
                    let k = choose|k: int|
                        0 <= k < s.skip(1).len() && s.skip(1)[k] == e;
                    assert(s[k + 1] == e);
                    assert(ge(s[0], s[k + 1]));
                }
            } else {
                assert(out[i] == inner[i - 1]);
                assert(out[j] == inner[j - 1]);
            }
        }
    } else {
        let out = seq![x].add(s);
        assert forall|i: int, j: int| 0 <= i < j < out.len() implies ge(out[i], out[j]) by {
            if i == 0 {
                assert(ge(x, s[0]));
                if j > 1 {
                    assert(ge(s[0], s[j - 1]));
                }
            }
        }
    }
}

/// Every element of `spec_insert_by(ge, x, s)` is `x` or an element of `s`.
pub proof fn lemma_insert_by_membership<A>(ge: spec_fn(A, A) -> bool, x: A, s: Seq<A>, i: int)
    requires
        0 <= i < spec_insert_by(ge, x, s).len(),
    ensures
        spec_insert_by(ge, x, s)[i] == x || exists|k: int|
            0 <= k < s.len() && s[k] == spec_insert_by(ge, x, s)[i],
    decreases s.len(),
{
    if s.len() == 0 {
    } else if ge(s[0], x) {
        if i == 0 {
            assert(s[0] == spec_insert_by(ge, x, s)[0]);
        } else {
            lemma_insert_by_membership(ge, x, s.skip(1), i - 1);
            let e = spec_insert_by(ge, x, s)[i];
            if e != x {
                let k = choose|k: int| 0 <= k < s.skip(1).len() && s.skip(1)[k] == e;
                assert(s[k + 1] == e);
            }
        }
    } else {
        if i > 0 {
            assert(s[i - 1] == spec_insert_by(ge, x, s)[i]);
        }
    }
}

/// Every element of the input appears in the insertion's output.
pub proof fn lemma_insert_by_contains_all<A>(ge: spec_fn(A, A) -> bool, x: A, s: Seq<A>, i: int)
    requires
        0 <= i < s.len(),
    ensures
        exists|k: int|
            0 <= k < spec_insert_by(ge, x, s).len() && spec_insert_by(ge, x, s)[k] == s[i],
    decreases s.len(),
{
    if ge(s[0], x) {
        assert(spec_insert_by(ge, x, s) == seq![s[0]].add(spec_insert_by(ge, x, s.skip(1))));
        if i == 0 {
            assert(spec_insert_by(ge, x, s)[0] == s[0]);
        } else {
            lemma_insert_by_contains_all(ge, x, s.skip(1), i - 1);
            let k = choose|k: int|
                0 <= k < spec_insert_by(ge, x, s.skip(1)).len() && spec_insert_by(
                    ge,
                    x,
                    s.skip(1),
                )[k] == s.skip(1)[i - 1];
            assert(spec_insert_by(ge, x, s)[k + 1] == s.skip(1)[i - 1]);
            assert(s.skip(1)[i - 1] == s[i]);
        }
    } else {
        assert(spec_insert_by(ge, x, s) == seq![x].add(s));
        assert(spec_insert_by(ge, x, s)[i + 1] == s[i]);
    }
}

/// The sort of a sorted-by-insertion prefix is sorted.
pub proof fn lemma_sort_by_sorted<A>(ge: spec_fn(A, A) -> bool, s: Seq<A>)
    requires
        spec_ge_total(ge),
        spec_ge_trans(ge),
    ensures
        spec_sorted_by(ge, spec_sort_by(ge, s)),
    decreases s.len(),
{
    if s.len() == 0 {
    } else {
        lemma_sort_by_sorted(ge, s.drop_last());
        lemma_insert_by_sorted(ge, s.last(), spec_sort_by(ge, s.drop_last()));
    }
}

} // verus!

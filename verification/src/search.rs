//! Finding the first item of a sequence that has a property.

use vstd::prelude::*;

verus! {

/// The index of the first item of `s` of which `f` holds.
pub open spec fn first_where<T>(s: Seq<T>, f: spec_fn(T) -> bool) -> Option<int>
    decreases s.len(),
{
    if s.len() == 0 {
        None
    } else if f(s[0]) {
        Some(0)
    } else {
        match first_where(s.subrange(1, s.len() as int), f) {
            Some(j) => Some(j + 1),
            None => None,
        }
    }
}

/// [`first_where`] gives the least index at which `f` holds, and `None`
/// exactly where it holds nowhere.
pub proof fn lemma_first_where<T>(s: Seq<T>, f: spec_fn(T) -> bool)
    ensures
        match first_where(s, f) {
            Some(j) => 0 <= j < s.len() && f(s[j]) && forall|k: int| 0 <= k < j ==> !f(s[k]),
            None => forall|k: int| 0 <= k < s.len() ==> !f(s[k]),
        },
    decreases s.len(),
{
    if s.len() > 0 && !f(s[0]) {
        let rest = s.subrange(1, s.len() as int);
        lemma_first_where(rest, f);
        match first_where(rest, f) {
            Some(j) => {
                assert forall|k: int| 0 <= k < j + 1 implies !f(s[k]) by {
                    if k > 0 {
                        assert(!f(rest[k - 1]));
                    }
                }
            },
            None => {
                assert forall|k: int| 0 <= k < s.len() implies !f(s[k]) by {
                    if k > 0 {
                        assert(!f(rest[k - 1]));
                    }
                }
            },
        }
    }
}

/// An index is the one that [`first_where`] gives where `f` holds there and
/// nowhere before.
pub proof fn lemma_first_where_is<T>(s: Seq<T>, f: spec_fn(T) -> bool, j: int)
    requires
        0 <= j < s.len(),
        f(s[j]),
        forall|k: int| 0 <= k < j ==> !f(s[k]),
    ensures
        first_where(s, f) == Some(j),
{
    lemma_first_where(s, f);
}

/// No index is given where `f` holds nowhere.
pub proof fn lemma_first_where_none<T>(s: Seq<T>, f: spec_fn(T) -> bool)
    requires
        forall|k: int| 0 <= k < s.len() ==> !f(s[k]),
    ensures
        first_where(s, f) is None,
{
    lemma_first_where(s, f);
}

/// Over two sequences on which `f` and `g` agree index by index,
/// [`first_where`] gives the same.
pub proof fn lemma_first_where_same<T, U>(
    a: Seq<T>,
    f: spec_fn(T) -> bool,
    b: Seq<U>,
    g: spec_fn(U) -> bool,
)
    requires
        a.len() == b.len(),
        forall|k: int| 0 <= k < a.len() ==> f(a[k]) == g(b[k]),
    ensures
        first_where(a, f) == first_where(b, g),
{
    lemma_first_where(a, f);
    lemma_first_where(b, g);
    match (first_where(a, f), first_where(b, g)) {
        (Some(i), Some(j)) => {
            if i < j {
                assert(!g(b[i]));
            }
            if j < i {
                assert(!f(a[j]));
            }
        },
        (Some(i), None) => {
            assert(!g(b[i]));
        },
        (None, Some(j)) => {
            assert(!f(a[j]));
        },
        (None, None) => {},
    }
}

} // verus!

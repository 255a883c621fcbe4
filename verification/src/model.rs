//! The model that the lists share: a list is the sequence of its elements,
//! head first, and the operations are these functions on sequences.

use vstd::prelude::*;

verus! {

/// The sequence `s` with `v` put in front of it.
pub open spec fn prepended<T>(s: Seq<T>, v: T) -> Seq<T> {
    seq![v] + s
}

/// The first element of `s`, or `None` where `s` is empty.
pub open spec fn first_of<T>(s: Seq<T>) -> Option<T> {
    if s.len() == 0 {
        None
    } else {
        Some(s[0])
    }
}

/// What follows the first element of `s`; the empty sequence where `s` is
/// empty.
pub open spec fn rest_of<T>(s: Seq<T>) -> Seq<T> {
    if s.len() == 0 {
        s
    } else {
        s.subrange(1, s.len() as int)
    }
}

/// What a cursor yields at its `n`-th advance, counted from zero, when `s` is
/// what it has yet to yield.
pub open spec fn yielded_at<T>(s: Seq<T>, n: nat) -> Option<T>
    decreases n,
{
    if n == 0 {
        first_of(s)
    } else {
        yielded_at(rest_of(s), (n - 1) as nat)
    }
}

/// Putting `v` in front and taking the first element gives `v` back.
pub proof fn law_first_of_prepended<T>(s: Seq<T>, v: T)
    ensures
        first_of(prepended(s, v)) == Some(v),
{
}

/// Putting `v` in front and dropping the first element gives `s` back.
pub proof fn law_rest_of_prepended<T>(s: Seq<T>, v: T)
    ensures
        rest_of(prepended(s, v)) == s,
{
    assert(rest_of(prepended(s, v)) =~= s);
}

/// A cursor that has `s` yet to yield gives the elements of `s` in their
/// order, one at each advance, and `None` at every advance after the last.
pub proof fn law_yield_order<T>(s: Seq<T>, n: nat)
    ensures
        yielded_at(s, n) == (if n < s.len() {
            Some(s[n as int])
        } else {
            None
        }),
    decreases n,
{
    if n > 0 {
        law_yield_order(rest_of(s), (n - 1) as nat);
    }
}

} // verus!

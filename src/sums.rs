//! Sums over finite sets.

use vstd::prelude::*;

verus! {

/// The sum of `g` over the finite set `s`.
pub open spec fn sum_of<K>(s: Set<K>, g: spec_fn(K) -> int) -> int
    decreases s.len(),
    when s.finite()
{
    if s.len() == 0 {
        0
    } else {
        let x = s.choose();
        g(x) + sum_of(s.remove(x), g)
    }
}

proof fn lemma_choose_in<K>(s: Set<K>)
    requires
        s.finite(),
        s.len() > 0,
    ensures
        s.contains(s.choose()),
{
    if !s.contains(s.choose()) {
        assert(s =~= Set::empty()) by {
            assert forall|x: K| !s.contains(x) by {}
        }
    }
}

/// Taking any one element out of a sum.
pub proof fn lemma_sum_remove<K>(s: Set<K>, g: spec_fn(K) -> int, y: K)
    requires
        s.finite(),
        s.contains(y),
    ensures
        sum_of(s, g) == g(y) + sum_of(s.remove(y), g),
    decreases s.len(),
{
    lemma_choose_in(s);
    let x = s.choose();
    if x != y {
        lemma_sum_remove(s.remove(x), g, y);
        lemma_sum_remove(s.remove(y), g, x);
        assert(s.remove(x).remove(y) =~= s.remove(y).remove(x));
    }
}

/// Sums of functions that agree on the set are equal.
pub proof fn lemma_sum_congruent<K>(s: Set<K>, g1: spec_fn(K) -> int, g2: spec_fn(K) -> int)
    requires
        s.finite(),
        forall|x: K| s.contains(x) ==> g1(x) == g2(x),
    ensures
        sum_of(s, g1) == sum_of(s, g2),
    decreases s.len(),
{
    if s.len() > 0 {
        lemma_choose_in(s);
        lemma_sum_congruent(s.remove(s.choose()), g1, g2);
    }
}

/// A sum of non-negative terms is at least each of them.
pub proof fn lemma_sum_nonnegative<K>(s: Set<K>, g: spec_fn(K) -> int)
    requires
        s.finite(),
        forall|x: K| s.contains(x) ==> g(x) >= 0,
    ensures
        sum_of(s, g) >= 0,
        forall|y: K| s.contains(y) ==> sum_of(s, g) >= g(y),
    decreases s.len(),
{
    if s.len() > 0 {
        lemma_choose_in(s);
        lemma_sum_nonnegative(s.remove(s.choose()), g);
        assert forall|y: K| s.contains(y) implies sum_of(s, g) >= g(y) by {
            lemma_sum_remove(s, g, y);
            lemma_sum_nonnegative(s.remove(y), g);
        }
    }
}

/// Changing `g` at one point `y` of the set changes the sum by the difference.
pub proof fn lemma_sum_update<K>(s: Set<K>, g1: spec_fn(K) -> int, g2: spec_fn(K) -> int, y: K)
    requires
        s.finite(),
        forall|x: K| s.contains(x) && x != y ==> g1(x) == g2(x),
    ensures
        sum_of(s.insert(y), g2) == sum_of(s, g1) - (if s.contains(y) { g1(y) } else { 0 }) + g2(y),
{
    let t = s.insert(y);
    lemma_sum_remove(t, g2, y);
    lemma_sum_congruent(t.remove(y), g1, g2);
    if s.contains(y) {
        lemma_sum_remove(s, g1, y);
        assert(t.remove(y) =~= s.remove(y));
    } else {
        assert(t.remove(y) =~= s);
    }
}

/// A sum of zeros is zero.
pub proof fn lemma_sum_zero<K>(s: Set<K>, g: spec_fn(K) -> int)
    requires
        s.finite(),
        forall|x: K| s.contains(x) ==> g(x) == 0,
    ensures
        sum_of(s, g) == 0,
    decreases s.len(),
{
    if s.len() > 0 {
        lemma_choose_in(s);
        lemma_sum_zero(s.remove(s.choose()), g);
    }
}

} // verus!

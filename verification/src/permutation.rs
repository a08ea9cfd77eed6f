//! Sequences that hold the same items in another order, and the reductions
//! that do not tell them apart.

use crate::reduce::{
    greatest, least, lemma_greatest, lemma_greatest_unique, lemma_least, lemma_least_unique,
    lemma_sum_remove, mean, sum,
};
use vstd::prelude::*;

verus! {

/// Whether two sequences hold the same items, each as many times in the one
/// as in the other.
pub open spec fn is_permutation<T>(a: Seq<T>, b: Seq<T>) -> bool {
    a.to_multiset() == b.to_multiset()
}

/// Two orderings of the same items have the same length.
pub proof fn lemma_permutation_length<T>(a: Seq<T>, b: Seq<T>)
    requires
        is_permutation(a, b),
    ensures
        a.len() == b.len(),
{
    a.to_multiset_ensures();
    b.to_multiset_ensures();
}

/// What occurs in one ordering occurs in the other.
pub proof fn lemma_permutation_contains<T>(a: Seq<T>, b: Seq<T>, item: T)
    requires
        is_permutation(a, b),
        a.contains(item),
    ensures
        b.contains(item),
{
    a.to_multiset_ensures();
    b.to_multiset_ensures();
    assert(a.to_multiset().count(item) > 0);
    assert(b.to_multiset().count(item) > 0);
}

/// Taking the last item out of one ordering, and one occurrence of it out
/// of the other, leaves two orderings of the same items.
pub proof fn lemma_permutation_step<T>(a: Seq<T>, b: Seq<T>, index: int)
    requires
        is_permutation(a, b),
        a.len() > 0,
        0 <= index < b.len(),
        b[index] == a.last(),
    ensures
        is_permutation(a.drop_last(), b.remove(index)),
{
    a.to_multiset_ensures();
    b.to_multiset_ensures();
    assert(a.drop_last() =~= a.remove(a.len() - 1));
    assert(a.remove(a.len() - 1).to_multiset() =~= a.to_multiset().remove(a[a.len() - 1]));
    assert(b.remove(index).to_multiset() =~= b.to_multiset().remove(b[index]));
}

/// Applying one function to each item of two orderings of the same items
/// gives two orderings of the same numbers.
pub proof fn lemma_mapped_permutation<T>(a: Seq<T>, b: Seq<T>, f: spec_fn(T) -> nat)
    requires
        is_permutation(a, b),
    ensures
        is_permutation(a.map_values(f), b.map_values(f)),
    decreases a.len(),
{
    lemma_permutation_length(a, b);
    if a.len() == 0 {
        assert(a.map_values(f) =~= b.map_values(f));
    } else {
        lemma_permutation_contains(a, b, a.last());
        let index = choose|i: int| 0 <= i < b.len() && b[i] == a.last();
        lemma_permutation_step(a, b, index);
        lemma_mapped_permutation(a.drop_last(), b.remove(index), f);
        let mapped_a = a.map_values(f);
        let mapped_b = b.map_values(f);
        let value = f(a.last());
        assert(mapped_a =~= a.drop_last().map_values(f).push(value));
        assert(mapped_b.remove(index) =~= b.remove(index).map_values(f));
        a.drop_last().map_values(f).to_multiset_ensures();
        mapped_b.to_multiset_ensures();
        assert(mapped_b[index] == value);
        assert(mapped_b.to_multiset() =~= mapped_b.remove(index).to_multiset().insert(value));
    }
}

/// The sum does not depend on the order of the values.
pub proof fn lemma_sum_permutation(a: Seq<nat>, b: Seq<nat>)
    requires
        is_permutation(a, b),
    ensures
        sum(a) == sum(b),
    decreases a.len(),
{
    lemma_permutation_length(a, b);
    if a.len() > 0 {
        lemma_permutation_contains(a, b, a.last());
        let index = choose|i: int| 0 <= i < b.len() && b[i] == a.last();
        lemma_permutation_step(a, b, index);
        lemma_sum_permutation(a.drop_last(), b.remove(index));
        lemma_sum_remove(b, index);
    }
}

/// The mean does not depend on the order of the values.
pub proof fn lemma_mean_permutation(a: Seq<nat>, b: Seq<nat>)
    requires
        is_permutation(a, b),
    ensures
        mean(a) == mean(b),
{
    lemma_permutation_length(a, b);
    lemma_sum_permutation(a, b);
}

/// The least value does not depend on the order of the values.
pub proof fn lemma_least_permutation(a: Seq<nat>, b: Seq<nat>)
    requires
        is_permutation(a, b),
    ensures
        least(a) == least(b),
{
    lemma_permutation_length(a, b);
    if a.len() > 0 {
        lemma_least(a);
        lemma_permutation_contains(a, b, least(a));
        assert forall|i: int| 0 <= i < b.len() implies least(a) <= #[trigger] b[i] by {
            assert(b.contains(b[i]));
            lemma_permutation_contains(b, a, b[i]);
            let at = choose|k: int| 0 <= k < a.len() && a[k] == b[i];
            assert(least(a) <= a[at]);
        }
        lemma_least_unique(b, least(a));
    }
}

/// The greatest value does not depend on the order of the values.
pub proof fn lemma_greatest_permutation(a: Seq<nat>, b: Seq<nat>)
    requires
        is_permutation(a, b),
    ensures
        greatest(a) == greatest(b),
{
    lemma_permutation_length(a, b);
    if a.len() > 0 {
        lemma_greatest(a);
        lemma_permutation_contains(a, b, greatest(a));
        assert forall|i: int| 0 <= i < b.len() implies greatest(a) >= #[trigger] b[i] by {
            assert(b.contains(b[i]));
            lemma_permutation_contains(b, a, b[i]);
            let at = choose|k: int| 0 <= k < a.len() && a[k] == b[i];
            assert(greatest(a) >= a[at]);
        }
        lemma_greatest_unique(b, greatest(a));
    }
}

} // verus!

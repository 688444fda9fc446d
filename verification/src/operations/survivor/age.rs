//! Age-based survivor replacement.

use vstd::prelude::*;
use crate::operations::survivor::{lemma_sort_desc_ensures, sort_desc};
use crate::traits::chromosome::ChromosomeT;

verus! {

/// The sort key: the individual's age.
pub open spec fn age_key<U: ChromosomeT>() -> spec_fn(U) -> int {
    |u: U| u.age_view() as int
}

/// The pool after age-based replacement: stable-sorted descending by age,
/// the youngest excess trimmed from the tail.
pub open spec fn age_survivors<U: ChromosomeT>(s: Seq<U>, population_size: int) -> Seq<U> {
    let sorted = sort_desc(s, age_key::<U>());
    if s.len() > population_size {
        sorted.take(population_size)
    } else {
        sorted
    }
}

/// Every survivor was in the pool, and exactly the target number remain
/// when the pool was large enough.
pub proof fn lemma_age_survivors_in_pool<U: ChromosomeT>(s: Seq<U>, population_size: int)
    requires
        population_size >= 0,
    ensures
        age_survivors(s, population_size).len() == (if s.len() > population_size {
            population_size
        } else {
            s.len() as int
        }),
        forall|k: int|
            0 <= k < age_survivors(s, population_size).len() ==> s.contains(
                #[trigger] age_survivors(s, population_size)[k],
            ),
{
    broadcast use vstd::seq_lib::group_to_multiset_ensures;

    let key = age_key::<U>();
    let sorted = sort_desc(s, key);
    lemma_sort_desc_ensures(s, key);
    let r = age_survivors(s, population_size);
    assert(forall|k: int| 0 <= k < r.len() ==> sorted.contains(#[trigger] r[k])) by {
        assert(forall|k: int| 0 <= k < r.len() ==> r[k] == sorted[k]);
    }
    assert(forall|k: int| 0 <= k < r.len() ==> s.contains(#[trigger] r[k])) by {
        assert(forall|x: U| sorted.contains(x) ==> sorted.to_multiset().count(x) > 0);
        assert(forall|x: U| s.to_multiset().count(x) > 0 ==> s.contains(x));
    }
}

/// Stable descending insertion sort by age.
fn sort_by_age<U: ChromosomeT>(v: &mut Vec<U>)
    ensures
        final(v)@ == sort_desc(old(v)@, age_key::<U>()),
{
    let ghost key = age_key::<U>();
    let ghost input = v@;
    let mut sorted_v: Vec<U> = Vec::new();
    let ghost mut k: int = 0;
    while v.len() > 0
        invariant
            0 <= k <= input.len(),
            v@ == input.skip(k),
            sorted_v@ == sort_desc(input.take(k), key),
            key == age_key::<U>(),
        decreases v@.len(),
    {
        let x = v.remove(0);
        proof {
            assert(x == input[k]);
            assert(input.skip(k).remove(0) =~= input.skip(k + 1));
        }
        let ax = x.get_age();
        let mut idx: usize = 0;
        while idx < sorted_v.len() && sorted_v[idx].get_age() >= ax
            invariant
                0 <= idx <= sorted_v@.len(),
                forall|j: int| 0 <= j < idx ==> key(#[trigger] sorted_v@[j]) >= key(x),
                key(x) == ax,
                key == age_key::<U>(),
            decreases sorted_v@.len() - idx,
        {
            idx += 1;
        }
        proof {
            super::lemma_insert_desc_at(sorted_v@, x, key, idx as int);
            assert(input.take(k + 1).drop_last() =~= input.take(k));
            assert(input.take(k + 1).last() == input[k]);
        }
        sorted_v.insert(idx, x);
        proof {
            k = k + 1;
        }
    }
    proof {
        assert(input.take(k) =~= input);
    }
    *v = sorted_v;
}

/// Sorts the pool descending by age and trims the youngest from the tail;
/// ties are broken by sort stability only.
pub fn age_based<U: ChromosomeT>(individuals: &mut Vec<U>, population_size: usize)
    ensures
        final(individuals)@ == age_survivors(old(individuals)@, population_size as int),
{
    let ghost input = individuals@;
    sort_by_age(individuals);
    let ghost sorted = individuals@;
    proof {
        lemma_sort_desc_ensures(input, age_key::<U>());
        assert(sorted.take(sorted.len() as int) =~= sorted);
    }
    if individuals.len() > population_size {
        while individuals.len() > population_size
            invariant
                population_size <= individuals@.len() <= sorted.len(),
                individuals@ == sorted.take(individuals@.len() as int),
            decreases individuals@.len(),
        {
            proof {
                assert(sorted.take(individuals@.len() as int).drop_last() =~= sorted.take(
                    individuals@.len() - 1,
                ));
            }
            individuals.pop();
        }
    }
}

} // verus!

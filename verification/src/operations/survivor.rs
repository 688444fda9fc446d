//! Survivor replacement: trims the pool of parents and offspring down to
//! the target size, keeping the better individuals per policy.
//!
//! Both policies sort with a stable descending insertion order, so ties are
//! broken by input order alone; [`sort_desc`] is that order written out as
//! a spec function, and the operators promise to return exactly it,
//! truncated.

use vstd::prelude::*;
use crate::configuration::LimitConfiguration;
use crate::operations::Survivor;
use crate::traits::chromosome::ChromosomeT;

pub mod age;
pub mod fitness;

verus! {

/// Stable insertion of `x` into a descending-sorted `s`: `x` goes after
/// every element whose key is at least its own.
pub open spec fn insert_desc<U>(s: Seq<U>, x: U, key: spec_fn(U) -> int) -> Seq<U>
    decreases s.len(),
{
    if s.len() == 0 {
        seq![x]
    } else if key(s.first()) >= key(x) {
        seq![s.first()] + insert_desc(s.drop_first(), x, key)
    } else {
        seq![x] + s
    }
}

/// Stable descending sort by `key`: elements are inserted left to right,
/// so elements with equal keys keep their input order.
pub open spec fn sort_desc<U>(s: Seq<U>, key: spec_fn(U) -> int) -> Seq<U>
    decreases s.len(),
{
    if s.len() == 0 {
        Seq::empty()
    } else {
        insert_desc(sort_desc(s.drop_last(), key), s.last(), key)
    }
}

/// Keys never increase along the sequence.
pub open spec fn sorted_desc_by<U>(s: Seq<U>, key: spec_fn(U) -> int) -> bool {
    forall|i: int, j: int| 0 <= i < j < s.len() ==> key(s[i]) >= key(s[j])
}

/// Inserting at the position the exec scan stops at is the stable insertion.
proof fn lemma_insert_desc_at<U>(s: Seq<U>, x: U, key: spec_fn(U) -> int, idx: int)
    requires
        0 <= idx <= s.len(),
        forall|j: int| 0 <= j < idx ==> key(s[j]) >= key(x),
        idx < s.len() ==> key(s[idx]) < key(x),
    ensures
        insert_desc(s, x, key) == s.insert(idx, x),
    decreases s.len(),
{
    if s.len() == 0 {
        assert(insert_desc(s, x, key) =~= s.insert(0, x));
    } else if idx == 0 {
        assert(seq![x] + s =~= s.insert(0, x));
    } else {
        assert(key(s[0]) >= key(x));
        lemma_insert_desc_at(s.drop_first(), x, key, idx - 1);
        assert(forall|j: int|
            0 <= j < idx - 1 ==> key(s.drop_first()[j]) == key(s[j + 1]) && key(s[j + 1]) >= key(
                x,
            ));
        assert(seq![s.first()] + s.drop_first().insert(idx - 1, x) =~= s.insert(idx, x));
    }
}

/// What the stable insertion does: one longer, same multiset plus `x`,
/// still sorted when the input was.
proof fn lemma_insert_desc_ensures<U>(s: Seq<U>, x: U, key: spec_fn(U) -> int)
    ensures
        insert_desc(s, x, key).len() == s.len() + 1,
        insert_desc(s, x, key).to_multiset() == s.to_multiset().insert(x),
        sorted_desc_by(s, key) ==> sorted_desc_by(insert_desc(s, x, key), key),
    decreases s.len(),
{
    broadcast use vstd::seq_lib::group_to_multiset_ensures;

    if s.len() == 0 {
        assert(insert_desc(s, x, key) =~= Seq::empty().push(x));
        assert(Seq::<U>::empty().push(x).to_multiset() =~= Seq::<U>::empty().to_multiset().insert(
            x,
        ));
    } else if key(s.first()) >= key(x) {
        lemma_insert_desc_ensures(s.drop_first(), x, key);
        let r = insert_desc(s, x, key);
        let rr = insert_desc(s.drop_first(), x, key);
        assert(r =~= rr.insert(0, s.first()));
        vstd::seq_lib::to_multiset_insert(rr, 0, s.first());
        assert(s =~= s.drop_first().insert(0, s.first()));
        vstd::seq_lib::to_multiset_insert(s.drop_first(), 0, s.first());
        assert(r.to_multiset() =~= s.to_multiset().insert(x));
        if sorted_desc_by(s, key) {
            assert(forall|i: int, j: int|
                0 <= i < j < s.drop_first().len() ==> key(#[trigger] s.drop_first()[i]) >= key(
                    #[trigger] s.drop_first()[j],
                )) by {
                assert(forall|i: int|
                    0 <= i < s.drop_first().len() ==> #[trigger] s.drop_first()[i] == s[i + 1]);
            }
            assert(sorted_desc_by(rr, key));
            // the head's key dominates x and every element of the tail
            assert(forall|i: int| 0 <= i < rr.len() ==> key(s.first()) >= key(#[trigger] rr[i]))
                by {
                assert(forall|i: int|
                    0 <= i < rr.len() ==> rr.to_multiset().contains(#[trigger] rr[i]));
                assert(forall|y: U|
                    rr.to_multiset().contains(y) ==> s.drop_first().to_multiset().contains(y) || y
                        == x);
                assert(forall|y: U|
                    s.drop_first().to_multiset().contains(y)
                        ==> s.drop_first().contains(y));
                assert(forall|j: int|
                    0 <= j < s.drop_first().len() ==> key(s.first()) >= key(
                        #[trigger] s.drop_first()[j],
                    ));
            }
            assert(forall|i: int, j: int| 0 <= i < j < r.len() ==> key(r[i]) >= key(r[j])) by {
                assert(r[0] == s.first());
                assert(forall|i: int| 0 < i < r.len() ==> r[i] == rr[i - 1]);
            }
        }
    } else {
        let r = insert_desc(s, x, key);
        assert(r =~= s.insert(0, x));
        vstd::seq_lib::to_multiset_insert(s, 0, x);
        if sorted_desc_by(s, key) {
            assert(forall|j: int| 0 <= j < s.len() ==> key(x) >= key(#[trigger] s[j])) by {
                assert(key(x) > key(s[0]));
                assert(forall|j: int| 0 < j < s.len() ==> key(s[0]) >= key(#[trigger] s[j]));
            }
            assert(forall|i: int, j: int| 0 <= i < j < r.len() ==> key(r[i]) >= key(r[j])) by {
                assert(r[0] == x);
                assert(forall|i: int| 0 < i < r.len() ==> r[i] == s[i - 1]);
            }
        }
    }
}

/// The stable sort is a permutation of its input and is sorted descending.
pub proof fn lemma_sort_desc_ensures<U>(s: Seq<U>, key: spec_fn(U) -> int)
    ensures
        sort_desc(s, key).len() == s.len(),
        sort_desc(s, key).to_multiset() == s.to_multiset(),
        sorted_desc_by(sort_desc(s, key), key),
    decreases s.len(),
{
    broadcast use vstd::seq_lib::group_to_multiset_ensures;

    if s.len() > 0 {
        lemma_sort_desc_ensures(s.drop_last(), key);
        lemma_insert_desc_ensures(sort_desc(s.drop_last(), key), s.last(), key);
        assert(s =~= s.drop_last().push(s.last()));
        assert(s.drop_last().push(s.last()).to_multiset() =~= s.drop_last().to_multiset().insert(
            s.last(),
        ));
    }
}

/// Runs the configured survivor policy.
pub fn factory<U: ChromosomeT>(
    survivor: Survivor,
    individuals: &mut Vec<U>,
    population_size: usize,
    limit_configuration: LimitConfiguration,
)
    requires
        survivor == Survivor::Fitness && limit_configuration.problem_solving
            == crate::configuration::ProblemSolving::FixedFitness
            ==> limit_configuration.fitness_target.is_some(),
    ensures
        survivor == Survivor::Fitness ==> final(individuals)@ == fitness::fitness_survivors(
            old(individuals)@,
            population_size as int,
            limit_configuration,
        ),
        survivor == Survivor::Age ==> final(individuals)@ == age::age_survivors(
            old(individuals)@,
            population_size as int,
        ),
{
    match survivor {
        Survivor::Fitness => fitness::fitness_based(
            individuals,
            population_size,
            limit_configuration,
        ),
        Survivor::Age => age::age_based(individuals, population_size),
    }
}

} // verus!

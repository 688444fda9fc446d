//! Fitness-based survivor replacement.

use vstd::prelude::*;
use crate::configuration::{LimitConfiguration, ProblemSolving};
use crate::operations::survivor::{lemma_sort_desc_ensures, sort_desc};
use crate::traits::chromosome::ChromosomeT;

verus! {

/// The sort key under Maximization and Minimization: the fitness score.
pub open spec fn fitness_key<U: ChromosomeT>() -> spec_fn(U) -> int {
    |u: U| u.fitness_view() as int
}

/// The sort key under FixedFitness: the distance from the target.
pub open spec fn distance_key<U: ChromosomeT>(target: int) -> spec_fn(U) -> int {
    |u: U|
        if target >= u.fitness_view() {
            target - u.fitness_view()
        } else {
            u.fitness_view() - target
        }
}

/// The policy's sort key for a given configuration.
pub open spec fn survivor_key<U: ChromosomeT>(lc: LimitConfiguration) -> spec_fn(U) -> int {
    if lc.problem_solving == ProblemSolving::FixedFitness {
        distance_key::<U>(lc.fitness_target.unwrap() as int)
    } else {
        fitness_key::<U>()
    }
}

/// The pool after fitness-based replacement: stable-sorted descending by
/// the policy's key, then the excess trimmed from the tail under
/// Maximization and from the head otherwise.
pub open spec fn fitness_survivors<U: ChromosomeT>(
    s: Seq<U>,
    population_size: int,
    lc: LimitConfiguration,
) -> Seq<U> {
    let sorted = sort_desc(s, survivor_key::<U>(lc));
    if s.len() > population_size {
        if lc.problem_solving == ProblemSolving::Maximization {
            sorted.take(population_size)
        } else {
            sorted.skip(s.len() - population_size)
        }
    } else {
        sorted
    }
}

/// Fitness-based survivor replacement under Maximization retains a
/// top-k of the pool by fitness, and under Minimization a bottom-k: the
/// pool splits into the survivors and the individuals given up, and every
/// survivor's score is at least (Maximization) or at most (Minimization)
/// the score of every individual given up.
pub proof fn lemma_fitness_based_retains_extremes<U: ChromosomeT>(
    s: Seq<U>,
    population_size: int,
    lc: LimitConfiguration,
)
    requires
        0 <= population_size <= s.len(),
        lc.problem_solving == ProblemSolving::Maximization || lc.problem_solving
            == ProblemSolving::Minimization,
    ensures
        ({
            let sorted = sort_desc(s, fitness_key::<U>());
            let kept = fitness_survivors(s, population_size, lc);
            let dropped = if lc.problem_solving == ProblemSolving::Maximization {
                sorted.skip(population_size)
            } else {
                sorted.take(s.len() - population_size)
            };
            &&& kept.len() == population_size
            &&& kept.to_multiset().add(dropped.to_multiset()) == s.to_multiset()
            &&& (lc.problem_solving == ProblemSolving::Maximization ==> forall|i: int, j: int|
                0 <= i < kept.len() && 0 <= j < dropped.len() ==> (
                #[trigger] kept[i]).fitness_view() >= (#[trigger] dropped[j]).fitness_view())
            &&& (lc.problem_solving == ProblemSolving::Minimization ==> forall|i: int, j: int|
                0 <= i < kept.len() && 0 <= j < dropped.len() ==> (
                #[trigger] kept[i]).fitness_view() <= (#[trigger] dropped[j]).fitness_view())
        }),
{
    let key = fitness_key::<U>();
    let sorted = sort_desc(s, key);
    let kept = fitness_survivors(s, population_size, lc);
    lemma_sort_desc_ensures(s, key);
    if lc.problem_solving == ProblemSolving::Maximization {
        let dropped = sorted.skip(population_size);
        assert(kept =~= sorted.take(population_size));
        assert(kept + dropped =~= sorted);
        vstd::seq_lib::lemma_multiset_commutative(kept, dropped);
        assert forall|i: int, j: int|
            0 <= i < kept.len() && 0 <= j < dropped.len() implies (
        #[trigger] kept[i]).fitness_view() >= (#[trigger] dropped[j]).fitness_view() by {
            assert(kept[i] == sorted[i]);
            assert(dropped[j] == sorted[population_size + j]);
            assert(key(sorted[i]) >= key(sorted[population_size + j]));
        }
    } else {
        let dropped = sorted.take(s.len() - population_size);
        assert(kept =~= sorted.skip(s.len() - population_size));
        assert(dropped + kept =~= sorted);
        vstd::seq_lib::lemma_multiset_commutative(dropped, kept);
        assert(kept.to_multiset().add(dropped.to_multiset()) =~= dropped.to_multiset().add(
            kept.to_multiset(),
        )) by {
            broadcast use vstd::multiset::group_multiset_axioms;

        }
        assert forall|i: int, j: int|
            0 <= i < kept.len() && 0 <= j < dropped.len() implies (
        #[trigger] kept[i]).fitness_view() <= (#[trigger] dropped[j]).fitness_view() by {
            assert(kept[i] == sorted[s.len() - population_size + i]);
            assert(dropped[j] == sorted[j]);
            assert(key(sorted[j]) >= key(sorted[s.len() - population_size + i]));
        }
    }
}

/// Every survivor was in the pool, and exactly the target number remain
/// when the pool was large enough.
pub proof fn lemma_fitness_survivors_in_pool<U: ChromosomeT>(
    s: Seq<U>,
    population_size: int,
    lc: LimitConfiguration,
)
    requires
        population_size >= 0,
    ensures
        fitness_survivors(s, population_size, lc).len() == (if s.len() > population_size {
            population_size
        } else {
            s.len() as int
        }),
        forall|k: int|
            0 <= k < fitness_survivors(s, population_size, lc).len() ==> s.contains(
                #[trigger] fitness_survivors(s, population_size, lc)[k],
            ),
{
    broadcast use vstd::seq_lib::group_to_multiset_ensures;

    let key = survivor_key::<U>(lc);
    let sorted = sort_desc(s, key);
    lemma_sort_desc_ensures(s, key);
    let r = fitness_survivors(s, population_size, lc);
    assert forall|k: int| 0 <= k < r.len() implies s.contains(#[trigger] r[k]) by {
        if s.len() > population_size && lc.problem_solving != ProblemSolving::Maximization {
            assert(r[k] == sorted[k + (s.len() - population_size)]);
        } else {
            assert(r[k] == sorted[k]);
        }
        assert(sorted.contains(r[k]));
        assert(sorted.to_multiset().count(r[k]) > 0);
        assert(s.contains(r[k]));
    }
}

/// The distance between a target and a score, in wide arithmetic.
fn wide_distance(target: i64, fitness: i64) -> (r: i128)
    ensures
        r == (if target >= fitness {
            target - fitness
        } else {
            fitness - target
        }),
{
    if target >= fitness {
        (target as i128) - (fitness as i128)
    } else {
        (fitness as i128) - (target as i128)
    }
}

/// Stable descending insertion sort by fitness.
fn sort_by_fitness<U: ChromosomeT>(v: &mut Vec<U>)
    ensures
        final(v)@ == sort_desc(old(v)@, fitness_key::<U>()),
{
    let ghost key = fitness_key::<U>();
    let ghost input = v@;
    let mut sorted_v: Vec<U> = Vec::new();
    let ghost mut k: int = 0;
    while v.len() > 0
        invariant
            0 <= k <= input.len(),
            v@ == input.skip(k),
            sorted_v@ == sort_desc(input.take(k), key),
            key == fitness_key::<U>(),
        decreases v@.len(),
    {
        let x = v.remove(0);
        proof {
            assert(x == input[k]);
            assert(input.skip(k).remove(0) =~= input.skip(k + 1));
        }
        let fx = x.get_fitness();
        let mut idx: usize = 0;
        while idx < sorted_v.len() && sorted_v[idx].get_fitness() >= fx
            invariant
                0 <= idx <= sorted_v@.len(),
                forall|j: int| 0 <= j < idx ==> key(#[trigger] sorted_v@[j]) >= key(x),
                key(x) == fx,
                key == fitness_key::<U>(),
            decreases sorted_v@.len() - idx,
        {
            idx += 1;
        }
        proof {
            super::lemma_insert_desc_at(sorted_v@, x, key, idx as int);
            assert(input.take(k + 1).drop_last() =~= input.take(k));
            assert(input.take(k + 1).last() == input[k]);
        }
        sorted_v.insert(idx, x);
        proof {
            k = k + 1;
        }
    }
    proof {
        assert(input.take(k) =~= input);
    }
    *v = sorted_v;
}

/// Stable descending insertion sort by distance from `target`; the
/// distances are compared in wide arithmetic, so no score is out of range.
fn sort_by_distance<U: ChromosomeT>(v: &mut Vec<U>, target: i64)
    ensures
        final(v)@ == sort_desc(old(v)@, distance_key::<U>(target as int)),
{
    let ghost key = distance_key::<U>(target as int);
    let ghost input = v@;
    let mut sorted_v: Vec<U> = Vec::new();
    let ghost mut k: int = 0;
    while v.len() > 0
        invariant
            0 <= k <= input.len(),
            v@ == input.skip(k),
            sorted_v@ == sort_desc(input.take(k), key),
            key == distance_key::<U>(target as int),
        decreases v@.len(),
    {
        let x = v.remove(0);
        proof {
            assert(x == input[k]);
            assert(input.skip(k).remove(0) =~= input.skip(k + 1));
        }
        let dx = wide_distance(target, x.get_fitness());
        let mut idx: usize = 0;
        while idx < sorted_v.len() && wide_distance(target, sorted_v[idx].get_fitness()) >= dx
            invariant
                0 <= idx <= sorted_v@.len(),
                forall|j: int| 0 <= j < idx ==> key(#[trigger] sorted_v@[j]) >= key(x),
                key(x) == dx,
                key == distance_key::<U>(target as int),
            decreases sorted_v@.len() - idx,
        {
            idx += 1;
        }
        proof {
            super::lemma_insert_desc_at(sorted_v@, x, key, idx as int);
            assert(input.take(k + 1).drop_last() =~= input.take(k));
            assert(input.take(k + 1).last() == input[k]);
        }
        sorted_v.insert(idx, x);
        proof {
            k = k + 1;
        }
    }
    proof {
        assert(input.take(k) =~= input);
    }
    *v = sorted_v;
}

/// Sorts the pool descending by fitness (Maximization, Minimization) or by
/// distance from the configured target (FixedFitness), then trims the
/// excess: from the tail under Maximization, from the head otherwise.
pub fn fitness_based<U: ChromosomeT>(
    individuals: &mut Vec<U>,
    population_size: usize,
    limit_configuration: LimitConfiguration,
)
    requires
        limit_configuration.problem_solving == ProblemSolving::FixedFitness
            ==> limit_configuration.fitness_target.is_some(),
    ensures
        final(individuals)@ == fitness_survivors(
            old(individuals)@,
            population_size as int,
            limit_configuration,
        ),
{
    let ghost input = individuals@;
    let ghost key = survivor_key::<U>(limit_configuration);
    if limit_configuration.problem_solving != ProblemSolving::FixedFitness {
        sort_by_fitness(individuals);
    } else {
        let target = limit_configuration.fitness_target.unwrap();
        sort_by_distance(individuals, target);
    }
    let ghost sorted = individuals@;
    proof {
        lemma_sort_desc_ensures(input, key);
    }
    if individuals.len() > population_size {
        match limit_configuration.problem_solving {
            ProblemSolving::Maximization => {
                proof {
                    assert(sorted.take(sorted.len() as int) =~= sorted);
                }
                while individuals.len() > population_size
                    invariant
                        population_size <= individuals@.len() <= sorted.len(),
                        individuals@ == sorted.take(individuals@.len() as int),
                    decreases individuals@.len(),
                {
                    proof {
                        assert(sorted.take(individuals@.len() as int).drop_last() =~= sorted.take(
                            individuals@.len() - 1,
                        ));
                    }
                    individuals.pop();
                }
            },
            _ => {
                proof {
                    assert(sorted.skip(0) =~= sorted);
                }
                while individuals.len() > population_size
                    invariant
                        population_size <= individuals@.len() <= sorted.len(),
                        individuals@ == sorted.skip(sorted.len() - individuals@.len()),
                    decreases individuals@.len(),
                {
                    proof {
                        assert(sorted.skip(sorted.len() - individuals@.len()).remove(0)
                            =~= sorted.skip(sorted.len() - (individuals@.len() - 1)));
                    }
                    individuals.remove(0);
                }
            },
        }
    }
}

} // verus!

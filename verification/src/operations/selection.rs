//! Parent selection: given the current individuals and a couples count,
//! produce a mating map pairing indices into the current list.
//!
//! The map is a list of `(parent, mate)` index pairs with unique entries:
//! reproduction consumes it in order, then discards it.

use vstd::prelude::*;
use crate::configuration::SelectionConfiguration;
use crate::operations::Selection;
use crate::population::sum_fitness;
use crate::traits::chromosome::ChromosomeT;

pub mod fitness_proportionate;
pub mod random;
pub mod tournament;

verus! {

/// Every pair of the mating map points at two individuals of a population
/// of `n`.
pub open spec fn mating_in_range(m: Seq<(usize, usize)>, n: int) -> bool {
    forall|i: int| 0 <= i < m.len() ==> (#[trigger] m[i]).0 < n && m[i].1 < n
}

/// No index appears twice anywhere in the mating map, neither among the
/// parents, nor among the mates, nor across the two sides.
pub open spec fn mating_distinct(m: Seq<(usize, usize)>) -> bool {
    &&& forall|i: int| 0 <= i < m.len() ==> (#[trigger] m[i]).0 != m[i].1
    &&& forall|i: int, j: int|
        0 <= i < m.len() && 0 <= j < m.len() && i != j ==> (#[trigger] m[i]).0 != (
        #[trigger] m[j]).0 && m[i].0 != m[j].1 && m[i].1 != m[j].0 && m[i].1 != m[j].1
}

/// Pairs whose components appear in strictly increasing index order, as
/// the single-pass fitness-proportionate strategies emit them.
pub open spec fn mating_increasing(m: Seq<(usize, usize)>) -> bool {
    &&& forall|i: int| 0 <= i < m.len() ==> (#[trigger] m[i]).0 < m[i].1
    &&& forall|i: int, j: int|
        0 <= i < j < m.len() ==> (#[trigger] m[i]).1 < (#[trigger] m[j]).0
}

/// Increasing pairs never repeat an index.
pub proof fn lemma_increasing_is_distinct(m: Seq<(usize, usize)>)
    requires
        mating_increasing(m),
    ensures
        mating_distinct(m),
{
}

/// In an increasing map the k-th mate index is at least `2k + 1`.
proof fn lemma_increasing_values(m: Seq<(usize, usize)>, k: int)
    requires
        mating_increasing(m),
        0 <= k < m.len(),
    ensures
        m[k].1 >= 2 * k + 1,
    decreases k,
{
    if k > 0 {
        lemma_increasing_values(m, k - 1);
        assert((m[k - 1]).1 < (m[k]).0);
        assert((m[k]).0 < (m[k]).1);
    } else {
        assert((m[0]).0 < (m[0]).1);
    }
}

/// An increasing in-range map pairs off at most half the population.
pub proof fn lemma_increasing_len_bound(m: Seq<(usize, usize)>, n: int)
    requires
        n >= 0,
        mating_increasing(m),
        mating_in_range(m, n),
    ensures
        2 * m.len() <= n,
{
    if m.len() > 0 {
        lemma_increasing_values(m, m.len() - 1);
        assert((m[m.len() - 1]).0 < n && (m[m.len() - 1]).1 < n);
    }
}

/// Runs the configured selection operator for this generation.
pub fn factory<U: ChromosomeT>(
    individuals: &Vec<U>,
    configuration: SelectionConfiguration,
    number_of_threads: i32,
) -> (r: Vec<(usize, usize)>)
    requires
        number_of_threads >= 1,
        configuration.method == Selection::RouletteWheel || configuration.method
            == Selection::StochasticUniversalSampling ==> (forall|i: int|
            0 <= i < individuals@.len() ==> (#[trigger] individuals@[i]).fitness_view() >= 0)
            && 0 < sum_fitness(individuals@) <= i64::MAX,
        configuration.method == Selection::StochasticUniversalSampling
            ==> configuration.number_of_couples >= 1,
        configuration.method == Selection::Tournament ==> configuration.number_of_couples >= 1,
        configuration.method == Selection::Tournament && number_of_threads == 1 ==> 2 * (
        configuration.number_of_couples as int) <= individuals@.len(),
        configuration.method == Selection::Tournament && number_of_threads > 1
            ==> configuration.number_of_couples >= 2,
    ensures
        mating_in_range(r@, individuals@.len() as int),
        mating_distinct(r@),
        2 * r@.len() <= individuals@.len(),
        configuration.method == Selection::Random ==> r@.len() == individuals@.len() / 2,
        configuration.method == Selection::Tournament && number_of_threads == 1 ==> r@.len()
            == configuration.number_of_couples as int,
{
    match configuration.method {
        Selection::Random => random::random(individuals),
        Selection::RouletteWheel => {
            let r = fitness_proportionate::roulette_wheel_selection(individuals);
            proof {
                lemma_increasing_is_distinct(r@);
                lemma_increasing_len_bound(r@, individuals@.len() as int);
            }
            r
        },
        Selection::StochasticUniversalSampling => {
            let r = fitness_proportionate::stochastic_universal_sampling(
                individuals,
                configuration.number_of_couples,
            );
            proof {
                lemma_increasing_is_distinct(r@);
                lemma_increasing_len_bound(r@, individuals@.len() as int);
            }
            r
        },
        Selection::Tournament => tournament::tournament(
            individuals,
            configuration.number_of_couples,
            number_of_threads,
        ),
    }
}

} // verus!

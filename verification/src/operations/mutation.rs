//! Mutation operators: perturb one individual's gene sequence, leaving
//! fitness and age for the caller to recompute.

use vstd::prelude::*;
use crate::operations::Mutation;
use crate::operations::crossover::larger_fitness;
use crate::traits::chromosome::ChromosomeT;

pub mod inversion;
pub mod scramble;
pub mod swap;

verus! {

/// Runs the configured mutation operator on one individual.
pub fn factory<U: ChromosomeT>(mutation: Mutation, individual: &mut U)
    requires
        old(individual).dna_view().len() >= 1,
        mutation == Mutation::Scramble ==> old(individual).dna_view().len() >= 2,
    ensures
        final(individual).fitness_view() == old(individual).fitness_view(),
        final(individual).age_view() == old(individual).age_view(),
        final(individual).dna_view().len() == old(individual).dna_view().len(),
        mutation == Mutation::Swap ==> exists|a: int, b: int|
            0 <= a < old(individual).dna_view().len() && 0 <= b < old(
                individual,
            ).dna_view().len() && final(individual).dna_view() == #[trigger] swap::swapped(
                old(individual).dna_view(),
                a,
                b,
            ),
        mutation == Mutation::Inversion ==> exists|lo: int, hi: int|
            0 <= lo <= hi < old(individual).dna_view().len() && final(individual).dna_view()
                == #[trigger] inversion::reversed_interval(old(individual).dna_view(), lo, hi),
        mutation == Mutation::Scramble ==> final(individual).dna_view().to_multiset() == old(
            individual,
        ).dna_view().to_multiset() && exists|a: int, b: int|
            0 <= a < b < old(individual).dna_view().len() && #[trigger] scramble::unchanged_outside(
                old(individual).dna_view(),
                final(individual).dna_view(),
                a,
                b,
            ),
{
    match mutation {
        Mutation::Swap => swap::swap(individual),
        Mutation::Inversion => inversion::inversion(individual),
        Mutation::Scramble => scramble::scramble(individual),
    }
}

/// The adaptive mutation probability for a pair of parents: the inverse of
/// the crossover rule, `p_min` when the fitter parent's score is at or
/// above the population average, else `p_max`.
pub fn aga_probability<U: ChromosomeT>(
    parent_1: &U,
    parent_2: &U,
    f_avg: i64,
    probability_max: u32,
    probability_min: u32,
) -> (r: u32)
    ensures
        r == (if larger_fitness(parent_1.fitness_view() as int, parent_2.fitness_view() as int)
            >= f_avg {
            probability_min
        } else {
            probability_max
        }),
{
    let f_1 = parent_1.get_fitness();
    let f_2 = parent_2.get_fitness();
    let larger_f = if f_1 > f_2 {
        f_1
    } else {
        f_2
    };

    if larger_f >= f_avg {
        probability_min
    } else {
        probability_max
    }
}

} // verus!

//! Crossover operators: two equal-length parents produce two equal-length
//! offspring.

use vstd::prelude::*;
use crate::configuration::{CrossoverConfiguration, PROBABILITY_SCALE};
use crate::operations::Crossover;
use crate::traits::chromosome::ChromosomeT;

pub mod cycle;
pub mod multipoint;
pub mod uniform_crossover;

verus! {

/// The larger of two fitness scores.
pub open spec fn larger_fitness(f_1: int, f_2: int) -> int {
    if f_1 > f_2 {
        f_1
    } else {
        f_2
    }
}

/// The adaptive crossover probability for a pair of parents:
/// `p_max * (f_max - f') / (f_max - f_avg)` when the fitter parent's score
/// `f'` is at least the population average, else `p_min`.  Already-fit
/// pairs thereby get lower recombination odds.
pub open spec fn aga_crossover_probability(
    f_1: int,
    f_2: int,
    f_max: int,
    f_avg: int,
    probability_max: int,
    probability_min: int,
) -> int {
    let larger_f = larger_fitness(f_1, f_2);
    if larger_f >= f_avg {
        probability_max * (f_max - larger_f) / (f_max - f_avg)
    } else {
        probability_min
    }
}

/// Computes the adaptive crossover probability for two parents drawn from
/// a population whose running statistics are `f_max` and `f_avg`.  The
/// degenerate `f_max == f_avg` case must be guarded by the caller, and the
/// parents' scores cannot exceed the population's largest.
pub fn aga_probability<U: ChromosomeT>(
    parent_1: &U,
    parent_2: &U,
    f_max: i64,
    f_avg: i64,
    probability_max: u32,
    probability_min: u32,
) -> (r: u32)
    requires
        probability_max <= PROBABILITY_SCALE,
        probability_min <= PROBABILITY_SCALE,
        parent_1.fitness_view() <= f_max,
        parent_2.fitness_view() <= f_max,
        f_avg <= f_max,
        larger_fitness(parent_1.fitness_view() as int, parent_2.fitness_view() as int) >= f_avg
            ==> f_avg < f_max,
    ensures
        r == aga_crossover_probability(
            parent_1.fitness_view() as int,
            parent_2.fitness_view() as int,
            f_max as int,
            f_avg as int,
            probability_max as int,
            probability_min as int,
        ),
        r <= PROBABILITY_SCALE,
{
    let f_1 = parent_1.get_fitness();
    let f_2 = parent_2.get_fitness();
    let larger_f = if f_1 > f_2 {
        f_1
    } else {
        f_2
    };

    if larger_f >= f_avg {
        proof {
            assert(0 <= (probability_max as int) * (f_max as int - larger_f as int) <= (
            probability_max as int) * (f_max as int - f_avg as int) && (probability_max as int) * (
            f_max as int - f_avg as int) < i128::MAX) by (nonlinear_arith)
                requires
                    0 <= probability_max as int <= PROBABILITY_SCALE as int,
                    f_avg as int <= larger_f as int <= f_max as int,
                    i64::MIN <= f_avg as int,
                    f_max as int <= i64::MAX,
            ;
        }
        let numerator: i128 = (probability_max as i128) * ((f_max as i128) - (larger_f as i128));
        let denominator: i128 = (f_max as i128) - (f_avg as i128);
        let q: i128 = numerator / denominator;
        proof {
            let pm = probability_max as int;
            let den = f_max as int - f_avg as int;
            vstd::arithmetic::div_mod::lemma_div_pos_is_pos(numerator as int, den);
            vstd::arithmetic::div_mod::lemma_div_is_ordered(numerator as int, pm * den, den);
            vstd::arithmetic::div_mod::lemma_div_multiples_vanish(pm, den);
            assert(den * pm == pm * den) by (nonlinear_arith);
        }
        q as u32
    } else {
        probability_min
    }
}

/// Runs the configured crossover operator on two parents.
pub fn factory<U: ChromosomeT>(
    parent_1: &U,
    parent_2: &U,
    configuration: CrossoverConfiguration,
) -> (r: Option<Vec<U>>)
    requires
        parent_1.dna_view().len() == parent_2.dna_view().len(),
        configuration.method == Crossover::MultiPoint ==> configuration.number_of_points.is_some()
            && configuration.number_of_points.unwrap() >= 0 && parent_1.dna_view().len() >= 1,
    ensures
        configuration.method == Crossover::Cycle ==> r.is_some() == cycle::cycle_children(
            parent_1.dna_view(),
            parent_2.dna_view(),
        ).is_some() && (r.is_some() ==> ({
            let c = cycle::cycle_children(parent_1.dna_view(), parent_2.dna_view()).unwrap();
            &&& r.unwrap()@.len() == 2
            &&& r.unwrap()@[0].dna_view() == c.0
            &&& r.unwrap()@[1].dna_view() == c.1
        })),
        configuration.method == Crossover::MultiPoint ==> r.is_some() && r.unwrap()@.len() == 2
            && r.unwrap()@[0].dna_view() == multipoint::multipoint_child(
            parent_1.dna_view(),
            parent_2.dna_view(),
            configuration.number_of_points.unwrap() as int,
        ) && r.unwrap()@[1].dna_view() == multipoint::multipoint_child(
            parent_2.dna_view(),
            parent_1.dna_view(),
            configuration.number_of_points.unwrap() as int,
        ),
        configuration.method == Crossover::Uniform ==> r.is_some() && r.unwrap()@.len() == 2
            && uniform_crossover::uniform_children_ok(
            parent_1.dna_view(),
            parent_2.dna_view(),
            r.unwrap()@[0].dna_view(),
            r.unwrap()@[1].dna_view(),
        ),
        r.is_some() ==> r.unwrap()@.len() == 2 && r.unwrap()@[0].dna_view().len()
            == parent_1.dna_view().len() && r.unwrap()@[1].dna_view().len()
            == parent_1.dna_view().len(),
{
    let r = match configuration.method {
        Crossover::Cycle => cycle::cycle(parent_1, parent_2),
        Crossover::MultiPoint => multipoint::multipoint_crossover(
            parent_1,
            parent_2,
            &configuration.number_of_points.unwrap(),
        ),
        Crossover::Uniform => uniform_crossover::uniform(parent_1, parent_2),
    };
    proof {
        if configuration.method == Crossover::Cycle {
            lemma_cycle_children_shape(parent_1.dna_view(), parent_2.dna_view());
        }
    }
    r
}

/// Both cycle-crossover children keep their parents' dna length.
proof fn lemma_cycle_children_shape<G: crate::traits::gene::GeneT>(p1: Seq<G>, p2: Seq<G>)
    requires
        p1.len() == p2.len(),
    ensures
        cycle::cycle_children(p1, p2) matches Some(c) ==> c.0.len() == p1.len() && c.1.len()
            == p2.len(),
{
    cycle::lemma_cycle_scan_shape(p1, p2, Seq::new(p1.len(), |i: int| false), p1, p2, 0, 0);
}

} // verus!

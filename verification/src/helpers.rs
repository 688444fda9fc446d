//! Pre-run validation: calls the individual condition checks a run needs
//! and reports whether they all hold.

use vstd::prelude::*;
use crate::configuration::{GaConfiguration, ProblemSolving, PROBABILITY_SCALE};
use crate::operations::Crossover;
use crate::population::Population;
use crate::traits::chromosome::ChromosomeT;

pub mod condition_checker;

verus! {

/// What `condition_checker_factory` decides: every condition that applies
/// to the given configuration, population and alleles holds.
pub open spec fn conditions_hold<U: ChromosomeT>(
    configuration: Option<GaConfiguration>,
    population: Option<Seq<U>>,
    alleles: Option<Seq<U::Gene>>,
    default_population: bool,
) -> bool {
    &&& population matches Some(p) ==> condition_checker::same_dna_length_spec(p)
    &&& configuration matches Some(c) ==> {
        &&& c.limit_configuration.problem_solving == ProblemSolving::FixedFitness
            ==> c.limit_configuration.fitness_target.is_some()
        &&& population matches Some(p) ==> (c.crossover_configuration.method == Crossover::Cycle
            ==> condition_checker::unique_gene_ids_spec(p))
        &&& c.adaptive_ga ==> condition_checker::aga_crossover_probabilities_spec(c)
            && condition_checker::aga_mutation_probabilities_spec(c)
        &&& !c.limit_configuration.alleles_can_be_repeated ==> (alleles matches Some(a)
            ==> c.limit_configuration.genes_per_individual <= a.len())
        &&& default_population ==> c.limit_configuration.genes_per_individual > 0
            && c.limit_configuration.population_size > 0 && (alleles matches Some(a) && a.len()
            > 0)
        &&& c.selection_configuration.number_of_couples > 0
        &&& c.number_of_threads >= 1
        &&& c.crossover_configuration.probability_max matches Some(p) ==> p <= PROBABILITY_SCALE
        &&& c.mutation_configuration.probability_max matches Some(p) ==> p <= PROBABILITY_SCALE
        &&& c.crossover_configuration.method == Crossover::MultiPoint ==> (
        c.crossover_configuration.number_of_points matches Some(p) && p >= 0)
    }
}

/// Runs every condition check that applies; true exactly when a run with
/// these inputs meets all of them.
pub fn condition_checker_factory<U: ChromosomeT>(
    configuration: Option<&GaConfiguration>,
    population: Option<&Population<U>>,
    alleles: Option<&[U::Gene]>,
    default_population: bool,
) -> (r: bool)
    ensures
        r == conditions_hold::<U>(
            match configuration {
                Some(c) => Some(*c),
                None => None,
            },
            match population {
                Some(p) => Some(p.individuals@),
                None => None,
            },
            match alleles {
                Some(a) => Some(a@),
                None => None,
            },
            default_population,
        ),
{
    let mut result = true;

    // 1- Every individual must have the same dna length.
    if let Some(population) = population {
        if !condition_checker::same_dna_length(population) {
            result = false;
        }
    }

    // 2- The configuration-dependent checks.
    if let Some(configuration) = configuration {
        // 2.1- A fixed-fitness run needs its target.
        if configuration.limit_configuration.problem_solving == ProblemSolving::FixedFitness {
            if !condition_checker::fitness_target_is_some(
                configuration,
                problem_type_name(&configuration.limit_configuration.problem_solving),
            ) {
                result = false;
            }
        }
        // 2.2- Cycle crossover needs unique gene identities.
        if let Some(population) = population {
            if matches!(configuration.crossover_configuration.method, Crossover::Cycle) {
                if !condition_checker::unique_gene_ids(population) {
                    result = false;
                }
            }
        }
        // 2.3- Adaptive mode needs its probability bounds, for crossover
        // and for mutation.
        if configuration.adaptive_ga {
            if !condition_checker::aga_crossover_probabilities(configuration) {
                result = false;
            }
            if !condition_checker::aga_mutation_probabilities(configuration) {
                result = false;
            }
        }
        // 2.4- Drawing without repetition needs enough alleles.
        if !configuration.limit_configuration.alleles_can_be_repeated {
            if let Some(alleles) = alleles {
                if !condition_checker::check_genotype_length_not_bigger_than_alleles::<U>(
                    alleles,
                    configuration.limit_configuration.genes_per_individual,
                ) {
                    result = false;
                }
            }
        }
        // 2.5- A generated population needs its shape and its alleles.
        if default_population {
            if !condition_checker::check_genes_per_individual_is_set(configuration) {
                result = false;
            }
            if !condition_checker::check_population_size_is_set(configuration) {
                result = false;
            }
            if !condition_checker::check_alleles_are_set::<U>(alleles) {
                result = false;
            }
        }
        // 2.6- Selection needs its couples count.
        if !condition_checker::check_number_of_couples_is_set(configuration) {
            result = false;
        }
        // 2.7- The engine needs at least one worker.
        if configuration.number_of_threads < 1 {
            result = false;
        }
        // 2.8- A probability bound that is set must be a probability, and
        // multipoint crossover needs its point count.
        if let Some(p) = configuration.crossover_configuration.probability_max {
            if p > PROBABILITY_SCALE {
                result = false;
            }
        }
        if let Some(p) = configuration.mutation_configuration.probability_max {
            if p > PROBABILITY_SCALE {
                result = false;
            }
        }
        if matches!(configuration.crossover_configuration.method, Crossover::MultiPoint) {
            match configuration.crossover_configuration.number_of_points {
                Some(p) => {
                    if p < 0 {
                        result = false;
                    }
                },
                None => {
                    result = false;
                },
            }
        }
    }
    result
}

/// The problem type's name, for the messages an embedding program prints.
fn problem_type_name(problem_solving: &ProblemSolving) -> String {
    match problem_solving {
        ProblemSolving::Minimization => "Minimization".to_owned(),
        ProblemSolving::Maximization => "Maximization".to_owned(),
        ProblemSolving::FixedFitness => "FixedFitness".to_owned(),
    }
}

} // verus!

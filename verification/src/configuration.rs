//! Immutable per-run configuration values.
//!
//! Probabilities are integers in `0 ..= PROBABILITY_SCALE`, denoting the
//! fraction `p / PROBABILITY_SCALE` of certainty; fitness values and fitness
//! targets are plain `i64` scores.

use vstd::prelude::*;
use crate::operations::{Crossover, Mutation, Selection, Survivor};
use crate::traits::configuration::ConfigurationT;

verus! {

/// Denominator of every probability knob: a probability `p` stands for
/// `p / PROBABILITY_SCALE`, so `PROBABILITY_SCALE` itself is certainty.
pub const PROBABILITY_SCALE: u32 = 1000000;

/// What direction the run drives fitness in.
#[derive(Copy, Clone, Debug, PartialEq, Eq, Structural)]
pub enum ProblemSolving {
    Minimization,
    Maximization,
    FixedFitness,
}

/// Verbosity knob kept in the configuration; the library itself emits
/// nothing, the embedding program decides what to do with it.
#[derive(Copy, Clone, Debug, PartialEq, Eq, Structural)]
pub enum LogLevel {
    Off,
    Error,
    Warn,
    Info,
    Debug,
    Trace,
}

/// How parents are chosen each generation.
#[derive(Copy, Clone, Debug, PartialEq, Eq, Structural)]
pub struct SelectionConfiguration {
    pub number_of_couples: i32,
    pub method: Selection,
}

impl Default for SelectionConfiguration {
    /// One couple, tournament selection.
    fn default() -> (r: Self)
        ensures
            r == (SelectionConfiguration { number_of_couples: 1, method: Selection::Tournament }),
    {
        SelectionConfiguration { number_of_couples: 1, method: Selection::Tournament }
    }
}

/// How offspring are recombined from their parents.
#[derive(Copy, Clone, Debug)]
pub struct CrossoverConfiguration {
    pub number_of_points: Option<i32>,
    pub probability_max: Option<u32>,
    pub probability_min: Option<u32>,
    pub method: Crossover,
}

impl Default for CrossoverConfiguration {
    /// Uniform crossover, nothing else set.
    fn default() -> (r: Self)
        ensures
            r.number_of_points is None,
            r.probability_max is None,
            r.probability_min is None,
            r.method == Crossover::Uniform,
    {
        CrossoverConfiguration {
            number_of_points: None,
            probability_max: None,
            probability_min: None,
            method: Crossover::Uniform,
        }
    }
}

/// How offspring are perturbed after recombination.
#[derive(Copy, Clone, Debug)]
pub struct MutationConfiguration {
    pub probability_max: Option<u32>,
    pub probability_min: Option<u32>,
    pub method: Mutation,
}

impl Default for MutationConfiguration {
    /// Swap mutation, nothing else set.
    fn default() -> (r: Self)
        ensures
            r.probability_max is None,
            r.probability_min is None,
            r.method == Mutation::Swap,
    {
        MutationConfiguration { probability_max: None, probability_min: None, method: Mutation::Swap }
    }
}

/// Termination policy and population shape.
#[derive(Copy, Clone, Debug)]
pub struct LimitConfiguration {
    pub problem_solving: ProblemSolving,
    pub max_generations: i32,
    pub fitness_target: Option<i64>,
    pub get_best_individual_by_generation: bool,
    pub population_size: i32,
    pub genes_per_individual: i32,
    pub needs_unique_ids: bool,
    pub alleles_can_be_repeated: bool,
}

impl Default for LimitConfiguration {
    /// Minimization capped at one hundred generations, everything else unset.
    fn default() -> (r: Self)
        ensures
            r.problem_solving == ProblemSolving::Minimization,
            r.max_generations == 100,
            r.fitness_target is None,
            !r.get_best_individual_by_generation,
            r.population_size == 0,
            r.genes_per_individual == 0,
            !r.needs_unique_ids,
            !r.alleles_can_be_repeated,
    {
        LimitConfiguration {
            problem_solving: ProblemSolving::Minimization,
            max_generations: 100,
            fitness_target: None,
            get_best_individual_by_generation: false,
            population_size: 0,
            genes_per_individual: 0,
            needs_unique_ids: false,
            alleles_can_be_repeated: false,
        }
    }
}

/// The configuration every run starts from: non-adaptive, one worker,
/// fitness-based survivors, tournament selection of one couple, uniform
/// crossover, swap mutation, Minimization capped at one hundred
/// generations, everything else unset.
pub open spec fn default_configuration() -> GaConfiguration {
    GaConfiguration {
        adaptive_ga: false,
        number_of_threads: 1,
        survivor: Survivor::Fitness,
        log_level: LogLevel::Off,
        limit_configuration: LimitConfiguration {
            problem_solving: ProblemSolving::Minimization,
            max_generations: 100,
            fitness_target: None,
            get_best_individual_by_generation: false,
            population_size: 0,
            genes_per_individual: 0,
            needs_unique_ids: false,
            alleles_can_be_repeated: false,
        },
        selection_configuration: SelectionConfiguration {
            number_of_couples: 1,
            method: Selection::Tournament,
        },
        crossover_configuration: CrossoverConfiguration {
            number_of_points: None,
            probability_max: None,
            probability_min: None,
            method: Crossover::Uniform,
        },
        mutation_configuration: MutationConfiguration {
            probability_max: None,
            probability_min: None,
            method: Mutation::Swap,
        },
    }
}

/// The whole per-run configuration, read-only during a run.
#[derive(Copy, Clone, Debug)]
pub struct GaConfiguration {
    pub adaptive_ga: bool,
    pub number_of_threads: i32,
    pub limit_configuration: LimitConfiguration,
    pub selection_configuration: SelectionConfiguration,
    pub crossover_configuration: CrossoverConfiguration,
    pub mutation_configuration: MutationConfiguration,
    pub survivor: Survivor,
    pub log_level: LogLevel,
}

impl Default for GaConfiguration {
    /// Exactly [`default_configuration`].
    fn default() -> (r: Self)
        ensures
            r == default_configuration(),
    {
        GaConfiguration {
            adaptive_ga: false,
            number_of_threads: 1,
            survivor: Survivor::Fitness,
            log_level: LogLevel::Off,
            limit_configuration: LimitConfiguration::default(),
            selection_configuration: SelectionConfiguration::default(),
            crossover_configuration: CrossoverConfiguration::default(),
            mutation_configuration: MutationConfiguration::default(),
        }
    }
}

impl ConfigurationT for GaConfiguration {
    open spec fn configuration_view(&self) -> GaConfiguration {
        *self
    }

    fn new() -> Self {
        Self::default()
    }

    fn with_adaptive_ga(&mut self, adaptive_ga: bool) -> &mut Self {
        self.adaptive_ga = adaptive_ga;
        self
    }

    fn with_threads(&mut self, number_of_threads: i32) -> &mut Self {
        self.number_of_threads = number_of_threads;
        self
    }

    fn with_logs(&mut self, log_level: LogLevel) -> &mut Self {
        self.log_level = log_level;
        self
    }

    fn with_survivor_method(&mut self, method: Survivor) -> &mut Self {
        self.survivor = method;
        self
    }

    fn with_problem_solving(&mut self, problem_solving: ProblemSolving) -> &mut Self {
        self.limit_configuration.problem_solving = problem_solving;
        self
    }

    fn with_max_generations(&mut self, max_generations: i32) -> &mut Self {
        self.limit_configuration.max_generations = max_generations;
        self
    }

    fn with_fitness_target(&mut self, fitness_target: i64) -> &mut Self {
        self.limit_configuration.fitness_target = Some(fitness_target);
        self
    }

    fn with_best_individual_by_generation(&mut self, best_individual_by_generation: bool) -> &mut Self {
        self.limit_configuration.get_best_individual_by_generation = best_individual_by_generation;
        self
    }

    fn with_population_size(&mut self, population_size: i32) -> &mut Self {
        self.limit_configuration.population_size = population_size;
        self
    }

    fn with_genes_per_individual(&mut self, genes_per_individual: i32) -> &mut Self {
        self.limit_configuration.genes_per_individual = genes_per_individual;
        self
    }

    fn with_needs_unique_ids(&mut self, needs_unique_ids: bool) -> &mut Self {
        self.limit_configuration.needs_unique_ids = needs_unique_ids;
        self
    }

    fn with_alleles_can_be_repeated(&mut self, alleles_can_be_repeated: bool) -> &mut Self {
        self.limit_configuration.alleles_can_be_repeated = alleles_can_be_repeated;
        self
    }

    fn with_number_of_couples(&mut self, number_of_couples: i32) -> &mut Self {
        self.selection_configuration.number_of_couples = number_of_couples;
        self
    }

    fn with_selection_method(&mut self, selection_method: Selection) -> &mut Self {
        self.selection_configuration.method = selection_method;
        self
    }

    fn with_crossover_number_of_points(&mut self, number_of_points: i32) -> &mut Self {
        self.crossover_configuration.number_of_points = Some(number_of_points);
        self
    }

    fn with_crossover_probability_max(&mut self, probability_max: u32) -> &mut Self {
        self.crossover_configuration.probability_max = Some(probability_max);
        self
    }

    fn with_crossover_probability_min(&mut self, probability_min: u32) -> &mut Self {
        self.crossover_configuration.probability_min = Some(probability_min);
        self
    }

    fn with_crossover_method(&mut self, method: Crossover) -> &mut Self {
        self.crossover_configuration.method = method;
        self
    }

    fn with_mutation_probability_max(&mut self, probability_max: u32) -> &mut Self {
        self.mutation_configuration.probability_max = Some(probability_max);
        self
    }

    fn with_mutation_probability_min(&mut self, probability_min: u32) -> &mut Self {
        self.mutation_configuration.probability_min = Some(probability_min);
        self
    }

    fn with_mutation_method(&mut self, method: Mutation) -> &mut Self {
        self.mutation_configuration.method = method;
        self
    }
}

} // verus!

use vstd::prelude::*;
use crate::configuration::{
    default_configuration, CrossoverConfiguration, GaConfiguration, LimitConfiguration, LogLevel,
    MutationConfiguration, ProblemSolving, SelectionConfiguration,
};
use crate::operations::{Crossover, Mutation, Selection, Survivor};

verus! {

/// Builder-style access to a run configuration.  Each setter writes one
/// knob and hands the receiver back for chaining; what each one does is
/// stated over [`ConfigurationT::configuration_view`], the run
/// configuration the receiver carries.
pub trait ConfigurationT: Sized {
    /// The run configuration the receiver carries, as the contracts see
    /// it.  The placeholder body leaves it unspecified; a verified
    /// implementation overrides it.
    open spec fn configuration_view(&self) -> GaConfiguration {
        vstd::pervasive::arbitrary()
    }

    fn new() -> (r: Self)
        ensures
            r.configuration_view() == default_configuration(),
    ;

    fn with_adaptive_ga(&mut self, adaptive_ga: bool) -> (r: &mut Self)
        ensures
            *final(self) == *final(r),
            r.configuration_view() == (GaConfiguration {
                adaptive_ga,
                ..old(self).configuration_view()
            }),
    ;

    fn with_threads(&mut self, number_of_threads: i32) -> (r: &mut Self)
        ensures
            *final(self) == *final(r),
            r.configuration_view() == (GaConfiguration {
                number_of_threads,
                ..old(self).configuration_view()
            }),
    ;

    fn with_logs(&mut self, log_level: LogLevel) -> (r: &mut Self)
        ensures
            *final(self) == *final(r),
            r.configuration_view() == (GaConfiguration {
                log_level,
                ..old(self).configuration_view()
            }),
    ;

    fn with_survivor_method(&mut self, method: Survivor) -> (r: &mut Self)
        ensures
            *final(self) == *final(r),
            r.configuration_view() == (GaConfiguration {
                survivor: method,
                ..old(self).configuration_view()
            }),
    ;

    fn with_problem_solving(&mut self, problem_solving: ProblemSolving) -> (r: &mut Self)
        ensures
            *final(self) == *final(r),
            r.configuration_view() == (GaConfiguration {
                limit_configuration: LimitConfiguration {
                    problem_solving,
                    ..old(self).configuration_view().limit_configuration
                },
                ..old(self).configuration_view()
            }),
    ;

    fn with_max_generations(&mut self, max_generations: i32) -> (r: &mut Self)
        ensures
            *final(self) == *final(r),
            r.configuration_view() == (GaConfiguration {
                limit_configuration: LimitConfiguration {
                    max_generations,
                    ..old(self).configuration_view().limit_configuration
                },
                ..old(self).configuration_view()
            }),
    ;

    fn with_fitness_target(&mut self, fitness_target: i64) -> (r: &mut Self)
        ensures
            *final(self) == *final(r),
            r.configuration_view() == (GaConfiguration {
                limit_configuration: LimitConfiguration {
                    fitness_target: Some(fitness_target),
                    ..old(self).configuration_view().limit_configuration
                },
                ..old(self).configuration_view()
            }),
    ;

    fn with_best_individual_by_generation(&mut self, best_individual_by_generation: bool) -> (r:
        &mut Self)
        ensures
            *final(self) == *final(r),
            r.configuration_view() == (GaConfiguration {
                limit_configuration: LimitConfiguration {
                    get_best_individual_by_generation: best_individual_by_generation,
                    ..old(self).configuration_view().limit_configuration
                },
                ..old(self).configuration_view()
            }),
    ;

    fn with_population_size(&mut self, population_size: i32) -> (r: &mut Self)
        ensures
            *final(self) == *final(r),
            r.configuration_view() == (GaConfiguration {
                limit_configuration: LimitConfiguration {
                    population_size,
                    ..old(self).configuration_view().limit_configuration
                },
                ..old(self).configuration_view()
            }),
    ;

    fn with_genes_per_individual(&mut self, genes_per_individual: i32) -> (r: &mut Self)
        ensures
            *final(self) == *final(r),
            r.configuration_view() == (GaConfiguration {
                limit_configuration: LimitConfiguration {
                    genes_per_individual,
                    ..old(self).configuration_view().limit_configuration
                },
                ..old(self).configuration_view()
            }),
    ;

    fn with_needs_unique_ids(&mut self, needs_unique_ids: bool) -> (r: &mut Self)
        ensures
            *final(self) == *final(r),
            r.configuration_view() == (GaConfiguration {
                limit_configuration: LimitConfiguration {
                    needs_unique_ids,
                    ..old(self).configuration_view().limit_configuration
                },
                ..old(self).configuration_view()
            }),
    ;

    fn with_alleles_can_be_repeated(&mut self, alleles_can_be_repeated: bool) -> (r: &mut Self)
        ensures
            *final(self) == *final(r),
            r.configuration_view() == (GaConfiguration {
                limit_configuration: LimitConfiguration {
                    alleles_can_be_repeated,
                    ..old(self).configuration_view().limit_configuration
                },
                ..old(self).configuration_view()
            }),
    ;

    fn with_number_of_couples(&mut self, number_of_couples: i32) -> (r: &mut Self)
        ensures
            *final(self) == *final(r),
            r.configuration_view() == (GaConfiguration {
                selection_configuration: SelectionConfiguration {
                    number_of_couples,
                    ..old(self).configuration_view().selection_configuration
                },
                ..old(self).configuration_view()
            }),
    ;

    fn with_selection_method(&mut self, selection_method: Selection) -> (r: &mut Self)
        ensures
            *final(self) == *final(r),
            r.configuration_view() == (GaConfiguration {
                selection_configuration: SelectionConfiguration {
                    method: selection_method,
                    ..old(self).configuration_view().selection_configuration
                },
                ..old(self).configuration_view()
            }),
    ;

    fn with_crossover_number_of_points(&mut self, number_of_points: i32) -> (r: &mut Self)
        ensures
            *final(self) == *final(r),
            r.configuration_view() == (GaConfiguration {
                crossover_configuration: CrossoverConfiguration {
                    number_of_points: Some(number_of_points),
                    ..old(self).configuration_view().crossover_configuration
                },
                ..old(self).configuration_view()
            }),
    ;

    fn with_crossover_probability_max(&mut self, probability_max: u32) -> (r: &mut Self)
        ensures
            *final(self) == *final(r),
            r.configuration_view() == (GaConfiguration {
                crossover_configuration: CrossoverConfiguration {
                    probability_max: Some(probability_max),
                    ..old(self).configuration_view().crossover_configuration
                },
                ..old(self).configuration_view()
            }),
    ;

    fn with_crossover_probability_min(&mut self, probability_min: u32) -> (r: &mut Self)
        ensures
            *final(self) == *final(r),
            r.configuration_view() == (GaConfiguration {
                crossover_configuration: CrossoverConfiguration {
                    probability_min: Some(probability_min),
                    ..old(self).configuration_view().crossover_configuration
                },
                ..old(self).configuration_view()
            }),
    ;

    fn with_crossover_method(&mut self, method: Crossover) -> (r: &mut Self)
        ensures
            *final(self) == *final(r),
            r.configuration_view() == (GaConfiguration {
                crossover_configuration: CrossoverConfiguration {
                    method,
                    ..old(self).configuration_view().crossover_configuration
                },
                ..old(self).configuration_view()
            }),
    ;

    fn with_mutation_probability_max(&mut self, probability_max: u32) -> (r: &mut Self)
        ensures
            *final(self) == *final(r),
            r.configuration_view() == (GaConfiguration {
                mutation_configuration: MutationConfiguration {
                    probability_max: Some(probability_max),
                    ..old(self).configuration_view().mutation_configuration
                },
                ..old(self).configuration_view()
            }),
    ;

    fn with_mutation_probability_min(&mut self, probability_min: u32) -> (r: &mut Self)
        ensures
            *final(self) == *final(r),
            r.configuration_view() == (GaConfiguration {
                mutation_configuration: MutationConfiguration {
                    probability_min: Some(probability_min),
                    ..old(self).configuration_view().mutation_configuration
                },
                ..old(self).configuration_view()
            }),
    ;

    fn with_mutation_method(&mut self, method: Mutation) -> (r: &mut Self)
        ensures
            *final(self) == *final(r),
            r.configuration_view() == (GaConfiguration {
                mutation_configuration: MutationConfiguration {
                    method,
                    ..old(self).configuration_view().mutation_configuration
                },
                ..old(self).configuration_view()
            }),
    ;
}

} // verus!

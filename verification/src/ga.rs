//! The generation-cycle engine: evaluate, select, reproduce, replace,
//! generation after generation, tracking the best individual throughout.

use vstd::prelude::*;
use crate::configuration::{
    GaConfiguration, LimitConfiguration, LogLevel, ProblemSolving, PROBABILITY_SCALE,
};
use crate::helpers::condition_checker::same_dna_length_spec;
use crate::operations::{crossover, mutation, selection, survivor, Crossover, Mutation, Selection, Survivor};
use crate::population::{sum_fitness, Population};
use crate::rng::rand_below;
use crate::traits::chromosome::ChromosomeT;
use crate::traits::gene::GeneT;
use crate::traits::configuration::ConfigurationT;

verus! {

/// Why a run stopped, as reported to the progress callback.
#[derive(Debug, PartialEq, Eq, Structural)]
pub enum TerminationCause {
    GenerationLimitReached,
    FitnessTargetReached,
    NotTerminated,
}

/// A run under construction: configuration, allele pool and population.
pub struct Ga<U: ChromosomeT> {
    pub configuration: GaConfiguration,
    pub alleles: Vec<U::Gene>,
    pub population: Population<U>,
    pub random_initialization: bool,
    pub default_population: bool,
}

/// Every individual carries dna of length `len`.
pub open spec fn all_dna_len<U: ChromosomeT>(s: Seq<U>, len: int) -> bool {
    forall|i: int| 0 <= i < s.len() ==> (#[trigger] s[i]).dna_view().len() == len
}

/// The probability knobs and operator parameters a reproduction phase
/// relies on: every probability that is set is a probability, adaptive
/// mode has the bounds it needs, and multipoint crossover has its point
/// count.
pub open spec fn reproduction_config_ok(cfg: GaConfiguration) -> bool {
    &&& cfg.crossover_configuration.probability_max matches Some(p) ==> p <= PROBABILITY_SCALE
    &&& cfg.mutation_configuration.probability_max matches Some(p) ==> p <= PROBABILITY_SCALE
    &&& cfg.adaptive_ga && cfg.crossover_configuration.probability_max.is_some() ==> (
    cfg.crossover_configuration.probability_min matches Some(p) && p <= PROBABILITY_SCALE)
    &&& cfg.adaptive_ga && cfg.mutation_configuration.probability_max.is_some() ==> (
    cfg.mutation_configuration.probability_min matches Some(p) && p <= PROBABILITY_SCALE)
    &&& cfg.crossover_configuration.method == Crossover::MultiPoint ==> (
    cfg.crossover_configuration.number_of_points matches Some(p) && p >= 0)
}

/// A child's dna derives from a pre-mutation dna by the configured
/// mutation — or is that dna unchanged, when the mutation roll declined.
pub open spec fn mutated_from<U: ChromosomeT>(
    cfg: GaConfiguration,
    pre: Seq<U::Gene>,
    post: Seq<U::Gene>,
) -> bool {
    ||| post == pre
    ||| (match cfg.mutation_configuration.method {
        Mutation::Swap => exists|a: int, b: int|
            0 <= a < pre.len() && 0 <= b < pre.len() && post
                == #[trigger] mutation::swap::swapped(pre, a, b),
        Mutation::Inversion => exists|lo: int, hi: int|
            0 <= lo <= hi < pre.len() && post == #[trigger] mutation::inversion::reversed_interval(
                pre,
                lo,
                hi,
            ),
        Mutation::Scramble => post.len() == pre.len() && post.to_multiset() == pre.to_multiset()
            && exists|a: int, b: int|
            0 <= a < b < pre.len() && #[trigger] mutation::scramble::unchanged_outside(
                pre,
                post,
                a,
                b,
            ),
    })
}

/// The pre-mutation dnas of a couple's two children: the configured
/// crossover's children when the roll admitted it (in the reverse order
/// reproduction unstacks them), or the parents' own dnas when the roll
/// declined — or when a cycle could not close.
pub open spec fn crossed_from<U: ChromosomeT>(
    cfg: GaConfiguration,
    p1: Seq<U::Gene>,
    p2: Seq<U::Gene>,
    d1: Seq<U::Gene>,
    d2: Seq<U::Gene>,
) -> bool {
    ||| (d1 == p1 && d2 == p2)
    ||| (match cfg.crossover_configuration.method {
        Crossover::Cycle => crossover::cycle::cycle_children(p1, p2) matches Some(c) && d1 == c.1
            && d2 == c.0,
        Crossover::MultiPoint => d1 == crossover::multipoint::multipoint_child(
            p2,
            p1,
            cfg.crossover_configuration.number_of_points.unwrap() as int,
        ) && d2 == crossover::multipoint::multipoint_child(
            p1,
            p2,
            cfg.crossover_configuration.number_of_points.unwrap() as int,
        ),
        Crossover::Uniform => crossover::uniform_crossover::uniform_children_ok(p1, p2, d2, d1),
    })
}

/// A couple's two children derive from its two parents: for some choice
/// of rolls, their pre-mutation dnas are the configured crossover's
/// children (or the parents passed through), and each child's dna then
/// relates to its pre-mutation dna by the configured mutation (or is
/// unchanged).
pub open spec fn derived_couple<U: ChromosomeT>(
    cfg: GaConfiguration,
    p1: Seq<U::Gene>,
    p2: Seq<U::Gene>,
    child_1: Seq<U::Gene>,
    child_2: Seq<U::Gene>,
) -> bool {
    exists|d1: Seq<U::Gene>, d2: Seq<U::Gene>|
        #[trigger] crossed_from::<U>(cfg, p1, p2, d1, d2) && mutated_from::<U>(cfg, d1, child_1)
            && mutated_from::<U>(cfg, d2, child_2)
}

/// The best of two individuals: the fitter one under Maximization, the
/// less fit one otherwise, with the first argument winning ties under
/// Maximization and the second otherwise.  The returned individual is a
/// fresh one carrying the winner's dna and fitness, age zero.
fn get_best_individual<U: ChromosomeT>(
    individual_1: &U,
    individual_2: &U,
    problem_solving: ProblemSolving,
) -> (r: U)
    ensures
        ({
            let pick_first = if problem_solving == ProblemSolving::Maximization {
                individual_1.fitness_view() >= individual_2.fitness_view()
            } else {
                individual_1.fitness_view() < individual_2.fitness_view()
            };
            &&& r.dna_view() == (if pick_first {
                individual_1.dna_view()
            } else {
                individual_2.dna_view()
            })
            &&& r.fitness_view() == (if pick_first {
                individual_1.fitness_view()
            } else {
                individual_2.fitness_view()
            })
            &&& r.age_view() == 0
        }),
{
    let mut best_individual = U::new();

    if matches!(problem_solving, ProblemSolving::Maximization) {
        if individual_1.get_fitness() >= individual_2.get_fitness() {
            best_individual.set_dna(individual_1.get_dna());
            best_individual.set_fitness(individual_1.get_fitness());
        } else {
            best_individual.set_dna(individual_2.get_dna());
            best_individual.set_fitness(individual_2.get_fitness());
        }
    } else {
        if individual_1.get_fitness() >= individual_2.get_fitness() {
            best_individual.set_dna(individual_2.get_dna());
            best_individual.set_fitness(individual_2.get_fitness());
        } else {
            best_individual.set_dna(individual_1.get_dna());
            best_individual.set_fitness(individual_1.get_fitness());
        }
    }
    best_individual
}

/// A fresh individual carrying the same dna, fitness and age.
fn replicate<U: ChromosomeT>(individual: &U) -> (r: U)
    ensures
        r.dna_view() == individual.dna_view(),
        r.fitness_view() == individual.fitness_view(),
        r.age_view() == individual.age_view(),
{
    let mut r = U::new();
    r.set_dna(individual.get_dna());
    r.set_fitness(individual.get_fitness());
    r.set_age(individual.get_age());
    r
}

/// Some individual has hit the termination fitness: exactly zero under
/// Minimization, exactly the target under FixedFitness.  Maximization
/// relies on the generation cap alone.
pub open spec fn limit_reached_spec<U: ChromosomeT>(limit: LimitConfiguration, s: Seq<U>) -> bool {
    if limit.problem_solving == ProblemSolving::Minimization {
        exists|i: int| 0 <= i < s.len() && (#[trigger] s[i]).fitness_view() == 0
    } else if limit.problem_solving == ProblemSolving::FixedFitness {
        exists|i: int|
            0 <= i < s.len() && (#[trigger] s[i]).fitness_view()
                == limit.fitness_target.unwrap()
    } else {
        false
    }
}

/// Decides whether the current generation has reached the fitness limit.
fn limit_reached<U: ChromosomeT>(limit: LimitConfiguration, individuals: &Vec<U>) -> (r: bool)
    requires
        limit.problem_solving == ProblemSolving::FixedFitness
            ==> limit.fitness_target.is_some(),
    ensures
        r == limit_reached_spec(limit, individuals@),
{
    let n = individuals.len();
    if matches!(limit.problem_solving, ProblemSolving::Minimization) {
        let mut i: usize = 0;
        while i < n
            invariant
                i <= n,
                n == individuals@.len(),
                limit.problem_solving == ProblemSolving::Minimization,
                forall|j: int| 0 <= j < i ==> (#[trigger] individuals@[j]).fitness_view() != 0,
            decreases n - i,
        {
            if individuals[i].get_fitness() == 0 {
                return true;
            }
            i += 1;
        }
        false
    } else if matches!(limit.problem_solving, ProblemSolving::FixedFitness) {
        let target = limit.fitness_target.unwrap();
        let mut i: usize = 0;
        while i < n
            invariant
                i <= n,
                n == individuals@.len(),
                limit.problem_solving == ProblemSolving::FixedFitness,
                limit.fitness_target.is_some(),
                target == limit.fitness_target.unwrap(),
                forall|j: int|
                    0 <= j < i ==> (#[trigger] individuals@[j]).fitness_view() != target,
            decreases n - i,
        {
            if individuals[i].get_fitness() == target {
                return true;
            }
            i += 1;
        }
        false
    } else {
        false
    }
}

/// Recomputes every individual's fitness and reduces a best individual
/// over the population: the largest score under Maximization, the
/// smallest otherwise.  The pairwise reduction breaks ties toward its
/// first argument under Maximization and toward its second otherwise, so
/// the returned best carries the first attaining member's dna under
/// Maximization and the last attaining member's otherwise.
fn population_fitness_calculation<U: ChromosomeT>(
    individuals: &mut Vec<U>,
    configuration: GaConfiguration,
) -> (r: U)
    requires
        old(individuals)@.len() >= 1,
        forall|i: int|
            0 <= i < old(individuals)@.len() ==> (#[trigger] old(individuals)@[i]).dna_view().len() >= 1,
    ensures
        final(individuals)@.len() == old(individuals)@.len(),
        forall|i: int|
            0 <= i < old(individuals)@.len() ==> (#[trigger] final(individuals)@[i]).dna_view()
                == old(individuals)@[i].dna_view() && final(individuals)@[i].age_view() == old(individuals)@[i].age_view(),
        forall|i: int|
            0 <= i < old(individuals)@.len() ==> (#[trigger] final(individuals)@[i]).fitness_view()
                == (U::fitness_function())(final(individuals)@[i].dna_view()),
        exists|j: int|
            0 <= j < final(individuals)@.len() && r.dna_view() == (#[trigger] final(individuals)@[j]).dna_view() && r.fitness_view() == final(individuals)@[j].fitness_view() && (
            configuration.limit_configuration.problem_solving == ProblemSolving::Maximization
                ==> forall|k: int|
                0 <= k < j ==> (#[trigger] final(individuals)@[k]).fitness_view()
                    < r.fitness_view()) && (configuration.limit_configuration.problem_solving
                != ProblemSolving::Maximization ==> forall|k: int|
                j < k < final(individuals)@.len() ==> (
                #[trigger] final(individuals)@[k]).fitness_view() > r.fitness_view()),
        configuration.limit_configuration.problem_solving == ProblemSolving::Maximization
            ==> forall|i: int|
            0 <= i < final(individuals)@.len() ==> r.fitness_view() >= (#[trigger] final(individuals)@[i]).fitness_view(),
        configuration.limit_configuration.problem_solving != ProblemSolving::Maximization
            ==> forall|i: int|
            0 <= i < final(individuals)@.len() ==> r.fitness_view() <= (#[trigger] final(individuals)@[i]).fitness_view(),
        r.age_view() == 0,
{
    let n = individuals.len();
    let mut best_individual = U::new();
    let mut i: usize = 0;
    while i < n
        invariant
            i <= n,
            n >= 1,
            n == individuals@.len(),
            n == old(individuals)@.len(),
            forall|j: int|
                0 <= j < n ==> (#[trigger] individuals@[j]).dna_view() == old(individuals)@[j].dna_view() && individuals@[j].age_view() == old(individuals)@[j].age_view(),
            forall|j: int|
                i <= j < n ==> (#[trigger] individuals@[j]).fitness_view() == old(individuals)@[j].fitness_view(),
            forall|j: int|
                0 <= j < i ==> (#[trigger] individuals@[j]).fitness_view() == (
                U::fitness_function())(individuals@[j].dna_view()),
            forall|j: int|
                0 <= j < n ==> (#[trigger] individuals@[j]).dna_view().len() >= 1,
            i == 0 ==> best_individual.dna_view().len() == 0,
            i >= 1 ==> best_individual.dna_view().len() >= 1,
            i >= 1 ==> exists|j: int|
                0 <= j < i && best_individual.dna_view() == (#[trigger] individuals@[j]).dna_view()
                    && best_individual.fitness_view() == individuals@[j].fitness_view() && (
                configuration.limit_configuration.problem_solving == ProblemSolving::Maximization
                    ==> forall|k: int|
                    0 <= k < j ==> (#[trigger] individuals@[k]).fitness_view()
                        < best_individual.fitness_view()) && (
                configuration.limit_configuration.problem_solving != ProblemSolving::Maximization
                    ==> forall|k: int|
                    j < k < i ==> (#[trigger] individuals@[k]).fitness_view()
                        > best_individual.fitness_view()),
            configuration.limit_configuration.problem_solving == ProblemSolving::Maximization
                ==> forall|j: int|
                0 <= j < i ==> best_individual.fitness_view() >= (
                #[trigger] individuals@[j]).fitness_view(),
            configuration.limit_configuration.problem_solving != ProblemSolving::Maximization
                ==> forall|j: int|
                0 <= j < i ==> best_individual.fitness_view() <= (
                #[trigger] individuals@[j]).fitness_view(),
            best_individual.age_view() == 0,
        decreases n - i,
    {
        let ghost pre = individuals@;
        let ghost pre_best_dna = best_individual.dna_view();
        let ghost pre_best_fit = best_individual.fitness_view();
        let mut x = individuals.remove(i);
        x.calculate_fitness();
        individuals.insert(i, x);
        proof {
            assert(individuals@ =~= pre.update(i as int, individuals@[i as int]));
        }

        if best_individual.get_dna().len() != 0 {
            best_individual = get_best_individual(
                &best_individual,
                &individuals[i],
                configuration.limit_configuration.problem_solving,
            );
        } else {
            best_individual.set_dna(individuals[i].get_dna());
            best_individual.set_fitness(individuals[i].get_fitness());
        }
        proof {
            let maximizing = configuration.limit_configuration.problem_solving
                == ProblemSolving::Maximization;
            if i >= 1 {
                let j0 = choose|j: int|
                    0 <= j < i && pre_best_dna == (#[trigger] pre[j]).dna_view() && pre_best_fit
                        == pre[j].fitness_view() && (maximizing ==> forall|k: int|
                        0 <= k < j ==> (#[trigger] pre[k]).fitness_view() < pre_best_fit) && (
                    !maximizing ==> forall|k: int|
                        j < k < i ==> (#[trigger] pre[k]).fitness_view() > pre_best_fit);
                assert(individuals@[j0] == pre[j0]);
                assert(forall|k: int| 0 <= k < i ==> individuals@[k] == pre[k]);
                let cand_dna = individuals@[i as int].dna_view();
                let cand_fit = individuals@[i as int].fitness_view();
                if maximizing {
                    if best_individual.dna_view() == pre_best_dna
                        && best_individual.fitness_view() == pre_best_fit {
                        // The running best survived the tie rule: its
                        // earlier strict dominance still stands.
                        assert(best_individual.dna_view() == (individuals@[j0]).dna_view()
                            && best_individual.fitness_view()
                            == individuals@[j0].fitness_view());
                    } else {
                        // A strictly fitter member took over.
                        assert(cand_fit > pre_best_fit);
                        assert(best_individual.dna_view() == (individuals@[i as int]).dna_view()
                            && best_individual.fitness_view()
                            == individuals@[i as int].fitness_view());
                        assert(forall|k: int|
                            0 <= k < i ==> (#[trigger] individuals@[k]).fitness_view()
                                < cand_fit);
                    }
                } else {
                    if best_individual.dna_view() == cand_dna && best_individual.fitness_view()
                        == cand_fit {
                        // The new member is at or below the running best
                        // and takes over, becoming the latest attainer.
                        assert(best_individual.dna_view() == (individuals@[i as int]).dna_view()
                            && best_individual.fitness_view()
                            == individuals@[i as int].fitness_view());
                    } else {
                        // The running best stayed: the new member is
                        // strictly above it.
                        assert(cand_fit > pre_best_fit);
                        assert(best_individual.dna_view() == (individuals@[j0]).dna_view()
                            && best_individual.fitness_view()
                            == individuals@[j0].fitness_view());
                        assert(forall|k: int|
                            j0 < k < i + 1 ==> (#[trigger] individuals@[k]).fitness_view()
                                > best_individual.fitness_view());
                    }
                }
            } else {
                assert(best_individual.dna_view() == (individuals@[0]).dna_view()
                    && best_individual.fitness_view() == individuals@[0].fitness_view());
            }
        }
        i += 1;
    }
    best_individual
}

/// Reproduction: one pass over the mating map.  Each couple rolls a
/// probability to decide whether to cross over (else the offspring are the
/// unmodified parents), each child independently rolls mutation, both
/// children are stamped with the generation's age and their fitness is
/// recomputed.  Two children come back per couple, and the mating map is
/// consumed.
fn parent_crossover<U: ChromosomeT>(
    parents: &mut Vec<(usize, usize)>,
    individuals: &Vec<U>,
    configuration: &GaConfiguration,
    age: i32,
    f_max: i64,
    f_avg: i64,
) -> (r: Vec<U>)
    requires
        selection::mating_in_range(old(parents)@, individuals@.len() as int),
        reproduction_config_ok(*configuration),
        exists|len: int|
            #[trigger] all_dna_len(individuals@, len) && len >= 1 && (
            configuration.mutation_configuration.method == Mutation::Scramble ==> len >= 2),
    ensures
        r@.len() == 2 * old(parents)@.len(),
        final(parents)@.len() == 0,
        forall|len: int|
            #[trigger] all_dna_len(individuals@, len) && old(parents)@.len() >= 1 ==> all_dna_len(
                r@,
                len,
            ),
        forall|k: int| 0 <= k < r@.len() ==> (#[trigger] r@[k]).age_view() == age,
        forall|k: int|
            0 <= k < r@.len() ==> (#[trigger] r@[k]).fitness_view() == (U::fitness_function())(
                r@[k].dna_view(),
            ),
        forall|k: int|
            #![trigger old(parents)@[k]]
            0 <= k < old(parents)@.len() ==> derived_couple::<U>(
                *configuration,
                individuals@[(old(parents)@[k]).0 as int].dna_view(),
                individuals@[(old(parents)@[k]).1 as int].dna_view(),
                r@[2 * k].dna_view(),
                r@[2 * k + 1].dna_view(),
            ),
{
    let ghost input_parents = parents@;
    let mut offspring: Vec<U> = Vec::new();

    // The static probability knobs, resolved once: a missing bound means
    // certainty, a non-adaptive run uses its configured bound, and only
    // adaptive mode computes per-pair probabilities below.
    let crossover_probability_config: Option<u32> =
        if configuration.crossover_configuration.probability_max.is_none() {
        Some(PROBABILITY_SCALE)
    } else if !configuration.adaptive_ga {
        Some(configuration.crossover_configuration.probability_max.unwrap())
    } else {
        None
    };

    let mutation_probability_config: Option<u32> =
        if configuration.mutation_configuration.probability_max.is_none() {
        Some(PROBABILITY_SCALE)
    } else if !configuration.adaptive_ga {
        Some(configuration.mutation_configuration.probability_max.unwrap())
    } else {
        None
    };

    let couples = parents.len();
    // The pre-mutation dnas of every couple's two children, kept as proof
    // witnesses for the derivation clause.
    let ghost mut pre_dnas_1: Seq<Seq<U::Gene>> = Seq::empty();
    let ghost mut pre_dnas_2: Seq<Seq<U::Gene>> = Seq::empty();
    let mut c: usize = 0;
    while c < couples
        invariant
            c <= couples,
            couples == parents@.len(),
            parents@ == input_parents,
            selection::mating_in_range(parents@, individuals@.len() as int),
            reproduction_config_ok(*configuration),
            exists|len: int|
                #[trigger] all_dna_len(individuals@, len) && len >= 1 && (
                configuration.mutation_configuration.method == Mutation::Scramble ==> len >= 2),
            crossover_probability_config is None ==> configuration.adaptive_ga
                && configuration.crossover_configuration.probability_max.is_some(),
            crossover_probability_config matches Some(p) ==> p <= PROBABILITY_SCALE,
            mutation_probability_config is None ==> configuration.adaptive_ga
                && configuration.mutation_configuration.probability_max.is_some(),
            mutation_probability_config matches Some(p) ==> p <= PROBABILITY_SCALE,
            offspring@.len() == 2 * c,
            forall|len: int|
                #[trigger] all_dna_len(individuals@, len) ==> all_dna_len(offspring@, len),
            forall|k: int| 0 <= k < offspring@.len() ==> (#[trigger] offspring@[k]).age_view()
                == age,
            forall|k: int|
                0 <= k < offspring@.len() ==> (#[trigger] offspring@[k]).fitness_view() == (
                U::fitness_function())(offspring@[k].dna_view()),
            pre_dnas_1.len() == c,
            pre_dnas_2.len() == c,
            forall|k: int|
                #![trigger parents@[k]]
                0 <= k < c ==> crossed_from::<U>(
                    *configuration,
                    individuals@[(parents@[k]).0 as int].dna_view(),
                    individuals@[(parents@[k]).1 as int].dna_view(),
                    pre_dnas_1[k],
                    pre_dnas_2[k],
                ) && mutated_from::<U>(*configuration, pre_dnas_1[k], offspring@[2 * k].dna_view())
                    && mutated_from::<U>(
                    *configuration,
                    pre_dnas_2[k],
                    offspring@[2 * k + 1].dna_view(),
                ),
        decreases couples - c,
    {
        let ghost glen = choose|len: int|
            #[trigger] all_dna_len(individuals@, len) && len >= 1 && (
            configuration.mutation_configuration.method == Mutation::Scramble ==> len >= 2);
        let (key, value) = (parents[c].0, parents[c].1);
        let parent_1 = replicate(&individuals[key]);
        let parent_2 = replicate(&individuals[value]);

        // Crossover when the random roll is at or below the probability.
        let crossover_probability = rand_below(PROBABILITY_SCALE as usize);
        let crossover_probability_value: u32 = match crossover_probability_config {
            Some(p) => p,
            None => {
                // Adaptive mode; the running statistics can be stale
                // against freshly recomputed scores, so fall back to the
                // lower bound when they are incoherent for this pair.
                let f_1 = parent_1.get_fitness();
                let f_2 = parent_2.get_fitness();
                let larger_f = if f_1 > f_2 {
                    f_1
                } else {
                    f_2
                };
                if f_1 <= f_max && f_2 <= f_max && f_avg <= f_max && (larger_f < f_avg || f_avg
                    < f_max) {
                    crossover::aga_probability(
                        &parent_1,
                        &parent_2,
                        f_max,
                        f_avg,
                        configuration.crossover_configuration.probability_max.unwrap(),
                        configuration.crossover_configuration.probability_min.unwrap(),
                    )
                } else {
                    configuration.crossover_configuration.probability_min.unwrap()
                }
            },
        };

        let mut mutation_probability = rand_below(PROBABILITY_SCALE as usize);
        let mutation_probability_value: u32 = match mutation_probability_config {
            Some(p) => p,
            None => mutation::aga_probability(
                &parent_1,
                &parent_2,
                f_avg,
                configuration.mutation_configuration.probability_max.unwrap(),
                configuration.mutation_configuration.probability_min.unwrap(),
            ),
        };

        let mut child_1: U;
        let mut child_2: U;

        if crossover_probability <= crossover_probability_value as usize {
            let crossed = crossover::factory(&parent_1, &parent_2, configuration.crossover_configuration);
            match crossed {
                Some(mut offspring_t) => {
                    child_1 = offspring_t.pop().unwrap();
                    child_2 = offspring_t.pop().unwrap();
                },
                None => {
                    // A cycle that cannot be closed is reported, not
                    // fatal: the couple passes through unmodified.
                    child_1 = parent_1;
                    child_2 = parent_2;
                },
            }
        } else {
            child_1 = parent_1;
            child_2 = parent_2;
        }

        let ghost d_1 = child_1.dna_view();
        let ghost d_2 = child_2.dna_view();
        proof {
            assert(crossed_from::<U>(
                *configuration,
                individuals@[(parents@[c as int]).0 as int].dna_view(),
                individuals@[(parents@[c as int]).1 as int].dna_view(),
                d_1,
                d_2,
            ));
        }

        if mutation_probability < mutation_probability_value as usize {
            mutation::factory(configuration.mutation_configuration.method, &mut child_1);
        }

        mutation_probability = rand_below(PROBABILITY_SCALE as usize);
        if mutation_probability <= mutation_probability_value as usize {
            mutation::factory(configuration.mutation_configuration.method, &mut child_2);
        }

        // Recompute both children's fitness and stamp the generation age.
        child_1.calculate_fitness();
        child_2.calculate_fitness();

        child_1.set_age(age);
        child_2.set_age(age);

        proof {
            assert(child_1.dna_view().len() == glen);
            assert(child_2.dna_view().len() == glen);
            assert(mutated_from::<U>(*configuration, d_1, child_1.dna_view()));
            assert(mutated_from::<U>(*configuration, d_2, child_2.dna_view()));
        }
        let ghost pre_offspring = offspring@;
        offspring.push(child_1);
        offspring.push(child_2);
        proof {
            pre_dnas_1 = pre_dnas_1.push(d_1);
            pre_dnas_2 = pre_dnas_2.push(d_2);
            assert(forall|k: int|
                0 <= k < pre_offspring.len() ==> #[trigger] offspring@[k] == pre_offspring[k]);
            assert(offspring@[2 * (c as int)] == child_1);
            assert(offspring@[2 * (c as int) + 1] == child_2);
        }
        c += 1;
    }
    proof {
        assert forall|k: int|
            #![trigger old(parents)@[k]]
            0 <= k < old(parents)@.len() implies derived_couple::<U>(
            *configuration,
            individuals@[(old(parents)@[k]).0 as int].dna_view(),
            individuals@[(old(parents)@[k]).1 as int].dna_view(),
            offspring@[2 * k].dna_view(),
            offspring@[2 * k + 1].dna_view(),
        ) by {
            assert(crossed_from::<U>(
                *configuration,
                individuals@[(old(parents)@[k]).0 as int].dna_view(),
                individuals@[(old(parents)@[k]).1 as int].dna_view(),
                pre_dnas_1[k],
                pre_dnas_2[k],
            ) && mutated_from::<U>(*configuration, pre_dnas_1[k], offspring@[2 * k].dna_view())
                && mutated_from::<U>(*configuration, pre_dnas_2[k], offspring@[2 * k + 1].dna_view()));
        }
    }
    parents.clear();
    offspring
}

/// Decides at run time whether the configured selection operator's
/// preconditions hold for the current population and its scores; a false
/// answer makes the generation skip selection rather than fail.
fn selection_ready<U: ChromosomeT>(
    individuals: &Vec<U>,
    configuration: crate::configuration::SelectionConfiguration,
    number_of_threads: i32,
) -> (r: bool)
    requires
        number_of_threads >= 1,
        configuration.number_of_couples >= 1,
    ensures
        r == (match configuration.method {
            Selection::Random => true,
            Selection::RouletteWheel | Selection::StochasticUniversalSampling => (forall|i: int|
                0 <= i < individuals@.len() ==> (#[trigger] individuals@[i]).fitness_view() >= 0)
                && 0 < sum_fitness(individuals@) <= i64::MAX,
            Selection::Tournament => if number_of_threads == 1 {
                2 * (configuration.number_of_couples as int) <= individuals@.len()
            } else {
                configuration.number_of_couples >= 2
            },
        }),
{
    match configuration.method {
        Selection::Random => true,
        Selection::RouletteWheel => fitness_proportionate_ready(individuals),
        Selection::StochasticUniversalSampling => fitness_proportionate_ready(individuals),
        Selection::Tournament => {
            if number_of_threads == 1 {
                2 * (configuration.number_of_couples as usize) <= individuals.len()
            } else {
                configuration.number_of_couples >= 2
            }
        },
    }
}

/// True exactly when every score is nonnegative and the fitness total is
/// positive and within range, as the roulette-wheel curve needs.
fn fitness_proportionate_ready<U: ChromosomeT>(individuals: &Vec<U>) -> (r: bool)
    ensures
        r == ((forall|i: int|
            0 <= i < individuals@.len() ==> (#[trigger] individuals@[i]).fitness_view() >= 0) && 0
            < sum_fitness(individuals@) <= i64::MAX),
{
    let n = individuals.len();
    let mut total: i128 = 0;
    let mut i: usize = 0;
    while i < n
        invariant
            i <= n,
            n == individuals@.len(),
            total == sum_fitness(individuals@.take(i as int)),
            0 <= total,
            total <= (i as int) * (i64::MAX as int),
            forall|j: int| 0 <= j < i ==> (#[trigger] individuals@[j]).fitness_view() >= 0,
        decreases n - i,
    {
        let f = individuals[i].get_fitness();
        if f < 0 {
            return false;
        }
        proof {
            assert(individuals@.take(i + 1).drop_last() =~= individuals@.take(i as int));
            assert(individuals@.take(i + 1).last() == individuals@[i as int]);
            assert((i as int) * (i64::MAX as int) + (i64::MAX as int) == (i + 1) * (
            i64::MAX as int)) by (nonlinear_arith);
        }
        total = total + (f as i128);
        i += 1;
    }
    proof {
        assert(individuals@.take(n as int) =~= individuals@);
    }
    total > 0 && total <= i64::MAX as i128
}

/// What a generated individual's dna promises: identities renumbered by
/// position when unique ids were asked for; otherwise every gene drawn
/// from the allele pool — as a sub-multiset of it when repetition is off.
pub open spec fn initialized_dna<U: ChromosomeT>(
    cfg: GaConfiguration,
    alleles: Seq<U::Gene>,
    dna: Seq<U::Gene>,
) -> bool {
    &&& cfg.limit_configuration.needs_unique_ids ==> forall|j: int|
        0 <= j < dna.len() ==> (#[trigger] dna[j]).id_view() == j
    &&& !cfg.limit_configuration.needs_unique_ids
        && cfg.limit_configuration.alleles_can_be_repeated ==> forall|j: int|
        0 <= j < dna.len() ==> alleles.contains(#[trigger] dna[j])
    &&& !cfg.limit_configuration.needs_unique_ids
        && !cfg.limit_configuration.alleles_can_be_repeated ==> dna.to_multiset().subset_of(
        alleles.to_multiset(),
    )
}

/// The dna length a run works at: the configured genes per individual
/// when the population is generated, else the first individual's.
pub open spec fn run_dna_len<U: ChromosomeT>(ga: Ga<U>) -> int {
    if ga.random_initialization {
        ga.configuration.limit_configuration.genes_per_individual as int
    } else if ga.population.individuals@.len() > 0 {
        ga.population.individuals@[0].dna_view().len() as int
    } else {
        0
    }
}

/// What a run needs of its configuration and starting state; the
/// condition checkers decide the same conditions at run time.
pub open spec fn run_ready<U: ChromosomeT>(ga: Ga<U>) -> bool {
    let cfg = ga.configuration;
    &&& cfg.number_of_threads >= 1
    &&& cfg.selection_configuration.number_of_couples >= 1
    &&& reproduction_config_ok(cfg)
    &&& (cfg.limit_configuration.problem_solving == ProblemSolving::FixedFitness
        ==> cfg.limit_configuration.fitness_target.is_some())
    &&& run_dna_len(ga) >= 1
    &&& (cfg.mutation_configuration.method == Mutation::Scramble ==> run_dna_len(ga) >= 2)
    &&& if ga.random_initialization {
        &&& cfg.limit_configuration.population_size >= 1
        &&& ga.alleles@.len() >= 1
        &&& (!cfg.limit_configuration.alleles_can_be_repeated
            ==> cfg.limit_configuration.genes_per_individual <= ga.alleles@.len())
        &&& 4 * (cfg.limit_configuration.population_size as int) <= usize::MAX
    } else {
        &&& ga.population.individuals@.len() >= 1
        &&& same_dna_length_spec(ga.population.individuals@)
        &&& 4 * ga.population.individuals@.len() <= usize::MAX
    }
}

/// What a finished run guarantees: the population holds exactly as many
/// individuals as the replacement target (the size it started at, or the
/// generated size), every individual still carries the run's dna length
/// and is scored by the fitness function of its own dna, the returned
/// accumulator holds the single final best (generation -1) or one
/// correctly-tagged snapshot per executed generation (as many as the cap,
/// or fewer only with the fitness limit reached), and its last entry
/// scores at least (Maximization) or at most (otherwise) every individual
/// left in the population.
pub open spec fn run_result_ok<U: ChromosomeT>(pre: Ga<U>, post: Ga<U>, r: Population<U>) -> bool {
    let cfg = pre.configuration;
    let n0 = if pre.random_initialization {
        cfg.limit_configuration.population_size as int
    } else {
        pre.population.individuals@.len() as int
    };
    let len = run_dna_len(pre);
    let cap = if cfg.limit_configuration.max_generations >= 0 {
        cfg.limit_configuration.max_generations as int
    } else {
        0int
    };
    &&& post.population.individuals@.len() == n0
    &&& all_dna_len(post.population.individuals@, len)
    &&& all_dna_len(r.individuals@, len)
    &&& forall|i: int|
        0 <= i < post.population.individuals@.len() ==> (
        #[trigger] post.population.individuals@[i]).fitness_view() == (U::fitness_function())(
            post.population.individuals@[i].dna_view(),
        )
    &&& forall|i: int|
        0 <= i < r.individuals@.len() ==> (#[trigger] r.individuals@[i]).fitness_view() == (
        U::fitness_function())(r.individuals@[i].dna_view())
    &&& (!cfg.limit_configuration.get_best_individual_by_generation ==> r.individuals@.len() == 1
        && r.generation_numbers@.len() == 1 && r.generation_numbers@[0] == -1)
    &&& (cfg.limit_configuration.get_best_individual_by_generation ==> r.individuals@.len() <= cap
        && r.individuals@.len() == r.generation_numbers@.len() && (forall|k: int|
        0 <= k < r.generation_numbers@.len() ==> #[trigger] r.generation_numbers@[k] == k) && (
    r.individuals@.len() == cap || (r.individuals@.len() >= 1 && limit_reached_spec(
        cfg.limit_configuration,
        post.population.individuals@,
    ))))
    &&& (r.individuals@.len() >= 1 ==> {
        let best = r.individuals@[r.individuals@.len() - 1];
        &&& (cfg.limit_configuration.problem_solving == ProblemSolving::Maximization ==> forall|
            i: int,
        |
            0 <= i < post.population.individuals@.len() ==> best.fitness_view() >= (
            #[trigger] post.population.individuals@[i]).fitness_view())
        &&& (cfg.limit_configuration.problem_solving != ProblemSolving::Maximization ==> forall|
            i: int,
        |
            0 <= i < post.population.individuals@.len() ==> best.fitness_view() <= (
            #[trigger] post.population.individuals@[i]).fitness_view())
    })
}

impl<U: ChromosomeT> Default for Ga<U> {
    /// An empty run: default configuration, no alleles, empty population,
    /// to be generated at random.
    fn default() -> (r: Self)
        ensures
            r.configuration == crate::configuration::default_configuration(),
            r.alleles@ =~= Seq::<U::Gene>::empty(),
            r.population.individuals@ =~= Seq::<U>::empty(),
            r.random_initialization,
            r.default_population,
    {
        Ga {
            configuration: GaConfiguration::default(),
            population: Population::new_empty(),
            alleles: Vec::new(),
            random_initialization: true,
            default_population: true,
        }
    }
}

impl<U: ChromosomeT> ConfigurationT for Ga<U> {
    open spec fn configuration_view(&self) -> GaConfiguration {
        self.configuration
    }

    fn new() -> Self {
        Self::default()
    }

    fn with_adaptive_ga(&mut self, adaptive_ga: bool) -> &mut Self {
        self.configuration.with_adaptive_ga(adaptive_ga);
        self
    }

    fn with_threads(&mut self, number_of_threads: i32) -> &mut Self {
        self.configuration.with_threads(number_of_threads);
        self
    }

    fn with_logs(&mut self, log_level: LogLevel) -> &mut Self {
        self.configuration.with_logs(log_level);
        self
    }

    fn with_survivor_method(&mut self, method: Survivor) -> &mut Self {
        self.configuration.with_survivor_method(method);
        self
    }

    fn with_problem_solving(&mut self, problem_solving: ProblemSolving) -> &mut Self {
        self.configuration.with_problem_solving(problem_solving);
        self
    }

    fn with_max_generations(&mut self, max_generations: i32) -> &mut Self {
        self.configuration.with_max_generations(max_generations);
        self
    }

    fn with_fitness_target(&mut self, fitness_target: i64) -> &mut Self {
        self.configuration.with_fitness_target(fitness_target);
        self
    }

    fn with_best_individual_by_generation(&mut self, best_individual_by_generation: bool) -> &mut Self {
        self.configuration.with_best_individual_by_generation(best_individual_by_generation);
        self
    }

    fn with_population_size(&mut self, population_size: i32) -> &mut Self {
        self.configuration.with_population_size(population_size);
        self
    }

    fn with_genes_per_individual(&mut self, genes_per_individual: i32) -> &mut Self {
        self.configuration.with_genes_per_individual(genes_per_individual);
        self
    }

    fn with_needs_unique_ids(&mut self, needs_unique_ids: bool) -> &mut Self {
        self.configuration.with_needs_unique_ids(needs_unique_ids);
        self
    }

    fn with_alleles_can_be_repeated(&mut self, alleles_can_be_repeated: bool) -> &mut Self {
        self.configuration.with_alleles_can_be_repeated(alleles_can_be_repeated);
        self
    }

    fn with_number_of_couples(&mut self, number_of_couples: i32) -> &mut Self {
        self.configuration.with_number_of_couples(number_of_couples);
        self
    }

    fn with_selection_method(&mut self, selection_method: Selection) -> &mut Self {
        self.configuration.with_selection_method(selection_method);
        self
    }

    fn with_crossover_number_of_points(&mut self, number_of_points: i32) -> &mut Self {
        self.configuration.with_crossover_number_of_points(number_of_points);
        self
    }

    fn with_crossover_probability_max(&mut self, probability_max: u32) -> &mut Self {
        self.configuration.with_crossover_probability_max(probability_max);
        self
    }

    fn with_crossover_probability_min(&mut self, probability_min: u32) -> &mut Self {
        self.configuration.with_crossover_probability_min(probability_min);
        self
    }

    fn with_crossover_method(&mut self, method: Crossover) -> &mut Self {
        self.configuration.with_crossover_method(method);
        self
    }

    fn with_mutation_probability_max(&mut self, probability_max: u32) -> &mut Self {
        self.configuration.with_mutation_probability_max(probability_max);
        self
    }

    fn with_mutation_probability_min(&mut self, probability_min: u32) -> &mut Self {
        self.configuration.with_mutation_probability_min(probability_min);
        self
    }

    fn with_mutation_method(&mut self, method: Mutation) -> &mut Self {
        self.configuration.with_mutation_method(method);
        self
    }
}

impl<U: ChromosomeT> Ga<U> {
    /// Sets the allele pool the generated population draws from.
    pub fn with_alleles(&mut self, alleles: Vec<U::Gene>) -> (r: &mut Self)
        ensures
            *final(self) == *final(r),
            r.alleles == alleles,
            r.configuration == old(self).configuration,
            r.population == old(self).population,
            r.random_initialization == old(self).random_initialization,
            r.default_population == old(self).default_population,
    {
        self.alleles = alleles;
        self
    }

    /// Sets the starting population; a zero couples count defaults to
    /// half the population size.
    pub fn with_population(&mut self, population: Population<U>) -> (r: &mut Self)
        requires
            population.individuals@.len() / 2 <= i32::MAX,
        ensures
            *final(self) == *final(r),
            r.population == population,
            !r.random_initialization,
            !r.default_population,
            r.alleles == old(self).alleles,
            old(self).configuration.selection_configuration.number_of_couples != 0
                ==> r.configuration == old(self).configuration,
            old(self).configuration.selection_configuration.number_of_couples == 0
                ==> r.configuration == (GaConfiguration {
                selection_configuration: crate::configuration::SelectionConfiguration {
                    number_of_couples: (population.individuals@.len() / 2) as i32,
                    ..old(self).configuration.selection_configuration
                },
                ..old(self).configuration
            }),
    {
        self.population = population;
        self.random_initialization = false;
        self.default_population = false;

        // A missing couples count defaults to half the population.
        if self.configuration.selection_configuration.number_of_couples == 0 {
            self.configuration.selection_configuration.number_of_couples = (self.population.size()
                / 2) as i32;
        }
        self
    }

    /// Generates the starting population at random: each worker's share
    /// of the configured size is drawn gene by gene from the allele pool
    /// and evaluated, the remainder of the division falls to the last
    /// worker, and the shares are joined: exactly the configured number
    /// of individuals comes back.
    pub fn random_initialization(&mut self) -> (r: Population<U>)
        requires
            old(self).configuration.number_of_threads >= 1,
            old(self).configuration.limit_configuration.genes_per_individual >= 1,
            old(self).configuration.limit_configuration.population_size >= 1,
            old(self).alleles@.len() >= 1,
            !old(self).configuration.limit_configuration.alleles_can_be_repeated ==> old(
                self,
            ).configuration.limit_configuration.genes_per_individual <= old(self).alleles@.len(),
        ensures
            *final(self) == *old(self),
            r.individuals@.len()
                == old(self).configuration.limit_configuration.population_size as int,
            all_dna_len(
                r.individuals@,
                old(self).configuration.limit_configuration.genes_per_individual as int,
            ),
            forall|i: int|
                0 <= i < r.individuals@.len() ==> (#[trigger] r.individuals@[i]).age_view() == 0,
            forall|i: int|
                0 <= i < r.individuals@.len() ==> initialized_dna::<U>(
                    old(self).configuration,
                    old(self).alleles@,
                    (#[trigger] r.individuals@[i]).dna_view(),
                ),
            forall|i: int|
                0 <= i < r.individuals@.len() ==> (#[trigger] r.individuals@[i]).fitness_view()
                    == (U::fitness_function())(r.individuals@[i].dna_view()),
            r.generation_numbers@.len() == 0,
            r.f_avg == 0,
            r.f_max == 0,
    {
        let number_of_threads = self.configuration.number_of_threads;
        let population_size = self.configuration.limit_configuration.population_size;
        let individuals_per_thread: i32 = population_size / number_of_threads;
        let remainder: i32 = population_size % number_of_threads;
        let ghost genes = self.configuration.limit_configuration.genes_per_individual as int;
        proof {
            vstd::arithmetic::div_mod::lemma_fundamental_div_mod(
                population_size as int,
                number_of_threads as int,
            );
        }

        let mut individuals: Vec<U> = Vec::new();

        let mut t: i32 = 0;
        while t < number_of_threads
            invariant
                0 <= t <= number_of_threads,
                *self == *old(self),
                number_of_threads == self.configuration.number_of_threads,
                population_size == self.configuration.limit_configuration.population_size,
                population_size >= 1,
                individuals_per_thread == population_size as int / number_of_threads as int,
                remainder == population_size as int % number_of_threads as int,
                0 <= individuals_per_thread,
                0 <= remainder,
                population_size as int == (number_of_threads as int) * (
                individuals_per_thread as int) + remainder as int,
                genes == self.configuration.limit_configuration.genes_per_individual as int,
                genes >= 1,
                self.alleles@.len() >= 1,
                !self.configuration.limit_configuration.alleles_can_be_repeated
                    ==> self.configuration.limit_configuration.genes_per_individual
                    <= self.alleles@.len(),
                individuals@.len() == (t as int) * (individuals_per_thread as int) + (if t
                    == number_of_threads {
                    remainder as int
                } else {
                    0int
                }),
                all_dna_len(individuals@, genes),
                forall|i: int|
                    0 <= i < individuals@.len() ==> (#[trigger] individuals@[i]).age_view() == 0,
                forall|i: int|
                    0 <= i < individuals@.len() ==> initialized_dna::<U>(
                        self.configuration,
                        self.alleles@,
                        (#[trigger] individuals@[i]).dna_view(),
                    ),
                forall|i: int|
                    0 <= i < individuals@.len() ==> (#[trigger] individuals@[i]).fitness_view()
                        == (U::fitness_function())(individuals@[i].dna_view()),
            decreases number_of_threads - t,
        {
            // The last worker also takes the remainder of the division.
            proof {
                assert((number_of_threads as int) * (individuals_per_thread as int)
                    >= individuals_per_thread as int) by (nonlinear_arith)
                    requires
                        number_of_threads >= 1,
                        individuals_per_thread >= 0,
                ;
            }
            let share: i32 = if t == number_of_threads - 1 {
                individuals_per_thread + remainder
            } else {
                individuals_per_thread
            };
            let mut k: i32 = 0;
            while k < share
                invariant
                    0 <= k <= share,
                    *self == *old(self),
                    genes == self.configuration.limit_configuration.genes_per_individual as int,
                    genes >= 1,
                    self.alleles@.len() >= 1,
                    !self.configuration.limit_configuration.alleles_can_be_repeated
                        ==> self.configuration.limit_configuration.genes_per_individual
                        <= self.alleles@.len(),
                    individuals@.len() == (t as int) * (individuals_per_thread as int) + (
                    k as int),
                    all_dna_len(individuals@, genes),
                    forall|i: int|
                        0 <= i < individuals@.len() ==> (#[trigger] individuals@[i]).age_view()
                            == 0,
                    forall|i: int|
                        0 <= i < individuals@.len() ==> initialized_dna::<U>(
                            self.configuration,
                            self.alleles@,
                            (#[trigger] individuals@[i]).dna_view(),
                        ),
                    forall|i: int|
                        0 <= i < individuals@.len() ==> (#[trigger] individuals@[i]).fitness_view()
                            == (U::fitness_function())(individuals@[i].dna_view()),
                decreases share - k,
            {
                let mut individual = U::new();

                // Draws the dna at random.
                if self.configuration.limit_configuration.alleles_can_be_repeated {
                    let dna_individual = crate::initializers::generic_random_initialization::<
                        U,
                    >(
                        self.configuration.limit_configuration.genes_per_individual,
                        Some(self.alleles.as_slice()),
                        Some(self.configuration.limit_configuration.needs_unique_ids),
                    );
                    individual.set_dna(dna_individual.as_slice());
                } else {
                    let dna_individual =
                        crate::initializers::generic_random_initialization_without_repetitions::<
                        U,
                    >(
                        self.configuration.limit_configuration.genes_per_individual,
                        Some(self.alleles.as_slice()),
                        Some(self.configuration.limit_configuration.needs_unique_ids),
                    );
                    individual.set_dna(dna_individual.as_slice());
                }

                // Stamps the age and evaluates the fresh individual.
                individual.set_age(0);
                individual.calculate_fitness();

                individuals.push(individual);
                k += 1;
            }
            proof {
                assert((t as int) * (individuals_per_thread as int) + (individuals_per_thread as int)
                    == (t + 1) * (individuals_per_thread as int)) by (nonlinear_arith);
            }
            t += 1;
        }

        Population::new(individuals)
    }

    /// Runs the generations without a progress callback.
    pub fn run(&mut self) -> (r: Population<U>)
        requires
            run_ready(*old(self)),
        ensures
            run_result_ok(*old(self), *final(self), r),
    {
        // The unreachable branch only gives the absent callback a
        // concrete closure type to run under.
        let no_callback = if false {
            Some(|_g: &i32, _p: &Population<U>, _t: TerminationCause| ())
        } else {
            None
        };
        self.run_with_callback(no_callback, 0)
    }

    /// Runs the generations, invoking `callback` every
    /// `generations_to_callback` generations and once at termination with
    /// the cause of the stop.
    ///
    /// A generation whose scores cannot drive the configured selection
    /// operator — a zero or out-of-range fitness total for the
    /// fitness-proportionate strategies, or a population too small for
    /// the tournament's couples count — skips selection and contributes
    /// no offspring; the run goes on rather than aborting.
    pub fn run_with_callback<F: Fn(&i32, &Population<U>, TerminationCause) -> ()>(
        &mut self,
        callback: Option<F>,
        generations_to_callback: i32,
    ) -> (r: Population<U>)
        requires
            run_ready(*old(self)),
            callback matches Some(f) ==> forall|args: (&i32, &Population<U>, TerminationCause)|
                #[trigger] f.requires(args),
        ensures
            run_result_ok(*old(self), *final(self), r),
    {
        let ghost pre = *old(self);
        let ghost dna_len = run_dna_len(*old(self));

        // Generate the population when none was supplied.
        if self.random_initialization {
            let tmp_population = self.random_initialization();
            self.with_population(tmp_population);
        }
        let ghost cfg = self.configuration;
        proof {
            assert(self.population.individuals@.len() >= 1);
            assert(all_dna_len(self.population.individuals@, dna_len));
            assert(forall|j: int|
                0 <= j < self.population.individuals@.len() ==> (
                #[trigger] self.population.individuals@[j]).dna_view().len() >= 1);
        }

        // Initialize the adaptive statistics from a full scan.
        if self.configuration.adaptive_ga {
            self.population.aga_init();
        }

        let initial_population_size = self.population.size();
        let mut age: i32 = 0;

        // First fitness pass, and the starting best individual.
        let mut best_individual = population_fitness_calculation(
            &mut self.population.individuals,
            self.configuration,
        );
        let mut best_population: Population<U> = Population::new_empty();

        let mut generation_callback_count: i32 = 0;
        let mut termination_cause = TerminationCause::NotTerminated;

        let max_generations = self.configuration.limit_configuration.max_generations;
        let ghost cap: int = if max_generations >= 0 {
            max_generations as int
        } else {
            0int
        };
        let mut i: i32 = 0;
        while i < max_generations
            invariant
                0 <= i,
                i as int <= cap,
                cap == (if max_generations >= 0 {
                    max_generations as int
                } else {
                    0int
                }),
                age == i,
                self.configuration == cfg,
                cfg == pre.configuration,
                run_ready(pre),
                max_generations == cfg.limit_configuration.max_generations,
                initial_population_size >= 1,
                4 * (initial_population_size as int) <= usize::MAX,
                initial_population_size as int == (if pre.random_initialization {
                    cfg.limit_configuration.population_size as int
                } else {
                    pre.population.individuals@.len() as int
                }),
                self.population.individuals@.len() == initial_population_size,
                dna_len == run_dna_len(pre),
                dna_len >= 1,
                cfg.mutation_configuration.method == Mutation::Scramble ==> dna_len >= 2,
                all_dna_len(self.population.individuals@, dna_len),
                forall|j: int|
                    0 <= j < self.population.individuals@.len() ==> (
                    #[trigger] self.population.individuals@[j]).fitness_view() == (
                    U::fitness_function())(self.population.individuals@[j].dna_view()),
                best_individual.dna_view().len() == dna_len,
                best_individual.fitness_view() == (U::fitness_function())(
                    best_individual.dna_view(),
                ),
                cfg.limit_configuration.problem_solving == ProblemSolving::Maximization
                    ==> forall|j: int|
                    0 <= j < self.population.individuals@.len()
                        ==> best_individual.fitness_view() >= (
                    #[trigger] self.population.individuals@[j]).fitness_view(),
                cfg.limit_configuration.problem_solving != ProblemSolving::Maximization
                    ==> forall|j: int|
                    0 <= j < self.population.individuals@.len()
                        ==> best_individual.fitness_view() <= (
                    #[trigger] self.population.individuals@[j]).fitness_view(),
                cfg.limit_configuration.get_best_individual_by_generation
                    ==> best_population.individuals@.len() == i
                    && best_population.generation_numbers@.len() == i && (forall|k: int|
                    0 <= k < i ==> #[trigger] best_population.generation_numbers@[k] == k),
                !cfg.limit_configuration.get_best_individual_by_generation
                    ==> best_population.individuals@.len() == 0
                    && best_population.generation_numbers@.len() == 0,
                all_dna_len(best_population.individuals@, dna_len),
                forall|k: int|
                    0 <= k < best_population.individuals@.len() ==> (
                    #[trigger] best_population.individuals@[k]).fitness_view() == (
                    U::fitness_function())(best_population.individuals@[k].dna_view()),
                cfg.limit_configuration.get_best_individual_by_generation && i >= 1
                    ==> best_population.individuals@.last().fitness_view()
                    == best_individual.fitness_view(),
                0 <= generation_callback_count <= i,
                callback matches Some(f) ==> forall|
                    args: (&i32, &Population<U>, TerminationCause),
                |
                    #[trigger] f.requires(args),
            ensures
                cfg.limit_configuration.get_best_individual_by_generation
                    ==> best_population.individuals@.len() == cap || (
                best_population.individuals@.len() >= 1 && limit_reached_spec(
                    cfg.limit_configuration,
                    self.population.individuals@,
                )),
            decreases max_generations - i,
        {
            age = age + 1;

            // 1- Parent selection for reproduction; a generation whose
            // scores cannot drive the configured operator skips it.
            let mut parents = if selection_ready(
                &self.population.individuals,
                self.configuration.selection_configuration,
                self.configuration.number_of_threads,
            ) {
                selection::factory(
                    &self.population.individuals,
                    self.configuration.selection_configuration,
                    self.configuration.number_of_threads,
                )
            } else {
                Vec::new()
            };
            proof {
                assert(all_dna_len(self.population.individuals@, dna_len));
            }

            // 2- The offspring.
            let mut offspring = parent_crossover(
                &mut parents,
                &self.population.individuals,
                &self.configuration,
                age,
                self.population.f_max,
                self.population.f_avg,
            );

            // 3- Folds the offspring into the running best individual.
            let mut c: usize = 0;
            while c < offspring.len()
                invariant
                    c <= offspring@.len(),
                    self.configuration == cfg,
                    best_individual.dna_view().len() == dna_len,
                    best_individual.fitness_view() == (U::fitness_function())(
                        best_individual.dna_view(),
                    ),
                    all_dna_len(offspring@, dna_len),
                    all_dna_len(self.population.individuals@, dna_len),
                    forall|j: int|
                        0 <= j < offspring@.len() ==> (#[trigger] offspring@[j]).fitness_view()
                            == (U::fitness_function())(offspring@[j].dna_view()),
                    cfg.limit_configuration.problem_solving == ProblemSolving::Maximization
                        ==> (forall|j: int|
                        0 <= j < self.population.individuals@.len()
                            ==> best_individual.fitness_view() >= (
                        #[trigger] self.population.individuals@[j]).fitness_view()) && (forall|
                        j: int,
                    |
                        0 <= j < c ==> best_individual.fitness_view() >= (
                        #[trigger] offspring@[j]).fitness_view()),
                    cfg.limit_configuration.problem_solving != ProblemSolving::Maximization
                        ==> (forall|j: int|
                        0 <= j < self.population.individuals@.len()
                            ==> best_individual.fitness_view() <= (
                        #[trigger] self.population.individuals@[j]).fitness_view()) && (forall|
                        j: int,
                    |
                        0 <= j < c ==> best_individual.fitness_view() <= (
                        #[trigger] offspring@[j]).fitness_view()),
                decreases offspring@.len() - c,
            {
                best_individual = get_best_individual(
                    &best_individual,
                    &offspring[c],
                    self.configuration.limit_configuration.problem_solving,
                );
                c += 1;
            }

            // 3.1- Snapshot the best individual for this generation.
            if self.configuration.limit_configuration.get_best_individual_by_generation {
                best_population.add_individual_gn(
                    replicate(&best_individual),
                    i,
                    self.configuration.adaptive_ga,
                );
            }

            // 4- Insert the children in the population.
            self.population.add_individuals(&mut offspring, self.configuration.adaptive_ga);

            // 5- Survivor selection trims back to the starting size.
            let ghost pool = self.population.individuals@;
            survivor::factory(
                self.configuration.survivor,
                &mut self.population.individuals,
                initial_population_size,
                self.configuration.limit_configuration,
            );
            proof {
                if cfg.survivor == Survivor::Fitness {
                    crate::operations::survivor::fitness::lemma_fitness_survivors_in_pool(
                        pool,
                        initial_population_size as int,
                        cfg.limit_configuration,
                    );
                } else {
                    crate::operations::survivor::age::lemma_age_survivors_in_pool(
                        pool,
                        initial_population_size as int,
                    );
                }
                assert forall|j: int|
                    0 <= j < self.population.individuals@.len() implies (
                #[trigger] self.population.individuals@[j]).dna_view().len() == dna_len
                    && self.population.individuals@[j].fitness_view() == (U::fitness_function())(
                    self.population.individuals@[j].dna_view(),
                ) && (cfg.limit_configuration.problem_solving == ProblemSolving::Maximization
                    ==> best_individual.fitness_view()
                    >= self.population.individuals@[j].fitness_view()) && (
                cfg.limit_configuration.problem_solving != ProblemSolving::Maximization
                    ==> best_individual.fitness_view()
                    <= self.population.individuals@[j].fitness_view()) by {
                    assert(pool.contains(self.population.individuals@[j]));
                    let w = choose|w: int|
                        0 <= w < pool.len() && pool[w] == self.population.individuals@[j];
                    assert(pool[w].dna_view().len() == dna_len);
                    assert(pool[w].fitness_view() == (U::fitness_function())(pool[w].dna_view()));
                }
            }

            // The cadenced progress callback.
            if let Some(func) = &callback {
                if generation_callback_count + 1 == generations_to_callback {
                    func(&i, &self.population, TerminationCause::NotTerminated);
                    generation_callback_count = 0;
                } else {
                    generation_callback_count = generation_callback_count + 1;
                }
            }

            // 6- Stop early when the fitness limit has been reached.
            if limit_reached(
                self.configuration.limit_configuration,
                &self.population.individuals,
            ) {
                if let Some(func) = &callback {
                    termination_cause = TerminationCause::FitnessTargetReached;
                    func(&i, &self.population, TerminationCause::FitnessTargetReached);
                }
                i = i + 1;
                break;
            }
            i = i + 1;
        }

        // A run without per-generation reporting returns the final best
        // alone, tagged with generation -1.
        if !self.configuration.limit_configuration.get_best_individual_by_generation {
            best_population.add_individual_gn(best_individual, -1, self.configuration.adaptive_ga);
        }

        // The terminal callback, when the fitness target was never hit.
        if let Some(func) = &callback {
            if termination_cause == TerminationCause::NotTerminated {
                termination_cause = TerminationCause::GenerationLimitReached;
                func(
                    &self.configuration.limit_configuration.max_generations,
                    &self.population,
                    termination_cause,
                );
            }
        }

        best_population
    }
}

} // verus!

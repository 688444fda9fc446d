//! Pre-run validation: each check decides one condition a run relies on,
//! and says exactly what it decided.  The embedding program turns a failed
//! check into its fatal error; the engine's entry points state the same
//! conditions in their `requires`.

use vstd::prelude::*;
use crate::configuration::{GaConfiguration, PROBABILITY_SCALE};
use crate::population::Population;
use crate::traits::chromosome::ChromosomeT;
use crate::traits::gene::GeneT;

verus! {

/// Every individual's gene identities are unique within its own dna.
pub open spec fn unique_gene_ids_spec<U: ChromosomeT>(s: Seq<U>) -> bool {
    forall|i: int, g1: int, g2: int|
        #![trigger s[i].dna_view()[g1], s[i].dna_view()[g2]]
        0 <= i < s.len() && 0 <= g1 < g2 < s[i].dna_view().len() ==> s[i].dna_view()[g1].id_view()
            != s[i].dna_view()[g2].id_view()
}

/// All individuals share one dna length.
pub open spec fn same_dna_length_spec<U: ChromosomeT>(s: Seq<U>) -> bool {
    forall|i: int, j: int|
        0 <= i < s.len() && 0 <= j < s.len() ==> (#[trigger] s[i]).dna_view().len() == (
        #[trigger] s[j]).dna_view().len()
}

/// The adaptive-mode crossover probability bounds: both present, ordered,
/// and no larger than certainty.
pub open spec fn aga_crossover_probabilities_spec(configuration: GaConfiguration) -> bool {
    &&& configuration.crossover_configuration.probability_max.is_some()
    &&& configuration.crossover_configuration.probability_min.is_some()
    &&& configuration.crossover_configuration.probability_min.unwrap()
        < configuration.crossover_configuration.probability_max.unwrap()
    &&& configuration.crossover_configuration.probability_max.unwrap() <= PROBABILITY_SCALE
}

/// The adaptive-mode mutation probability bounds: both present, ordered,
/// and no larger than certainty.
pub open spec fn aga_mutation_probabilities_spec(configuration: GaConfiguration) -> bool {
    &&& configuration.mutation_configuration.probability_max.is_some()
    &&& configuration.mutation_configuration.probability_min.is_some()
    &&& configuration.mutation_configuration.probability_min.unwrap()
        < configuration.mutation_configuration.probability_max.unwrap()
    &&& configuration.mutation_configuration.probability_max.unwrap() <= PROBABILITY_SCALE
}

/// Checks that every individual has unique gene identities within its dna,
/// as cycle crossover relies on.
pub fn unique_gene_ids<U: ChromosomeT>(population: &Population<U>) -> (r: bool)
    ensures
        r == unique_gene_ids_spec(population.individuals@),
{
    let n = population.individuals.len();
    let mut i: usize = 0;
    while i < n
        invariant
            i <= n,
            n == population.individuals@.len(),
            forall|ii: int, g1: int, g2: int|
                #![trigger population.individuals@[ii].dna_view()[g1], population.individuals@[ii].dna_view()[g2]]
                0 <= ii < i && 0 <= g1 < g2 < population.individuals@[ii].dna_view().len()
                    ==> population.individuals@[ii].dna_view()[g1].id_view()
                    != population.individuals@[ii].dna_view()[g2].id_view(),
        decreases n - i,
    {
        let dna = population.individuals[i].get_dna();
        let m = dna.len();
        let mut g1: usize = 0;
        while g1 < m
            invariant
                g1 <= m,
                m == dna@.len(),
                i < n,
                n == population.individuals@.len(),
                dna@ == population.individuals@[i as int].dna_view(),
                forall|a: int, b: int|
                    0 <= a < g1 && a < b < m ==> dna@[a].id_view() != dna@[b].id_view(),
            decreases m - g1,
        {
            let id_1 = dna[g1].get_id();
            let mut g2: usize = g1 + 1;
            while g2 < m
                invariant
                    g1 < g2 <= m,
                    g1 < m,
                    m == dna@.len(),
                    i < n,
                    n == population.individuals@.len(),
                    dna@ == population.individuals@[i as int].dna_view(),
                    id_1 == dna@[g1 as int].id_view(),
                    forall|b: int| g1 < b < g2 ==> dna@[g1 as int].id_view() != dna@[b].id_view(),
                decreases m - g2,
            {
                if id_1 == dna[g2].get_id() {
                    proof {
                        assert(population.individuals@[i as int].dna_view()[g1 as int].id_view()
                            == population.individuals@[i as int].dna_view()[g2 as int].id_view());
                    }
                    return false;
                }
                g2 += 1;
            }
            g1 += 1;
        }
        i += 1;
    }
    true
}

/// Checks that the fitness target is present, as FixedFitness runs rely
/// on.
pub fn fitness_target_is_some(configuration: &GaConfiguration, problem_type: String) -> (r: bool)
    ensures
        r == configuration.limit_configuration.fitness_target.is_some(),
{
    configuration.limit_configuration.fitness_target.is_some()
}

/// Checks that all the individuals have the same dna length.
pub fn same_dna_length<U: ChromosomeT>(population: &Population<U>) -> (r: bool)
    ensures
        r == same_dna_length_spec(population.individuals@),
{
    let n = population.individuals.len();
    if n == 0 {
        return true;
    }
    let len_0 = population.individuals[0].get_dna().len();
    let mut i: usize = 0;
    while i < n
        invariant
            i <= n,
            n == population.individuals@.len(),
            n >= 1,
            len_0 == population.individuals@[0].dna_view().len(),
            forall|ii: int|
                0 <= ii < i ==> (#[trigger] population.individuals@[ii]).dna_view().len() == len_0,
        decreases n - i,
    {
        if population.individuals[i].get_dna().len() != len_0 {
            return false;
        }
        i += 1;
    }
    true
}

/// Checks the adaptive crossover probability bounds.
pub fn aga_crossover_probabilities(configuration: &GaConfiguration) -> (r: bool)
    ensures
        r == aga_crossover_probabilities_spec(*configuration),
{
    match (
        configuration.crossover_configuration.probability_max,
        configuration.crossover_configuration.probability_min,
    ) {
        (Some(p_max), Some(p_min)) => p_min < p_max && p_max <= PROBABILITY_SCALE,
        _ => false,
    }
}

/// Checks the adaptive mutation probability bounds.
pub fn aga_mutation_probabilities(configuration: &GaConfiguration) -> (r: bool)
    ensures
        r == aga_mutation_probabilities_spec(*configuration),
{
    match (
        configuration.mutation_configuration.probability_max,
        configuration.mutation_configuration.probability_min,
    ) {
        (Some(p_max), Some(p_min)) => p_min < p_max && p_max <= PROBABILITY_SCALE,
        _ => false,
    }
}

/// Checks that an individual does not ask for more genes than there are
/// alleles to draw from without repetition.
pub fn check_genotype_length_not_bigger_than_alleles<U: ChromosomeT>(
    alleles: &[U::Gene],
    genes_per_individual: i32,
) -> (r: bool)
    ensures
        r == (genes_per_individual <= alleles@.len()),
{
    if genes_per_individual <= 0 {
        true
    } else {
        (genes_per_individual as usize) <= alleles.len()
    }
}

/// Checks that the number of genes per individual is set.
pub fn check_genes_per_individual_is_set(configuration: &GaConfiguration) -> (r: bool)
    ensures
        r == (configuration.limit_configuration.genes_per_individual > 0),
{
    configuration.limit_configuration.genes_per_individual > 0
}

/// Checks that the population size is set.
pub fn check_population_size_is_set(configuration: &GaConfiguration) -> (r: bool)
    ensures
        r == (configuration.limit_configuration.population_size > 0),
{
    configuration.limit_configuration.population_size > 0
}

/// Checks that the allele set is present and non-empty.
pub fn check_alleles_are_set<U: ChromosomeT>(alleles: Option<&[U::Gene]>) -> (r: bool)
    ensures
        r == (alleles matches Some(a) && a@.len() > 0),
{
    match alleles {
        None => false,
        Some(a) => a.len() > 0,
    }
}

/// Checks that the number of couples is set.
pub fn check_number_of_couples_is_set(configuration: &GaConfiguration) -> (r: bool)
    ensures
        r == (configuration.selection_configuration.number_of_couples > 0),
{
    configuration.selection_configuration.number_of_couples > 0
}

} // verus!

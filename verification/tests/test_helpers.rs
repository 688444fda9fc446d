use genetic_algorithms::traits::{ChromosomeT, GeneT};

#[derive(Debug, Copy, Clone, Default, PartialEq)]
pub struct Gene {
    pub id: i32,
}
impl GeneT for Gene {
    fn new() -> Self {
        Gene { id: -1 }
    }
    fn get_id(&self) -> i32 {
        self.id
    }
    fn set_id(&mut self, id: i32) {
        self.id = id;
    }
}

#[derive(Debug, Clone, Default, PartialEq)]
pub struct Chromosome {
    pub dna: Vec<Gene>,
    pub fitness: i64,
    pub age: i32,
}
impl ChromosomeT for Chromosome {
    type Gene = Gene;
    fn new() -> Self {
        Chromosome { dna: Vec::new(), fitness: 0, age: 0 }
    }
    fn get_dna(&self) -> &[Gene] {
        &self.dna
    }
    fn set_dna(&mut self, dna: &[Gene]) {
        self.dna = dna.to_vec();
    }
    fn calculate_fitness(&mut self) {
        self.fitness = 0;
        for (i, gene) in self.dna.iter().enumerate() {
            self.fitness += (gene.get_id() as i64) * (i as i64);
        }
    }
    fn get_fitness(&self) -> i64 {
        self.fitness
    }
    fn set_fitness(&mut self, fitness: i64) {
        self.fitness = fitness;
    }
    fn set_age(&mut self, age: i32) {
        self.age = age;
    }
    fn get_age(&self) -> i32 {
        self.age
    }
}

use genetic_algorithms::configuration::{GaConfiguration, ProblemSolving};
use genetic_algorithms::helpers::{condition_checker, condition_checker_factory};
use genetic_algorithms::initializers::{
    generic_random_initialization, generic_random_initialization_without_repetitions,
};
use genetic_algorithms::population::Population;
use genetic_algorithms::traits::ConfigurationT;

#[test]
fn mod_test_helpers_initialize_dna() {
    let binding = vec![
        Gene { id: 1 },
        Gene { id: 2 },
        Gene { id: 3 },
        Gene { id: 4 },
        Gene { id: 5 },
        Gene { id: 6 },
        Gene { id: 7 },
        Gene { id: 8 },
    ];
    let alleles = binding.as_slice();

    let genes = generic_random_initialization::<Chromosome>(4, Some(alleles), Some(false));
    assert_eq!(genes.len(), 4);
}

#[test]
fn test_helpers_test_helpers_initialize_dna() {
    let binding = vec![
        Gene { id: 1 },
        Gene { id: 2 },
        Gene { id: 3 },
        Gene { id: 4 },
        Gene { id: 5 },
        Gene { id: 6 },
        Gene { id: 7 },
        Gene { id: 8 },
    ];
    let alleles = binding.as_slice();

    let genes = generic_random_initialization::<Chromosome>(4, Some(alleles), Some(false));
    assert_eq!(genes.len(), 4);
}

#[test]
fn test_initialize_dna_without_repeated_alleles() {
    let binding = vec![
        Gene { id: 1 },
        Gene { id: 2 },
        Gene { id: 3 },
        Gene { id: 4 },
        Gene { id: 5 },
        Gene { id: 6 },
        Gene { id: 7 },
        Gene { id: 8 },
    ];
    let alleles = binding.as_slice();
    let genes =
        generic_random_initialization_without_repetitions::<Chromosome>(6, Some(alleles), Some(false));

    let mut alleles_ids = Vec::new();

    for gene in genes {
        if !alleles_ids.is_empty() {
            assert!(!alleles_ids.contains(&gene.id));
        }
        alleles_ids.push(gene.id);
    }
}

#[test]
fn test_same_dna_length_check() {
    let even = Population::new(vec![
        Chromosome { dna: vec![Gene { id: 1 }, Gene { id: 2 }], fitness: 0, age: 0 },
        Chromosome { dna: vec![Gene { id: 3 }, Gene { id: 4 }], fitness: 0, age: 0 },
    ]);
    assert!(condition_checker::same_dna_length(&even));

    let uneven = Population::new(vec![
        Chromosome { dna: vec![Gene { id: 1 }], fitness: 0, age: 0 },
        Chromosome { dna: vec![Gene { id: 3 }, Gene { id: 4 }], fitness: 0, age: 0 },
    ]);
    assert!(!condition_checker::same_dna_length(&uneven));
}

#[test]
fn test_unique_gene_ids_check() {
    let unique = Population::new(vec![Chromosome {
        dna: vec![Gene { id: 1 }, Gene { id: 2 }],
        fitness: 0,
        age: 0,
    }]);
    assert!(condition_checker::unique_gene_ids(&unique));

    let repeated = Population::new(vec![Chromosome {
        dna: vec![Gene { id: 1 }, Gene { id: 1 }],
        fitness: 0,
        age: 0,
    }]);
    assert!(!condition_checker::unique_gene_ids(&repeated));
}

#[test]
fn test_fitness_target_check() {
    let mut with_target = GaConfiguration::new();
    with_target.with_problem_solving(ProblemSolving::FixedFitness);
    with_target.with_fitness_target(42);
    assert!(condition_checker::fitness_target_is_some(
        &with_target,
        "FixedFitness".to_owned()
    ));

    let mut without_target = GaConfiguration::new();
    without_target.with_problem_solving(ProblemSolving::FixedFitness);
    assert!(!condition_checker::fitness_target_is_some(
        &without_target,
        "FixedFitness".to_owned()
    ));
}

#[test]
fn test_aga_probability_checks() {
    let mut configuration = GaConfiguration::new();
    configuration.with_adaptive_ga(true);
    assert!(!condition_checker::aga_crossover_probabilities(&configuration));
    assert!(!condition_checker::aga_mutation_probabilities(&configuration));

    configuration.with_crossover_probability_max(750000);
    configuration.with_crossover_probability_min(250000);
    configuration.with_mutation_probability_max(600000);
    configuration.with_mutation_probability_min(100000);
    assert!(condition_checker::aga_crossover_probabilities(&configuration));
    assert!(condition_checker::aga_mutation_probabilities(&configuration));
}

#[test]
fn test_condition_checker_factory_all_conditions() {
    let mut configuration = GaConfiguration::new();
    configuration.with_number_of_couples(2);
    let population = Population::new(vec![
        Chromosome { dna: vec![Gene { id: 1 }, Gene { id: 2 }], fitness: 0, age: 0 },
        Chromosome { dna: vec![Gene { id: 2 }, Gene { id: 1 }], fitness: 0, age: 0 },
    ]);
    let alleles = vec![Gene { id: 1 }, Gene { id: 2 }];

    assert!(condition_checker_factory::<Chromosome>(
        Some(&configuration),
        Some(&population),
        Some(alleles.as_slice()),
        false
    ));

    configuration.with_number_of_couples(0);
    assert!(!condition_checker_factory::<Chromosome>(
        Some(&configuration),
        Some(&population),
        Some(alleles.as_slice()),
        false
    ));
}

use genetic_algorithms::traits::{ChromosomeT, GeneT};

#[derive(Debug, Copy, Clone, Default, PartialEq)]
pub struct Gene {
    pub id: i32,
}
impl GeneT for Gene {
    fn new() -> Self {
        Gene { id: -1 }
    }
    fn get_id(&self) -> i32 {
        self.id
    }
    fn set_id(&mut self, id: i32) {
        self.id = id;
    }
}

#[derive(Debug, Clone, Default, PartialEq)]
pub struct Chromosome {
    pub dna: Vec<Gene>,
    pub fitness: i64,
    pub age: i32,
}
impl ChromosomeT for Chromosome {
    type Gene = Gene;
    fn new() -> Self {
        Chromosome { dna: Vec::new(), fitness: 0, age: 0 }
    }
    fn get_dna(&self) -> &[Gene] {
        &self.dna
    }
    fn set_dna(&mut self, dna: &[Gene]) {
        self.dna = dna.to_vec();
    }
    fn calculate_fitness(&mut self) {
        self.fitness = 0;
        for (i, gene) in self.dna.iter().enumerate() {
            self.fitness += (gene.get_id() as i64) * (i as i64);
        }
    }
    fn get_fitness(&self) -> i64 {
        self.fitness
    }
    fn set_fitness(&mut self, fitness: i64) {
        self.fitness = fitness;
    }
    fn set_age(&mut self, age: i32) {
        self.age = age;
    }
    fn get_age(&self) -> i32 {
        self.age
    }
}

use genetic_algorithms::configuration::ProblemSolving;
use genetic_algorithms::ga::{self, TerminationCause};
use genetic_algorithms::operations::{Crossover, Mutation, Selection, Survivor};
use genetic_algorithms::population::Population;
use genetic_algorithms::traits::ConfigurationT;

#[test]
fn mod_test_ga_start_maximize() {
    let dna_1 = vec![Gene { id: 1 }, Gene { id: 2 }, Gene { id: 3 }, Gene { id: 4 }];
    let dna_2 = vec![Gene { id: 2 }, Gene { id: 3 }, Gene { id: 4 }, Gene { id: 1 }];
    let dna_3 = vec![Gene { id: 3 }, Gene { id: 4 }, Gene { id: 1 }, Gene { id: 2 }];
    let dna_4 = vec![Gene { id: 4 }, Gene { id: 1 }, Gene { id: 2 }, Gene { id: 3 }];
    let dna_5 = vec![Gene { id: 2 }, Gene { id: 1 }, Gene { id: 3 }, Gene { id: 4 }];
    let dna_6 = vec![Gene { id: 1 }, Gene { id: 3 }, Gene { id: 4 }, Gene { id: 2 }];
    let dna_7 = vec![Gene { id: 3 }, Gene { id: 4 }, Gene { id: 2 }, Gene { id: 1 }];
    let dna_8 = vec![Gene { id: 4 }, Gene { id: 2 }, Gene { id: 1 }, Gene { id: 3 }];
    let dna_9 = vec![Gene { id: 2 }, Gene { id: 1 }, Gene { id: 4 }, Gene { id: 3 }];
    let dna_10 = vec![Gene { id: 1 }, Gene { id: 4 }, Gene { id: 3 }, Gene { id: 2 }];

    let individuals = vec![
        Chromosome { dna: dna_1, fitness: 1, age: 0 },
        Chromosome { dna: dna_2, fitness: 2, age: 0 },
        Chromosome { dna: dna_3, fitness: 3, age: 0 },
        Chromosome { dna: dna_4, fitness: 4, age: 0 },
        Chromosome { dna: dna_5, fitness: 5, age: 0 },
        Chromosome { dna: dna_6, fitness: 6, age: 0 },
        Chromosome { dna: dna_7, fitness: 7, age: 0 },
        Chromosome { dna: dna_8, fitness: 8, age: 0 },
        Chromosome { dna: dna_9, fitness: 9, age: 0 },
        Chromosome { dna: dna_10, fitness: 10, age: 0 },
    ];

    let mut population = Population::new(individuals);
    population = ga::Ga::new()
        .with_problem_solving(ProblemSolving::Maximization)
        .with_selection_method(Selection::Random)
        .with_crossover_method(Crossover::Cycle)
        .with_mutation_method(Mutation::Swap)
        .with_survivor_method(Survivor::Fitness)
        .with_population(population)
        .run();

    assert_eq!(population.individuals.len(), 1);
    assert_eq!(population.individuals[0].get_fitness(), 20);
}

#[test]
fn mod_test_ga_run_minimize() {
    let dna_1 = vec![Gene { id: 1 }, Gene { id: 2 }, Gene { id: 3 }, Gene { id: 4 }];
    let dna_2 = vec![Gene { id: 2 }, Gene { id: 3 }, Gene { id: 4 }, Gene { id: 1 }];
    let dna_3 = vec![Gene { id: 3 }, Gene { id: 4 }, Gene { id: 1 }, Gene { id: 2 }];
    let dna_4 = vec![Gene { id: 4 }, Gene { id: 1 }, Gene { id: 2 }, Gene { id: 3 }];
    let dna_5 = vec![Gene { id: 2 }, Gene { id: 1 }, Gene { id: 3 }, Gene { id: 4 }];
    let dna_6 = vec![Gene { id: 1 }, Gene { id: 3 }, Gene { id: 4 }, Gene { id: 2 }];
    let dna_7 = vec![Gene { id: 3 }, Gene { id: 4 }, Gene { id: 2 }, Gene { id: 1 }];
    let dna_8 = vec![Gene { id: 4 }, Gene { id: 2 }, Gene { id: 1 }, Gene { id: 3 }];
    let dna_9 = vec![Gene { id: 2 }, Gene { id: 1 }, Gene { id: 4 }, Gene { id: 3 }];
    let dna_10 = vec![Gene { id: 1 }, Gene { id: 4 }, Gene { id: 3 }, Gene { id: 2 }];

    let individuals = vec![
        Chromosome { dna: dna_1, fitness: 1, age: 0 },
        Chromosome { dna: dna_2, fitness: 2, age: 0 },
        Chromosome { dna: dna_3, fitness: 3, age: 0 },
        Chromosome { dna: dna_4, fitness: 4, age: 0 },
        Chromosome { dna: dna_5, fitness: 5, age: 0 },
        Chromosome { dna: dna_6, fitness: 6, age: 0 },
        Chromosome { dna: dna_7, fitness: 7, age: 0 },
        Chromosome { dna: dna_8, fitness: 8, age: 0 },
        Chromosome { dna: dna_9, fitness: 9, age: 0 },
        Chromosome { dna: dna_10, fitness: 10, age: 0 },
    ];

    let mut population = Population::new(individuals);
    population = ga::Ga::new()
        .with_problem_solving(ProblemSolving::Minimization)
        .with_selection_method(Selection::Random)
        .with_crossover_method(Crossover::Cycle)
        .with_mutation_method(Mutation::Swap)
        .with_mutation_probability_max(200000)
        .with_survivor_method(Survivor::Fitness)
        .with_population(population)
        .run();

    assert_eq!(population.individuals.len(), 1);
    assert_eq!(population.individuals[0].get_fitness(), 10);
}

#[test]
fn mod_test_ga_run() {
    let dna_1 = vec![Gene { id: 1 }, Gene { id: 2 }, Gene { id: 3 }, Gene { id: 4 }];
    let dna_2 = vec![Gene { id: 2 }, Gene { id: 3 }, Gene { id: 4 }, Gene { id: 1 }];
    let dna_3 = vec![Gene { id: 3 }, Gene { id: 4 }, Gene { id: 1 }, Gene { id: 2 }];
    let dna_4 = vec![Gene { id: 4 }, Gene { id: 1 }, Gene { id: 2 }, Gene { id: 3 }];
    let dna_5 = vec![Gene { id: 2 }, Gene { id: 1 }, Gene { id: 3 }, Gene { id: 4 }];
    let dna_6 = vec![Gene { id: 1 }, Gene { id: 3 }, Gene { id: 4 }, Gene { id: 2 }];
    let dna_7 = vec![Gene { id: 3 }, Gene { id: 4 }, Gene { id: 2 }, Gene { id: 1 }];
    let dna_8 = vec![Gene { id: 4 }, Gene { id: 2 }, Gene { id: 1 }, Gene { id: 3 }];
    let dna_9 = vec![Gene { id: 2 }, Gene { id: 1 }, Gene { id: 4 }, Gene { id: 3 }];
    let dna_10 = vec![Gene { id: 1 }, Gene { id: 4 }, Gene { id: 3 }, Gene { id: 2 }];

    let individuals = vec![
        Chromosome { dna: dna_1, fitness: 1, age: 0 },
        Chromosome { dna: dna_2, fitness: 2, age: 0 },
        Chromosome { dna: dna_3, fitness: 3, age: 0 },
        Chromosome { dna: dna_4, fitness: 4, age: 0 },
        Chromosome { dna: dna_5, fitness: 5, age: 0 },
        Chromosome { dna: dna_6, fitness: 6, age: 0 },
        Chromosome { dna: dna_7, fitness: 7, age: 0 },
        Chromosome { dna: dna_8, fitness: 8, age: 0 },
        Chromosome { dna: dna_9, fitness: 9, age: 0 },
        Chromosome { dna: dna_10, fitness: 10, age: 0 },
    ];

    let mut population = Population::new(individuals);
    population = ga::Ga::new()
        .with_threads(8)
        .with_problem_solving(ProblemSolving::Maximization)
        .with_selection_method(Selection::Tournament)
        .with_number_of_couples(10)
        .with_crossover_method(Crossover::Cycle)
        .with_mutation_method(Mutation::Swap)
        .with_survivor_method(Survivor::Fitness)
        .with_population(population)
        .run();

    assert_eq!(population.individuals.len(), 1);
}

#[test]
fn mod_test_parent_crossover_repeating_alleles() {
    let binding = vec![
        Gene { id: 1 },
        Gene { id: 2 },
        Gene { id: 3 },
        Gene { id: 4 },
        Gene { id: 5 },
        Gene { id: 6 },
        Gene { id: 7 },
        Gene { id: 8 },
    ];
    let alleles = binding.as_slice();
    let genes_per_individual: i32 = 6;
    let population_size: i32 = 100;
    let needs_unique_ids: bool = false;
    let alleles_can_be_repeated: bool = true;
    let number_of_threads: i32 = 8;

    let population: Population<Chromosome> = ga::Ga::new()
        .with_threads(number_of_threads)
        .with_population_size(population_size)
        .with_genes_per_individual(genes_per_individual)
        .with_needs_unique_ids(needs_unique_ids)
        .with_alleles_can_be_repeated(alleles_can_be_repeated)
        .with_alleles(alleles.to_vec())
        .random_initialization();

    for individual in population.individuals {
        assert!(individual.dna.len() == genes_per_individual.try_into().unwrap());
    }
}

#[test]
fn mod_test_parent_crossover_without_repeating_alleles() {
    let binding = vec![
        Gene { id: 1 },
        Gene { id: 2 },
        Gene { id: 3 },
        Gene { id: 4 },
        Gene { id: 5 },
        Gene { id: 6 },
        Gene { id: 7 },
        Gene { id: 8 },
    ];
    let alleles = binding.as_slice();
    let genes_per_individual: i32 = 6;
    let population_size: i32 = 100;
    let needs_unique_ids: bool = false;
    let alleles_can_be_repeated: bool = false;
    let number_of_threads: i32 = 8;

    let population: Population<Chromosome> = ga::Ga::new()
        .with_threads(number_of_threads)
        .with_population_size(population_size)
        .with_genes_per_individual(genes_per_individual)
        .with_needs_unique_ids(needs_unique_ids)
        .with_alleles_can_be_repeated(alleles_can_be_repeated)
        .with_alleles(alleles.to_vec())
        .random_initialization();

    for individual in population.individuals {
        let mut gene_ids = Vec::new();

        for gene in individual.dna {
            if !gene_ids.is_empty() {
                assert!(!gene_ids.contains(&gene.id));
            }
            gene_ids.push(gene.id);
        }
    }
}

#[test]
fn test_ga_test_ga_start_maximize() {
    let dna_1 = vec![Gene { id: 1 }, Gene { id: 2 }, Gene { id: 3 }, Gene { id: 4 }];
    let dna_2 = vec![Gene { id: 2 }, Gene { id: 3 }, Gene { id: 4 }, Gene { id: 1 }];
    let dna_3 = vec![Gene { id: 3 }, Gene { id: 4 }, Gene { id: 1 }, Gene { id: 2 }];
    let dna_4 = vec![Gene { id: 4 }, Gene { id: 1 }, Gene { id: 2 }, Gene { id: 3 }];
    let dna_5 = vec![Gene { id: 2 }, Gene { id: 1 }, Gene { id: 3 }, Gene { id: 4 }];
    let dna_6 = vec![Gene { id: 1 }, Gene { id: 3 }, Gene { id: 4 }, Gene { id: 2 }];
    let dna_7 = vec![Gene { id: 3 }, Gene { id: 4 }, Gene { id: 2 }, Gene { id: 1 }];
    let dna_8 = vec![Gene { id: 4 }, Gene { id: 2 }, Gene { id: 1 }, Gene { id: 3 }];
    let dna_9 = vec![Gene { id: 2 }, Gene { id: 1 }, Gene { id: 4 }, Gene { id: 3 }];
    let dna_10 = vec![Gene { id: 1 }, Gene { id: 4 }, Gene { id: 3 }, Gene { id: 2 }];

    let individuals = vec![
        Chromosome { dna: dna_1, fitness: 1, age: 0 },
        Chromosome { dna: dna_2, fitness: 2, age: 0 },
        Chromosome { dna: dna_3, fitness: 3, age: 0 },
        Chromosome { dna: dna_4, fitness: 4, age: 0 },
        Chromosome { dna: dna_5, fitness: 5, age: 0 },
        Chromosome { dna: dna_6, fitness: 6, age: 0 },
        Chromosome { dna: dna_7, fitness: 7, age: 0 },
        Chromosome { dna: dna_8, fitness: 8, age: 0 },
        Chromosome { dna: dna_9, fitness: 9, age: 0 },
        Chromosome { dna: dna_10, fitness: 10, age: 0 },
    ];

    let mut population = Population::new(individuals);
    population = ga::Ga::new()
        .with_problem_solving(ProblemSolving::Maximization)
        .with_selection_method(Selection::Random)
        .with_crossover_method(Crossover::Cycle)
        .with_mutation_method(Mutation::Swap)
        .with_survivor_method(Survivor::Fitness)
        .with_population(population)
        .run();

    assert_eq!(population.individuals.len(), 1);
    assert_eq!(population.individuals[0].get_fitness(), 20);
}

#[test]
fn test_ga_test_ga_run_minimize() {
    let dna_1 = vec![Gene { id: 1 }, Gene { id: 2 }, Gene { id: 3 }, Gene { id: 4 }];
    let dna_2 = vec![Gene { id: 2 }, Gene { id: 3 }, Gene { id: 4 }, Gene { id: 1 }];
    let dna_3 = vec![Gene { id: 3 }, Gene { id: 4 }, Gene { id: 1 }, Gene { id: 2 }];
    let dna_4 = vec![Gene { id: 4 }, Gene { id: 1 }, Gene { id: 2 }, Gene { id: 3 }];
    let dna_5 = vec![Gene { id: 2 }, Gene { id: 1 }, Gene { id: 3 }, Gene { id: 4 }];
    let dna_6 = vec![Gene { id: 1 }, Gene { id: 3 }, Gene { id: 4 }, Gene { id: 2 }];
    let dna_7 = vec![Gene { id: 3 }, Gene { id: 4 }, Gene { id: 2 }, Gene { id: 1 }];
    let dna_8 = vec![Gene { id: 4 }, Gene { id: 2 }, Gene { id: 1 }, Gene { id: 3 }];
    let dna_9 = vec![Gene { id: 2 }, Gene { id: 1 }, Gene { id: 4 }, Gene { id: 3 }];
    let dna_10 = vec![Gene { id: 1 }, Gene { id: 4 }, Gene { id: 3 }, Gene { id: 2 }];

    let individuals = vec![
        Chromosome { dna: dna_1, fitness: 1, age: 0 },
        Chromosome { dna: dna_2, fitness: 2, age: 0 },
        Chromosome { dna: dna_3, fitness: 3, age: 0 },
        Chromosome { dna: dna_4, fitness: 4, age: 0 },
        Chromosome { dna: dna_5, fitness: 5, age: 0 },
        Chromosome { dna: dna_6, fitness: 6, age: 0 },
        Chromosome { dna: dna_7, fitness: 7, age: 0 },
        Chromosome { dna: dna_8, fitness: 8, age: 0 },
        Chromosome { dna: dna_9, fitness: 9, age: 0 },
        Chromosome { dna: dna_10, fitness: 10, age: 0 },
    ];

    let mut population = Population::new(individuals);
    population = ga::Ga::new()
        .with_problem_solving(ProblemSolving::Minimization)
        .with_selection_method(Selection::Random)
        .with_crossover_method(Crossover::Cycle)
        .with_mutation_method(Mutation::Swap)
        .with_mutation_probability_max(200000)
        .with_survivor_method(Survivor::Fitness)
        .with_population(population)
        .run();

    assert_eq!(population.individuals.len(), 1);
    assert_eq!(population.individuals[0].get_fitness(), 10);
}

#[test]
fn test_ga_test_ga_run() {
    let dna_1 = vec![Gene { id: 1 }, Gene { id: 2 }, Gene { id: 3 }, Gene { id: 4 }];
    let dna_2 = vec![Gene { id: 2 }, Gene { id: 3 }, Gene { id: 4 }, Gene { id: 1 }];
    let dna_3 = vec![Gene { id: 3 }, Gene { id: 4 }, Gene { id: 1 }, Gene { id: 2 }];
    let dna_4 = vec![Gene { id: 4 }, Gene { id: 1 }, Gene { id: 2 }, Gene { id: 3 }];
    let dna_5 = vec![Gene { id: 2 }, Gene { id: 1 }, Gene { id: 3 }, Gene { id: 4 }];
    let dna_6 = vec![Gene { id: 1 }, Gene { id: 3 }, Gene { id: 4 }, Gene { id: 2 }];
    let dna_7 = vec![Gene { id: 3 }, Gene { id: 4 }, Gene { id: 2 }, Gene { id: 1 }];
    let dna_8 = vec![Gene { id: 4 }, Gene { id: 2 }, Gene { id: 1 }, Gene { id: 3 }];
    let dna_9 = vec![Gene { id: 2 }, Gene { id: 1 }, Gene { id: 4 }, Gene { id: 3 }];
    let dna_10 = vec![Gene { id: 1 }, Gene { id: 4 }, Gene { id: 3 }, Gene { id: 2 }];

    let individuals = vec![
        Chromosome { dna: dna_1, fitness: 1, age: 0 },
        Chromosome { dna: dna_2, fitness: 2, age: 0 },
        Chromosome { dna: dna_3, fitness: 3, age: 0 },
        Chromosome { dna: dna_4, fitness: 4, age: 0 },
        Chromosome { dna: dna_5, fitness: 5, age: 0 },
        Chromosome { dna: dna_6, fitness: 6, age: 0 },
        Chromosome { dna: dna_7, fitness: 7, age: 0 },
        Chromosome { dna: dna_8, fitness: 8, age: 0 },
        Chromosome { dna: dna_9, fitness: 9, age: 0 },
        Chromosome { dna: dna_10, fitness: 10, age: 0 },
    ];

    let mut population = Population::new(individuals);
    population = ga::Ga::new()
        .with_threads(8)
        .with_problem_solving(ProblemSolving::Maximization)
        .with_selection_method(Selection::Tournament)
        .with_number_of_couples(10)
        .with_crossover_method(Crossover::Cycle)
        .with_mutation_method(Mutation::Swap)
        .with_survivor_method(Survivor::Fitness)
        .with_population(population)
        .run();

    assert_eq!(population.individuals.len(), 1);
}

#[test]
fn test_ga_test_parent_crossover_repeating_alleles() {
    let binding = vec![
        Gene { id: 1 },
        Gene { id: 2 },
        Gene { id: 3 },
        Gene { id: 4 },
        Gene { id: 5 },
        Gene { id: 6 },
        Gene { id: 7 },
        Gene { id: 8 },
    ];
    let alleles = binding.as_slice();
    let genes_per_individual: i32 = 6;
    let population_size: i32 = 100;
    let needs_unique_ids: bool = false;
    let alleles_can_be_repeated: bool = true;
    let number_of_threads: i32 = 8;

    let population: Population<Chromosome> = ga::Ga::new()
        .with_threads(number_of_threads)
        .with_population_size(population_size)
        .with_genes_per_individual(genes_per_individual)
        .with_needs_unique_ids(needs_unique_ids)
        .with_alleles_can_be_repeated(alleles_can_be_repeated)
        .with_alleles(alleles.to_vec())
        .random_initialization();

    for individual in population.individuals {
        assert!(individual.dna.len() == genes_per_individual.try_into().unwrap());
    }
}

#[test]
fn test_ga_test_parent_crossover_without_repeating_alleles() {
    let binding = vec![
        Gene { id: 1 },
        Gene { id: 2 },
        Gene { id: 3 },
        Gene { id: 4 },
        Gene { id: 5 },
        Gene { id: 6 },
        Gene { id: 7 },
        Gene { id: 8 },
    ];
    let alleles = binding.as_slice();
    let genes_per_individual: i32 = 6;
    let population_size: i32 = 100;
    let needs_unique_ids: bool = false;
    let alleles_can_be_repeated: bool = false;
    let number_of_threads: i32 = 8;

    let population: Population<Chromosome> = ga::Ga::new()
        .with_threads(number_of_threads)
        .with_population_size(population_size)
        .with_genes_per_individual(genes_per_individual)
        .with_needs_unique_ids(needs_unique_ids)
        .with_alleles_can_be_repeated(alleles_can_be_repeated)
        .with_alleles(alleles.to_vec())
        .random_initialization();

    for individual in population.individuals {
        let mut gene_ids = Vec::new();

        for gene in individual.dna {
            if !gene_ids.is_empty() {
                assert!(!gene_ids.contains(&gene.id));
            }
            gene_ids.push(gene.id);
        }
    }
}

fn callback_function(generation_number: &i32, population: &Population<Chromosome>, termination_cause: TerminationCause) {
    assert!(*generation_number >= 7);
    assert_eq!(population.individuals.len(), 10);
    assert!(
        termination_cause == TerminationCause::NotTerminated
            || termination_cause == TerminationCause::GenerationLimitReached
    );
}

#[test]
fn test_callback_function() {
    let dna_1 = vec![Gene { id: 1 }, Gene { id: 2 }, Gene { id: 3 }, Gene { id: 4 }];
    let dna_2 = vec![Gene { id: 2 }, Gene { id: 3 }, Gene { id: 4 }, Gene { id: 1 }];
    let dna_3 = vec![Gene { id: 3 }, Gene { id: 4 }, Gene { id: 1 }, Gene { id: 2 }];
    let dna_4 = vec![Gene { id: 4 }, Gene { id: 1 }, Gene { id: 2 }, Gene { id: 3 }];
    let dna_5 = vec![Gene { id: 2 }, Gene { id: 1 }, Gene { id: 3 }, Gene { id: 4 }];
    let dna_6 = vec![Gene { id: 1 }, Gene { id: 3 }, Gene { id: 4 }, Gene { id: 2 }];
    let dna_7 = vec![Gene { id: 3 }, Gene { id: 4 }, Gene { id: 2 }, Gene { id: 1 }];
    let dna_8 = vec![Gene { id: 4 }, Gene { id: 2 }, Gene { id: 1 }, Gene { id: 3 }];
    let dna_9 = vec![Gene { id: 2 }, Gene { id: 1 }, Gene { id: 4 }, Gene { id: 3 }];
    let dna_10 = vec![Gene { id: 1 }, Gene { id: 4 }, Gene { id: 3 }, Gene { id: 2 }];

    let individuals = vec![
        Chromosome { dna: dna_1, fitness: 1, age: 0 },
        Chromosome { dna: dna_2, fitness: 2, age: 0 },
        Chromosome { dna: dna_3, fitness: 3, age: 0 },
        Chromosome { dna: dna_4, fitness: 4, age: 0 },
        Chromosome { dna: dna_5, fitness: 5, age: 0 },
        Chromosome { dna: dna_6, fitness: 6, age: 0 },
        Chromosome { dna: dna_7, fitness: 7, age: 0 },
        Chromosome { dna: dna_8, fitness: 8, age: 0 },
        Chromosome { dna: dna_9, fitness: 9, age: 0 },
        Chromosome { dna: dna_10, fitness: 10, age: 0 },
    ];

    let mut population = Population::new(individuals);
    population = ga::Ga::new()
        .with_threads(8)
        .with_problem_solving(ProblemSolving::Maximization)
        .with_selection_method(Selection::Tournament)
        .with_number_of_couples(10)
        .with_crossover_method(Crossover::Cycle)
        .with_mutation_method(Mutation::Swap)
        .with_survivor_method(Survivor::Fitness)
        .with_population(population)
        .with_max_generations(10)
        .run_with_callback(Some(callback_function), 8);

    assert_eq!(population.individuals.len(), 1);
}

#[test]
fn test_ga_minimization_stops_at_zero() {
    // Zero-identity genes score zero everywhere, so the very first
    // generation reaches the Minimization target and the run stops well
    // before the generation cap.
    let mut individuals = Vec::new();
    for _ in 0..4 {
        let dna = vec![Gene { id: 0 }, Gene { id: 0 }];
        individuals.push(Chromosome { dna, fitness: 5, age: 0 });
    }

    let mut ga = ga::Ga::new();
    let population = ga
        .with_problem_solving(ProblemSolving::Minimization)
        .with_selection_method(Selection::Random)
        .with_crossover_method(Crossover::Uniform)
        .with_mutation_method(Mutation::Swap)
        .with_survivor_method(Survivor::Fitness)
        .with_best_individual_by_generation(true)
        .with_max_generations(50)
        .with_population(Population::new(individuals))
        .run();

    // One snapshot per executed generation: far fewer than the cap.
    assert!(population.individuals.len() >= 1);
    assert!(population.individuals.len() < 50);
    assert_eq!(population.individuals[0].get_fitness(), 0);
}

use genetic_algorithms::traits::{ChromosomeT, GeneT};

#[derive(Debug, Copy, Clone, Default, PartialEq)]
pub struct Gene {
    pub id: i32,
}
impl GeneT for Gene {
    fn new() -> Self {
        Gene { id: -1 }
    }
    fn get_id(&self) -> i32 {
        self.id
    }
    fn set_id(&mut self, id: i32) {
        self.id = id;
    }
}

#[derive(Debug, Clone, Default, PartialEq)]
pub struct Chromosome {
    pub dna: Vec<Gene>,
    pub fitness: i64,
    pub age: i32,
}
impl ChromosomeT for Chromosome {
    type Gene = Gene;
    fn new() -> Self {
        Chromosome { dna: Vec::new(), fitness: 0, age: 0 }
    }
    fn get_dna(&self) -> &[Gene] {
        &self.dna
    }
    fn set_dna(&mut self, dna: &[Gene]) {
        self.dna = dna.to_vec();
    }
    fn calculate_fitness(&mut self) {
        self.fitness = 0;
        for (i, gene) in self.dna.iter().enumerate() {
            self.fitness += (gene.get_id() as i64) * (i as i64);
        }
    }
    fn get_fitness(&self) -> i64 {
        self.fitness
    }
    fn set_fitness(&mut self, fitness: i64) {
        self.fitness = fitness;
    }
    fn set_age(&mut self, age: i32) {
        self.age = age;
    }
    fn get_age(&self) -> i32 {
        self.age
    }
}

use genetic_algorithms::configuration::{LimitConfiguration, ProblemSolving};
use genetic_algorithms::operations::survivor::{age, fitness};

#[test]
fn mod_test_fitness_survivor_minization() {
    let mut population = Vec::new();
    let fitnesses: [i64; 12] = [101, 102, 103, 110, 120, 130, 140, 150, 160, 170, 180, 190];
    for f in fitnesses {
        population.push(Chromosome { dna: vec![Gene { id: 1 }], fitness: f, age: 0 });
    }

    fitness::fitness_based(
        &mut population,
        10,
        LimitConfiguration { problem_solving: ProblemSolving::Minimization, ..Default::default() },
    );

    assert_eq!(population.len(), 10);
    assert_eq!(population[0].get_fitness(), 170);
    assert_eq!(population[9].get_fitness(), 101);
}

#[test]
fn mod_test_fitness_survivor_maximization() {
    let mut population = Vec::new();
    let fitnesses: [i64; 12] = [101, 102, 103, 110, 120, 130, 140, 150, 160, 170, 180, 190];
    for f in fitnesses {
        population.push(Chromosome { dna: vec![Gene { id: 1 }], fitness: f, age: 0 });
    }

    fitness::fitness_based(
        &mut population,
        10,
        LimitConfiguration { problem_solving: ProblemSolving::Maximization, ..Default::default() },
    );

    assert_eq!(population.len(), 10);
    assert_eq!(population[0].get_fitness(), 190);
    assert_eq!(population[9].get_fitness(), 103);
}

#[test]
fn mod_test_age_based_survivor() {
    let mut population = Vec::new();
    let entries: [(i64, i32); 12] = [
        (101, 0),
        (102, 0),
        (103, 1),
        (110, 1),
        (120, 3),
        (130, 3),
        (140, 2),
        (150, 2),
        (160, 2),
        (170, 2),
        (180, 1),
        (190, 1),
    ];
    for (f, a) in entries {
        population.push(Chromosome { dna: vec![Gene { id: 1 }], fitness: f, age: a });
    }

    age::age_based(&mut population, 6);

    assert_eq!(population.len(), 6);
    assert_eq!(population[0].get_age(), 3);
    assert_eq!(population[1].get_age(), 3);
    assert_eq!(population[2].get_age(), 2);
    assert_eq!(population[3].get_age(), 2);
    assert_eq!(population[4].get_age(), 2);
    assert_eq!(population[5].get_age(), 2);
}

#[test]
fn mod_test_survivor_fitness_fixed() {
    let mut population = Vec::new();
    let fitnesses: [i64; 12] = [101, 102, 103, 110, 120, 130, 140, 150, 160, 170, 180, 190];
    for f in fitnesses {
        population.push(Chromosome { dna: vec![Gene { id: 1 }], fitness: f, age: 0 });
    }

    fitness::fitness_based(
        &mut population,
        10,
        LimitConfiguration {
            problem_solving: ProblemSolving::FixedFitness,
            fitness_target: Some(145),
            ..Default::default()
        },
    );

    assert_eq!(population.len(), 10);
    assert_eq!(population[0].get_fitness(), 102);
    assert_eq!(population[9].get_fitness(), 150);
}

#[test]
fn test_survivor_test_fitness_survivor_minization() {
    let mut population = Vec::new();
    let fitnesses: [i64; 12] = [101, 102, 103, 110, 120, 130, 140, 150, 160, 170, 180, 190];
    for f in fitnesses {
        population.push(Chromosome { dna: vec![Gene { id: 1 }], fitness: f, age: 0 });
    }

    fitness::fitness_based(
        &mut population,
        10,
        LimitConfiguration { problem_solving: ProblemSolving::Minimization, ..Default::default() },
    );

    assert_eq!(population.len(), 10);
    assert_eq!(population[0].get_fitness(), 170);
    assert_eq!(population[9].get_fitness(), 101);
}

#[test]
fn test_survivor_test_fitness_survivor_maximization() {
    let mut population = Vec::new();
    let fitnesses: [i64; 12] = [101, 102, 103, 110, 120, 130, 140, 150, 160, 170, 180, 190];
    for f in fitnesses {
        population.push(Chromosome { dna: vec![Gene { id: 1 }], fitness: f, age: 0 });
    }

    fitness::fitness_based(
        &mut population,
        10,
        LimitConfiguration { problem_solving: ProblemSolving::Maximization, ..Default::default() },
    );

    assert_eq!(population.len(), 10);
    assert_eq!(population[0].get_fitness(), 190);
    assert_eq!(population[9].get_fitness(), 103);
}

#[test]
fn test_survivor_test_age_based_survivor() {
    let mut population = Vec::new();
    let entries: [(i64, i32); 12] = [
        (101, 0),
        (102, 0),
        (103, 1),
        (110, 1),
        (120, 3),
        (130, 3),
        (140, 2),
        (150, 2),
        (160, 2),
        (170, 2),
        (180, 1),
        (190, 1),
    ];
    for (f, a) in entries {
        population.push(Chromosome { dna: vec![Gene { id: 1 }], fitness: f, age: a });
    }

    age::age_based(&mut population, 6);

    assert_eq!(population.len(), 6);
    assert_eq!(population[0].get_age(), 3);
    assert_eq!(population[1].get_age(), 3);
    assert_eq!(population[2].get_age(), 2);
    assert_eq!(population[3].get_age(), 2);
    assert_eq!(population[4].get_age(), 2);
    assert_eq!(population[5].get_age(), 2);
}

#[test]
fn test_survivor_test_survivor_fitness_fixed() {
    let mut population = Vec::new();
    let fitnesses: [i64; 12] = [101, 102, 103, 110, 120, 130, 140, 150, 160, 170, 180, 190];
    for f in fitnesses {
        population.push(Chromosome { dna: vec![Gene { id: 1 }], fitness: f, age: 0 });
    }

    fitness::fitness_based(
        &mut population,
        10,
        LimitConfiguration {
            problem_solving: ProblemSolving::FixedFitness,
            fitness_target: Some(145),
            ..Default::default()
        },
    );

    assert_eq!(population.len(), 10);
    assert_eq!(population[0].get_fitness(), 102);
    assert_eq!(population[9].get_fitness(), 150);
}


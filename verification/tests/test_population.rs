use genetic_algorithms::traits::{ChromosomeT, GeneT};

#[derive(Debug, Copy, Clone, Default, PartialEq)]
pub struct Gene {
    pub id: i32,
}
impl GeneT for Gene {
    fn new() -> Self {
        Gene { id: -1 }
    }
    fn get_id(&self) -> i32 {
        self.id
    }
    fn set_id(&mut self, id: i32) {
        self.id = id;
    }
}

#[derive(Debug, Clone, Default, PartialEq)]
pub struct Chromosome {
    pub dna: Vec<Gene>,
    pub fitness: i64,
    pub age: i32,
}
impl ChromosomeT for Chromosome {
    type Gene = Gene;
    fn new() -> Self {
        Chromosome { dna: Vec::new(), fitness: 0, age: 0 }
    }
    fn get_dna(&self) -> &[Gene] {
        &self.dna
    }
    fn set_dna(&mut self, dna: &[Gene]) {
        self.dna = dna.to_vec();
    }
    fn calculate_fitness(&mut self) {
        self.fitness = 0;
        for (i, gene) in self.dna.iter().enumerate() {
            self.fitness += (gene.get_id() as i64) * (i as i64);
        }
    }
    fn get_fitness(&self) -> i64 {
        self.fitness
    }
    fn set_fitness(&mut self, fitness: i64) {
        self.fitness = fitness;
    }
    fn set_age(&mut self, age: i32) {
        self.age = age;
    }
    fn get_age(&self) -> i32 {
        self.age
    }
}

use genetic_algorithms::population::Population;

#[test]
fn test_add_individual_gn_aga() {
    let individual_1 = Chromosome { dna: Vec::<Gene>::new(), fitness: 20, age: 0 };
    let individual_2 = Chromosome { dna: Vec::<Gene>::new(), fitness: 40, age: 0 };
    let individual_3 = Chromosome { dna: Vec::<Gene>::new(), fitness: 120, age: 0 };
    let mut population = Population::new_empty();

    population.add_individual_gn(individual_1, 0, true);
    population.add_individual_gn(individual_2, 0, true);
    population.add_individual_gn(individual_3, 0, true);

    assert_eq!(population.f_max, 120);
    assert_eq!(population.f_avg, 60);
    assert_eq!(population.size(), 3);
}

#[test]
fn test_add_individual_gn() {
    let individual_1 = Chromosome { dna: Vec::<Gene>::new(), fitness: 20, age: 0 };
    let individual_2 = Chromosome { dna: Vec::<Gene>::new(), fitness: 40, age: 0 };
    let individual_3 = Chromosome { dna: Vec::<Gene>::new(), fitness: 120, age: 0 };
    let mut population = Population::new_empty();

    population.add_individual_gn(individual_1, 0, false);
    population.add_individual_gn(individual_2, 0, false);
    population.add_individual_gn(individual_3, 0, false);

    assert_eq!(population.size(), 3);
}

#[test]
fn test_add_individuals_aga() {
    let individual_1 = Chromosome { dna: Vec::<Gene>::new(), fitness: 20, age: 0 };
    let individual_2 = Chromosome { dna: Vec::<Gene>::new(), fitness: 40, age: 0 };
    let individual_3 = Chromosome { dna: Vec::<Gene>::new(), fitness: 120, age: 0 };
    let mut individuals = vec![individual_1, individual_2, individual_3];
    let mut population = Population::new_empty();

    population.add_individuals(&mut individuals, true);

    assert_eq!(population.f_max, 120);
    assert_eq!(population.f_avg, 60);
    assert_eq!(population.size(), 3);
}

#[test]
fn test_add_individuals() {
    let individual_1 = Chromosome { dna: Vec::<Gene>::new(), fitness: 20, age: 0 };
    let individual_2 = Chromosome { dna: Vec::<Gene>::new(), fitness: 40, age: 0 };
    let individual_3 = Chromosome { dna: Vec::<Gene>::new(), fitness: 120, age: 0 };
    let mut individuals = vec![individual_1, individual_2, individual_3];
    let mut population = Population::new_empty();

    population.add_individuals(&mut individuals, false);

    assert_eq!(population.size(), 3);
}

#[test]
fn test_aga_init_full_scan() {
    let individual_1 = Chromosome { dna: Vec::<Gene>::new(), fitness: 7, age: 0 };
    let individual_2 = Chromosome { dna: Vec::<Gene>::new(), fitness: 13, age: 0 };
    let mut population = Population::new(vec![individual_1, individual_2]);

    population.aga_init();

    assert_eq!(population.f_max, 13);
    assert_eq!(population.f_avg, 10);
}

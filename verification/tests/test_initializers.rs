use genetic_algorithms::traits::{ChromosomeT, GeneT};

#[derive(Debug, Copy, Clone, Default, PartialEq)]
pub struct Gene {
    pub id: i32,
}
impl GeneT for Gene {
    fn new() -> Self {
        Gene { id: -1 }
    }
    fn get_id(&self) -> i32 {
        self.id
    }
    fn set_id(&mut self, id: i32) {
        self.id = id;
    }
}

#[derive(Debug, Clone, Default, PartialEq)]
pub struct Chromosome {
    pub dna: Vec<Gene>,
    pub fitness: i64,
    pub age: i32,
}
impl ChromosomeT for Chromosome {
    type Gene = Gene;
    fn new() -> Self {
        Chromosome { dna: Vec::new(), fitness: 0, age: 0 }
    }
    fn get_dna(&self) -> &[Gene] {
        &self.dna
    }
    fn set_dna(&mut self, dna: &[Gene]) {
        self.dna = dna.to_vec();
    }
    fn calculate_fitness(&mut self) {
        self.fitness = 0;
        for (i, gene) in self.dna.iter().enumerate() {
            self.fitness += (gene.get_id() as i64) * (i as i64);
        }
    }
    fn get_fitness(&self) -> i64 {
        self.fitness
    }
    fn set_fitness(&mut self, fitness: i64) {
        self.fitness = fitness;
    }
    fn set_age(&mut self, age: i32) {
        self.age = age;
    }
    fn get_age(&self) -> i32 {
        self.age
    }
}

use genetic_algorithms::initializers::{
    binary_random_initialization, generic_random_initialization,
    generic_random_initialization_without_repetitions,
};

#[test]
fn test_initializers_generic_random_initialization() {
    let binding = vec![
        Gene { id: 1 },
        Gene { id: 2 },
        Gene { id: 3 },
        Gene { id: 4 },
        Gene { id: 5 },
        Gene { id: 6 },
        Gene { id: 7 },
        Gene { id: 8 },
    ];
    let alleles = binding.as_slice();

    let genes = generic_random_initialization::<Chromosome>(4, Some(alleles), Some(false));
    assert_eq!(genes.len(), 4);
}

#[test]
fn test_initializers_generic_random_initialization_without_repetitions() {
    let binding = vec![
        Gene { id: 1 },
        Gene { id: 2 },
        Gene { id: 3 },
        Gene { id: 4 },
        Gene { id: 5 },
        Gene { id: 6 },
        Gene { id: 7 },
        Gene { id: 8 },
    ];
    let alleles = binding.as_slice();
    let genes =
        generic_random_initialization_without_repetitions::<Chromosome>(6, Some(alleles), Some(false));

    let mut alleles_ids = Vec::new();

    for gene in genes {
        if !alleles_ids.is_empty() {
            assert!(!alleles_ids.contains(&gene.id));
        }
        alleles_ids.push(gene.id);
    }
}

#[test]
fn test_initializers_unique_ids_renumber() {
    let binding = vec![Gene { id: 7 }, Gene { id: 7 }, Gene { id: 7 }];
    let alleles = binding.as_slice();

    let genes = generic_random_initialization::<Chromosome>(3, Some(alleles), Some(true));
    assert_eq!(genes.len(), 3);
    for (i, gene) in genes.iter().enumerate() {
        assert_eq!(gene.id, i as i32);
    }
}

#[test]
fn test_binary_random_initialization_length() {
    let genes = binary_random_initialization(100, None, None);
    assert_eq!(genes.len(), 100);
    for (i, gene) in genes.iter().enumerate() {
        assert_eq!(gene.id, i as i32);
    }
}

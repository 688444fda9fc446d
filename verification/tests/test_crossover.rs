use genetic_algorithms::traits::{ChromosomeT, GeneT};

#[derive(Debug, Copy, Clone, Default, PartialEq)]
pub struct Gene {
    pub id: i32,
}
impl GeneT for Gene {
    fn new() -> Self {
        Gene { id: -1 }
    }
    fn get_id(&self) -> i32 {
        self.id
    }
    fn set_id(&mut self, id: i32) {
        self.id = id;
    }
}

#[derive(Debug, Clone, Default, PartialEq)]
pub struct Chromosome {
    pub dna: Vec<Gene>,
    pub fitness: i64,
    pub age: i32,
}
impl ChromosomeT for Chromosome {
    type Gene = Gene;
    fn new() -> Self {
        Chromosome { dna: Vec::new(), fitness: 0, age: 0 }
    }
    fn get_dna(&self) -> &[Gene] {
        &self.dna
    }
    fn set_dna(&mut self, dna: &[Gene]) {
        self.dna = dna.to_vec();
    }
    fn calculate_fitness(&mut self) {
        self.fitness = 0;
        for (i, gene) in self.dna.iter().enumerate() {
            self.fitness += (gene.get_id() as i64) * (i as i64);
        }
    }
    fn get_fitness(&self) -> i64 {
        self.fitness
    }
    fn set_fitness(&mut self, fitness: i64) {
        self.fitness = fitness;
    }
    fn set_age(&mut self, age: i32) {
        self.age = age;
    }
    fn get_age(&self) -> i32 {
        self.age
    }
}

use genetic_algorithms::operations::crossover::aga_probability;
use genetic_algorithms::operations::crossover::{cycle, multipoint, uniform_crossover};

#[test]
fn mod_test_cycle_crossover() {
    let dna_1 = vec![Gene { id: 1 }, Gene { id: 2 }, Gene { id: 3 }, Gene { id: 4 }];
    let dna_2 = vec![Gene { id: 4 }, Gene { id: 3 }, Gene { id: 2 }, Gene { id: 1 }];

    let parent_1 = Chromosome { dna: dna_1, fitness: 0, age: 0 };
    let parent_2 = Chromosome { dna: dna_2, fitness: 0, age: 0 };

    let mut offspring = cycle::cycle(&parent_1, &parent_2).unwrap();

    let child_2 = offspring.pop().unwrap();
    let child_1 = offspring.pop().unwrap();

    assert_eq!(child_1.dna.len(), parent_1.dna.len());
    assert_eq!(child_2.dna.len(), child_2.dna.len());
    assert_eq!(parent_1.dna.len(), parent_2.dna.len());

    assert_eq!(child_2.dna.get(0).unwrap().id, 4);
    assert_eq!(child_2.dna.get(1).unwrap().id, 2);
    assert_eq!(child_2.dna.get(2).unwrap().id, 3);
    assert_eq!(child_2.dna.get(3).unwrap().id, 1);

    assert_eq!(child_1.dna.get(0).unwrap().id, 1);
    assert_eq!(child_1.dna.get(1).unwrap().id, 3);
    assert_eq!(child_1.dna.get(2).unwrap().id, 2);
    assert_eq!(child_1.dna.get(3).unwrap().id, 4);
}

#[test]
fn mod_test_multipoint_crossover_2_points() {
    let dna_1 = vec![
        Gene { id: 1 },
        Gene { id: 2 },
        Gene { id: 3 },
        Gene { id: 4 },
        Gene { id: 5 },
        Gene { id: 6 },
    ];
    let dna_2 = vec![
        Gene { id: 6 },
        Gene { id: 5 },
        Gene { id: 4 },
        Gene { id: 3 },
        Gene { id: 2 },
        Gene { id: 1 },
    ];

    let parent_1 = Chromosome { dna: dna_1, fitness: 0, age: 0 };
    let parent_2 = Chromosome { dna: dna_2, fitness: 0, age: 0 };

    let mut offspring = multipoint::multipoint_crossover(&parent_1, &parent_2, &2).unwrap();

    let child_2 = offspring.pop().unwrap();
    let child_1 = offspring.pop().unwrap();

    assert_eq!(child_1.dna.len(), parent_1.dna.len());
    assert_eq!(child_2.dna.len(), child_2.dna.len());
    assert_eq!(parent_1.dna.len(), parent_2.dna.len());

    assert_eq!(child_1.dna.get(0).unwrap().id, 1);
    assert_eq!(child_1.dna.get(1).unwrap().id, 2);
    assert_eq!(child_1.dna.get(2).unwrap().id, 4);
    assert_eq!(child_1.dna.get(3).unwrap().id, 3);
    assert_eq!(child_1.dna.get(4).unwrap().id, 5);
    assert_eq!(child_1.dna.get(5).unwrap().id, 6);

    assert_eq!(child_2.dna.get(0).unwrap().id, 6);
    assert_eq!(child_2.dna.get(1).unwrap().id, 5);
    assert_eq!(child_2.dna.get(2).unwrap().id, 3);
    assert_eq!(child_2.dna.get(3).unwrap().id, 4);
    assert_eq!(child_2.dna.get(4).unwrap().id, 2);
    assert_eq!(child_2.dna.get(5).unwrap().id, 1);
}

#[test]
fn mod_test_multipoint_crossover_4_points() {
    let dna_1 = vec![
        Gene { id: 1 },
        Gene { id: 2 },
        Gene { id: 3 },
        Gene { id: 4 },
        Gene { id: 5 },
        Gene { id: 6 },
    ];
    let dna_2 = vec![
        Gene { id: 6 },
        Gene { id: 5 },
        Gene { id: 4 },
        Gene { id: 3 },
        Gene { id: 2 },
        Gene { id: 1 },
    ];

    let parent_1 = Chromosome { dna: dna_1, fitness: 0, age: 0 };
    let parent_2 = Chromosome { dna: dna_2, fitness: 0, age: 0 };

    let mut offspring = multipoint::multipoint_crossover(&parent_1, &parent_2, &4).unwrap();

    let child_2 = offspring.pop().unwrap();
    let child_1 = offspring.pop().unwrap();

    assert_eq!(child_1.dna.len(), parent_1.dna.len());
    assert_eq!(child_2.dna.len(), child_2.dna.len());
    assert_eq!(parent_1.dna.len(), parent_2.dna.len());

    assert_eq!(child_1.dna.get(0).unwrap().id, 1);
    assert_eq!(child_1.dna.get(1).unwrap().id, 5);
    assert_eq!(child_1.dna.get(2).unwrap().id, 3);
    assert_eq!(child_1.dna.get(3).unwrap().id, 3);
    assert_eq!(child_1.dna.get(4).unwrap().id, 5);
    assert_eq!(child_1.dna.get(5).unwrap().id, 1);

    assert_eq!(child_2.dna.get(0).unwrap().id, 6);
    assert_eq!(child_2.dna.get(1).unwrap().id, 2);
    assert_eq!(child_2.dna.get(2).unwrap().id, 4);
    assert_eq!(child_2.dna.get(3).unwrap().id, 4);
    assert_eq!(child_2.dna.get(4).unwrap().id, 2);
    assert_eq!(child_2.dna.get(5).unwrap().id, 6);
}

#[test]
fn mod_test_uniform_crossover() {
    let dna_1 = vec![Gene { id: 1 }, Gene { id: 2 }, Gene { id: 3 }, Gene { id: 4 }];
    let dna_2 = vec![Gene { id: 4 }, Gene { id: 3 }, Gene { id: 2 }, Gene { id: 1 }];

    let parent_1 = Chromosome { dna: dna_1, fitness: 0, age: 0 };
    let parent_2 = Chromosome { dna: dna_2, fitness: 0, age: 0 };

    let mut offspring = uniform_crossover::uniform(&parent_1, &parent_2).unwrap();

    let child_2 = offspring.pop().unwrap();
    let child_1 = offspring.pop().unwrap();

    assert_eq!(child_1.dna.len(), parent_1.dna.len());
    assert_eq!(child_2.dna.len(), child_2.dna.len());
    assert_eq!(parent_1.dna.len(), parent_2.dna.len());
}

#[test]
fn test_crossover_test_cycle_crossover() {
    let dna_1 = vec![Gene { id: 1 }, Gene { id: 2 }, Gene { id: 3 }, Gene { id: 4 }];
    let dna_2 = vec![Gene { id: 4 }, Gene { id: 3 }, Gene { id: 2 }, Gene { id: 1 }];

    let parent_1 = Chromosome { dna: dna_1, fitness: 0, age: 0 };
    let parent_2 = Chromosome { dna: dna_2, fitness: 0, age: 0 };

    let mut offspring = cycle::cycle(&parent_1, &parent_2).unwrap();

    let child_2 = offspring.pop().unwrap();
    let child_1 = offspring.pop().unwrap();

    assert_eq!(child_1.dna.len(), parent_1.dna.len());
    assert_eq!(child_2.dna.len(), child_2.dna.len());
    assert_eq!(parent_1.dna.len(), parent_2.dna.len());

    assert_eq!(child_2.dna.get(0).unwrap().id, 4);
    assert_eq!(child_2.dna.get(1).unwrap().id, 2);
    assert_eq!(child_2.dna.get(2).unwrap().id, 3);
    assert_eq!(child_2.dna.get(3).unwrap().id, 1);

    assert_eq!(child_1.dna.get(0).unwrap().id, 1);
    assert_eq!(child_1.dna.get(1).unwrap().id, 3);
    assert_eq!(child_1.dna.get(2).unwrap().id, 2);
    assert_eq!(child_1.dna.get(3).unwrap().id, 4);
}

#[test]
fn test_crossover_test_multipoint_crossover_2_points() {
    let dna_1 = vec![
        Gene { id: 1 },
        Gene { id: 2 },
        Gene { id: 3 },
        Gene { id: 4 },
        Gene { id: 5 },
        Gene { id: 6 },
    ];
    let dna_2 = vec![
        Gene { id: 6 },
        Gene { id: 5 },
        Gene { id: 4 },
        Gene { id: 3 },
        Gene { id: 2 },
        Gene { id: 1 },
    ];

    let parent_1 = Chromosome { dna: dna_1, fitness: 0, age: 0 };
    let parent_2 = Chromosome { dna: dna_2, fitness: 0, age: 0 };

    let mut offspring = multipoint::multipoint_crossover(&parent_1, &parent_2, &2).unwrap();

    let child_2 = offspring.pop().unwrap();
    let child_1 = offspring.pop().unwrap();

    assert_eq!(child_1.dna.len(), parent_1.dna.len());
    assert_eq!(child_2.dna.len(), child_2.dna.len());
    assert_eq!(parent_1.dna.len(), parent_2.dna.len());

    assert_eq!(child_1.dna.get(0).unwrap().id, 1);
    assert_eq!(child_1.dna.get(1).unwrap().id, 2);
    assert_eq!(child_1.dna.get(2).unwrap().id, 4);
    assert_eq!(child_1.dna.get(3).unwrap().id, 3);
    assert_eq!(child_1.dna.get(4).unwrap().id, 5);
    assert_eq!(child_1.dna.get(5).unwrap().id, 6);

    assert_eq!(child_2.dna.get(0).unwrap().id, 6);
    assert_eq!(child_2.dna.get(1).unwrap().id, 5);
    assert_eq!(child_2.dna.get(2).unwrap().id, 3);
    assert_eq!(child_2.dna.get(3).unwrap().id, 4);
    assert_eq!(child_2.dna.get(4).unwrap().id, 2);
    assert_eq!(child_2.dna.get(5).unwrap().id, 1);
}

#[test]
fn test_crossover_test_multipoint_crossover_4_points() {
    let dna_1 = vec![
        Gene { id: 1 },
        Gene { id: 2 },
        Gene { id: 3 },
        Gene { id: 4 },
        Gene { id: 5 },
        Gene { id: 6 },
    ];
    let dna_2 = vec![
        Gene { id: 6 },
        Gene { id: 5 },
        Gene { id: 4 },
        Gene { id: 3 },
        Gene { id: 2 },
        Gene { id: 1 },
    ];

    let parent_1 = Chromosome { dna: dna_1, fitness: 0, age: 0 };
    let parent_2 = Chromosome { dna: dna_2, fitness: 0, age: 0 };

    let mut offspring = multipoint::multipoint_crossover(&parent_1, &parent_2, &4).unwrap();

    let child_2 = offspring.pop().unwrap();
    let child_1 = offspring.pop().unwrap();

    assert_eq!(child_1.dna.len(), parent_1.dna.len());
    assert_eq!(child_2.dna.len(), child_2.dna.len());
    assert_eq!(parent_1.dna.len(), parent_2.dna.len());

    assert_eq!(child_1.dna.get(0).unwrap().id, 1);
    assert_eq!(child_1.dna.get(1).unwrap().id, 5);
    assert_eq!(child_1.dna.get(2).unwrap().id, 3);
    assert_eq!(child_1.dna.get(3).unwrap().id, 3);
    assert_eq!(child_1.dna.get(4).unwrap().id, 5);
    assert_eq!(child_1.dna.get(5).unwrap().id, 1);

    assert_eq!(child_2.dna.get(0).unwrap().id, 6);
    assert_eq!(child_2.dna.get(1).unwrap().id, 2);
    assert_eq!(child_2.dna.get(2).unwrap().id, 4);
    assert_eq!(child_2.dna.get(3).unwrap().id, 4);
    assert_eq!(child_2.dna.get(4).unwrap().id, 2);
    assert_eq!(child_2.dna.get(5).unwrap().id, 6);
}

#[test]
fn test_crossover_test_uniform_crossover() {
    let dna_1 = vec![Gene { id: 1 }, Gene { id: 2 }, Gene { id: 3 }, Gene { id: 4 }];
    let dna_2 = vec![Gene { id: 4 }, Gene { id: 3 }, Gene { id: 2 }, Gene { id: 1 }];

    let parent_1 = Chromosome { dna: dna_1, fitness: 0, age: 0 };
    let parent_2 = Chromosome { dna: dna_2, fitness: 0, age: 0 };

    let mut offspring = uniform_crossover::uniform(&parent_1, &parent_2).unwrap();

    let child_2 = offspring.pop().unwrap();
    let child_1 = offspring.pop().unwrap();

    assert_eq!(child_1.dna.len(), parent_1.dna.len());
    assert_eq!(child_2.dna.len(), child_2.dna.len());
    assert_eq!(parent_1.dna.len(), parent_2.dna.len());
}

#[test]
fn test_xover_aga_probability_over_avg() {
    let parent_1 = Chromosome { dna: Vec::<Gene>::new(), fitness: 25, age: 0 };
    let parent_2 = Chromosome { dna: Vec::<Gene>::new(), fitness: 100, age: 0 };
    let f_max = 150;
    let f_avg = 50;
    let probability_max = 750000;
    let probability_min = 250000;

    let aga_xover_probability =
        aga_probability(&parent_1, &parent_2, f_max, f_avg, probability_max, probability_min);

    assert_eq!(aga_xover_probability, 375000);
}

#[test]
fn test_xover_aga_probability_under_avg() {
    let parent_1 = Chromosome { dna: Vec::<Gene>::new(), fitness: 25, age: 0 };
    let parent_2 = Chromosome { dna: Vec::<Gene>::new(), fitness: 49, age: 0 };
    let f_max = 150;
    let f_avg = 50;
    let probability_max = 750000;
    let probability_min = 250000;

    let aga_xover_probability =
        aga_probability(&parent_1, &parent_2, f_max, f_avg, probability_max, probability_min);

    assert_eq!(aga_xover_probability, 250000);
}

#[test]
fn test_uniform_crossover_complementary() {
    let dna_1 = vec![Gene { id: 1 }, Gene { id: 2 }, Gene { id: 3 }, Gene { id: 4 }];
    let dna_2 = vec![Gene { id: 4 }, Gene { id: 3 }, Gene { id: 2 }, Gene { id: 1 }];

    let parent_1 = Chromosome { dna: dna_1, fitness: 0, age: 0 };
    let parent_2 = Chromosome { dna: dna_2, fitness: 0, age: 0 };

    let mut offspring = uniform_crossover::uniform(&parent_1, &parent_2).unwrap();
    let child_2 = offspring.pop().unwrap();
    let child_1 = offspring.pop().unwrap();

    for i in 0..4 {
        let straight = child_1.dna[i] == parent_1.dna[i] && child_2.dna[i] == parent_2.dna[i];
        let exchanged = child_1.dna[i] == parent_2.dna[i] && child_2.dna[i] == parent_1.dna[i];
        assert!(straight || exchanged);
    }
}

#[test]
fn test_multipoint_crossover_zero_points() {
    let dna_1 = vec![Gene { id: 1 }, Gene { id: 2 }, Gene { id: 3 }, Gene { id: 4 }];
    let dna_2 = vec![Gene { id: 4 }, Gene { id: 3 }, Gene { id: 2 }, Gene { id: 1 }];

    let parent_1 = Chromosome { dna: dna_1.clone(), fitness: 0, age: 0 };
    let parent_2 = Chromosome { dna: dna_2.clone(), fitness: 0, age: 0 };

    let mut offspring = multipoint::multipoint_crossover(&parent_1, &parent_2, &0).unwrap();
    let child_2 = offspring.pop().unwrap();
    let child_1 = offspring.pop().unwrap();

    assert_eq!(child_1.dna, dna_1);
    assert_eq!(child_2.dna, dna_2);
}

#[test]
fn test_cycle_crossover_involution() {
    let dna_1 = vec![Gene { id: 1 }, Gene { id: 2 }, Gene { id: 3 }, Gene { id: 4 }];
    let dna_2 = vec![Gene { id: 4 }, Gene { id: 3 }, Gene { id: 2 }, Gene { id: 1 }];

    let parent_1 = Chromosome { dna: dna_1.clone(), fitness: 0, age: 0 };
    let parent_2 = Chromosome { dna: dna_2.clone(), fitness: 0, age: 0 };

    let mut once = cycle::cycle(&parent_1, &parent_2).unwrap();
    let child_2 = once.pop().unwrap();
    let child_1 = once.pop().unwrap();

    let mut twice = cycle::cycle(&child_1, &child_2).unwrap();
    let back_2 = twice.pop().unwrap();
    let back_1 = twice.pop().unwrap();

    assert_eq!(back_1.dna, dna_1);
    assert_eq!(back_2.dna, dna_2);
}

#[test]
fn test_cycle_crossover_second_cycle_crossed() {
    // Two cycles: {0,1} is cycle zero and passes verbatim, {2,3} is cycle
    // one and is crossed.
    let dna_1 = vec![Gene { id: 1 }, Gene { id: 2 }, Gene { id: 3 }, Gene { id: 4 }];
    let dna_2 = vec![Gene { id: 2 }, Gene { id: 1 }, Gene { id: 4 }, Gene { id: 3 }];

    let parent_1 = Chromosome { dna: dna_1, fitness: 0, age: 0 };
    let parent_2 = Chromosome { dna: dna_2, fitness: 0, age: 0 };

    let mut offspring = cycle::cycle(&parent_1, &parent_2).unwrap();
    let child_2 = offspring.pop().unwrap();
    let child_1 = offspring.pop().unwrap();

    let child_1_ids: Vec<i32> = child_1.dna.iter().map(|g| g.id).collect();
    let child_2_ids: Vec<i32> = child_2.dna.iter().map(|g| g.id).collect();
    assert_eq!(child_1_ids, vec![1, 2, 4, 3]);
    assert_eq!(child_2_ids, vec![2, 1, 3, 4]);
}

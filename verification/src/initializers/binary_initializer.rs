//! Random binary dna: one coin flip per gene.

use vstd::prelude::*;
use crate::genotypes::Binary as BinaryGenotype;
use crate::rng::rand_below;

verus! {

/// Builds `genes_per_chromosome` binary genes, identities numbered in
/// order, each bit drawn by a fair coin.  The allele set and the unique-id
/// flag play no role for a binary encoding.
pub fn binary_random_initialization(
    genes_per_chromosome: i32,
    _alleles: Option<&[BinaryGenotype]>,
    _needs_unique_ids: Option<bool>,
) -> (r: Vec<BinaryGenotype>)
    requires
        genes_per_chromosome >= 0,
    ensures
        r@.len() == genes_per_chromosome as int,
        forall|j: int| 0 <= j < r@.len() ==> (#[trigger] r@[j]).id == j,
{
    let mut genes: Vec<BinaryGenotype> = Vec::new();
    let total = genes_per_chromosome as usize;
    let mut i: usize = 0;
    while i < total
        invariant
            i <= total,
            total <= i32::MAX,
            genes@.len() == i,
            forall|j: int| 0 <= j < i ==> (#[trigger] genes@[j]).id == j,
        decreases total - i,
    {
        let gene = BinaryGenotype { id: i as i32, value: rand_below(2) == 1 };
        genes.push(gene);
        i += 1;
    }
    genes
}

} // verus!

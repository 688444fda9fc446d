//! Random dna for any gene type, drawn from a caller-supplied allele set.

use vstd::prelude::*;
use crate::rng::rand_below;
use crate::traits::chromosome::ChromosomeT;
use crate::traits::gene::GeneT;

verus! {

/// Draws `genes_per_chromosome` genes from the alleles, with replacement;
/// with `needs_unique_ids` every drawn gene is renumbered by its position.
pub fn generic_random_initialization<U: ChromosomeT>(
    genes_per_chromosome: i32,
    alleles: Option<&[U::Gene]>,
    needs_unique_ids: Option<bool>,
) -> (r: Vec<U::Gene>)
    requires
        alleles matches Some(a) && a@.len() >= 1,
        needs_unique_ids.is_some(),
        genes_per_chromosome >= 0,
    ensures
        r@.len() == genes_per_chromosome as int,
        needs_unique_ids.unwrap() ==> forall|j: int|
            0 <= j < r@.len() ==> (#[trigger] r@[j]).id_view() == j,
        !needs_unique_ids.unwrap() ==> forall|j: int|
            0 <= j < r@.len() ==> alleles.unwrap()@.contains(#[trigger] r@[j]),
{
    let alleles = alleles.unwrap();
    let needs_unique_ids = needs_unique_ids.unwrap();

    let mut dna: Vec<U::Gene> = Vec::new();

    let total = genes_per_chromosome as usize;
    let mut j: usize = 0;
    while j < total
        invariant
            j <= total,
            total <= i32::MAX,
            alleles@.len() >= 1,
            dna@.len() == j,
            needs_unique_ids ==> forall|k: int| 0 <= k < j ==> (#[trigger] dna@[k]).id_view() == k,
            !needs_unique_ids ==> forall|k: int|
                0 <= k < j ==> alleles@.contains(#[trigger] dna@[k]),
        decreases total - j,
    {
        let index = rand_below(alleles.len());
        let mut gene = alleles[index];

        // Renumber when the run asks for unique identities.
        if needs_unique_ids {
            gene.set_id(j as i32);
        }
        proof {
            if !needs_unique_ids {
                assert(alleles@.contains(alleles@[index as int]));
            }
        }
        dna.push(gene);
        j += 1;
    }
    dna
}

/// Draws `genes_per_chromosome` genes from the alleles without
/// replacement: what comes back is a sub-multiset of the allele pool.
/// With `needs_unique_ids` every drawn gene is renumbered by its position.
pub fn generic_random_initialization_without_repetitions<U: ChromosomeT>(
    genes_per_chromosome: i32,
    alleles: Option<&[U::Gene]>,
    needs_unique_ids: Option<bool>,
) -> (r: Vec<U::Gene>)
    requires
        alleles matches Some(a) && genes_per_chromosome <= a@.len(),
        needs_unique_ids.is_some(),
        genes_per_chromosome >= 0,
    ensures
        r@.len() == genes_per_chromosome as int,
        needs_unique_ids.unwrap() ==> forall|j: int|
            0 <= j < r@.len() ==> (#[trigger] r@[j]).id_view() == j,
        !needs_unique_ids.unwrap() ==> r@.to_multiset().subset_of(
            alleles.unwrap()@.to_multiset(),
        ),
{
    broadcast use vstd::seq_lib::group_to_multiset_ensures;
    broadcast use vstd::seq_lib::to_multiset_remove;
    broadcast use vstd::multiset::group_multiset_axioms;

    let alleles = alleles.unwrap();
    let needs_unique_ids = needs_unique_ids.unwrap();

    let mut dna: Vec<U::Gene> = Vec::new();

    // A private copy of the pool; every draw leaves it for good.
    let mut tmp_alleles: Vec<U::Gene> = Vec::new();
    let mut c: usize = 0;
    while c < alleles.len()
        invariant
            c <= alleles@.len(),
            tmp_alleles@ == alleles@.take(c as int),
        decreases alleles@.len() - c,
    {
        tmp_alleles.push(alleles[c]);
        proof {
            assert(alleles@.take(c + 1) =~= alleles@.take(c as int).push(alleles@[c as int]));
        }
        c += 1;
    }
    proof {
        assert(alleles@.take(alleles@.len() as int) =~= alleles@);
    }

    let total = genes_per_chromosome as usize;
    let mut j: usize = 0;
    while j < total
        invariant
            j <= total,
            total <= i32::MAX,
            total <= alleles@.len(),
            dna@.len() == j,
            tmp_alleles@.len() == alleles@.len() - j,
            needs_unique_ids ==> forall|k: int| 0 <= k < j ==> (#[trigger] dna@[k]).id_view() == k,
            !needs_unique_ids ==> dna@.to_multiset().add(tmp_alleles@.to_multiset())
                == alleles@.to_multiset(),
        decreases total - j,
    {
        let index = rand_below(tmp_alleles.len());
        let mut gene = tmp_alleles[index];

        // Renumber when the run asks for unique identities.
        if needs_unique_ids {
            gene.set_id(j as i32);
        }

        let ghost pre_pool = tmp_alleles@;
        let ghost pre_dna = dna@;
        tmp_alleles.remove(index);
        dna.push(gene);
        proof {
            broadcast use vstd::seq_lib::group_to_multiset_ensures;
            broadcast use vstd::seq_lib::to_multiset_remove;
            broadcast use vstd::multiset::group_multiset_axioms;

            if !needs_unique_ids {
                assert(pre_pool.remove(index as int).to_multiset() == pre_pool.to_multiset().remove(
                    pre_pool[index as int],
                ));
                assert(dna@.to_multiset() == pre_dna.to_multiset().insert(gene));
                assert(dna@.to_multiset().add(tmp_alleles@.to_multiset())
                    =~= alleles@.to_multiset());
            }
        }
        j += 1;
    }
    proof {
        if !needs_unique_ids {
            assert(dna@.to_multiset().subset_of(alleles@.to_multiset())) by {
                assert(forall|x: U::Gene|
                    #[trigger] dna@.to_multiset().count(x) + tmp_alleles@.to_multiset().count(x)
                        == alleles@.to_multiset().count(x));
            }
        }
    }
    dna
}

} // verus!

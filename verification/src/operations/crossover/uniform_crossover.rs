//! Uniform crossover: a fair coin decides, per position, which parent the
//! first child copies from; the second child takes the complement.

use vstd::prelude::*;
use crate::rng::rand_below;
use crate::traits::chromosome::ChromosomeT;

verus! {

/// The children are complementary: at every position they carry the two
/// parents' genes, one each, in one order or the other.
pub open spec fn uniform_children_ok<G>(p1: Seq<G>, p2: Seq<G>, c1: Seq<G>, c2: Seq<G>) -> bool {
    &&& c1.len() == p1.len()
    &&& c2.len() == p1.len()
    &&& forall|i: int| #![trigger c1[i]]
        0 <= i < p1.len() ==> ((c1[i] == p1[i] && c2[i] == p2[i]) || (c1[i] == p2[i] && c2[i]
            == p1[i]))
}

/// Walks the parents once; at each position an independent fair coin
/// decides which parent child 1 copies from, and child 2 takes the other
/// gene.  The children are fresh individuals (zero fitness, zero age).
pub fn uniform<U: ChromosomeT>(parent_1: &U, parent_2: &U) -> (r: Option<Vec<U>>)
    requires
        parent_1.dna_view().len() == parent_2.dna_view().len(),
    ensures
        r.is_some(),
        r.unwrap()@.len() == 2,
        uniform_children_ok(
            parent_1.dna_view(),
            parent_2.dna_view(),
            r.unwrap()@[0].dna_view(),
            r.unwrap()@[1].dna_view(),
        ),
        r.unwrap()@[0].fitness_view() == 0 && r.unwrap()@[0].age_view() == 0,
        r.unwrap()@[1].fitness_view() == 0 && r.unwrap()@[1].age_view() == 0,
{
    let dna_1 = parent_1.get_dna();
    let dna_2 = parent_2.get_dna();
    let len = dna_1.len();

    let mut dna_child_1: Vec<U::Gene> = Vec::new();
    let mut dna_child_2: Vec<U::Gene> = Vec::new();

    let mut child_1 = U::new();
    let mut child_2 = U::new();

    let mut i: usize = 0;
    while i < len
        invariant
            i <= len,
            len == parent_1.dna_view().len(),
            len == parent_2.dna_view().len(),
            dna_1@ == parent_1.dna_view(),
            dna_2@ == parent_2.dna_view(),
            dna_child_1@.len() == i,
            dna_child_2@.len() == i,
            forall|j: int| #![trigger dna_child_1@[j]]
                0 <= j < i ==> ((dna_child_1@[j] == parent_1.dna_view()[j] && dna_child_2@[j]
                    == parent_2.dna_view()[j]) || (dna_child_1@[j] == parent_2.dna_view()[j]
                    && dna_child_2@[j] == parent_1.dna_view()[j])),
        decreases len - i,
    {
        let ghost g_1 = dna_child_1@;
        let ghost g_2 = dna_child_2@;
        let crossover = rand_below(2);

        if crossover == 0 {
            dna_child_1.push(dna_1[i]);
            dna_child_2.push(dna_2[i]);
        } else {
            dna_child_1.push(dna_2[i]);
            dna_child_2.push(dna_1[i]);
        }
        proof {
            assert(dna_child_1@.len() == i + 1);
            assert(forall|j: int|
                0 <= j < i ==> dna_child_1@[j] == g_1[j] && dna_child_2@[j] == g_2[j]);
            assert((dna_child_1@[i as int] == parent_1.dna_view()[i as int] && dna_child_2@[
            i as int] == parent_2.dna_view()[i as int]) || (dna_child_1@[i as int]
                == parent_2.dna_view()[i as int] && dna_child_2@[i as int]
                == parent_1.dna_view()[i as int]));
        }
        i += 1;
    }

    child_1.set_dna(dna_child_1.as_slice());
    child_2.set_dna(dna_child_2.as_slice());

    let mut result = Vec::new();
    result.push(child_1);
    result.push(child_2);
    Some(result)
}

} // verus!

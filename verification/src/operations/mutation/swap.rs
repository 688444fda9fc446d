//! Swap mutation: exchange the genes at two random positions.

use vstd::prelude::*;
use crate::rng::rand_below;
use crate::traits::chromosome::ChromosomeT;

verus! {

/// `s` with the genes at `a` and `b` exchanged.
pub open spec fn swapped<G>(s: Seq<G>, a: int, b: int) -> Seq<G> {
    s.update(a, s[b]).update(b, s[a])
}

/// Exchanges the genes at two positions drawn with replacement: drawing
/// the same position twice leaves the dna as it was.  Fitness and age are
/// not touched; the caller recomputes them afterward.
pub fn swap<U: ChromosomeT>(individual: &mut U)
    requires
        old(individual).dna_view().len() >= 1,
    ensures
        final(individual).fitness_view() == old(individual).fitness_view(),
        final(individual).age_view() == old(individual).age_view(),
        final(individual).dna_view().len() == old(individual).dna_view().len(),
        exists|a: int, b: int|
            0 <= a < old(individual).dna_view().len() && 0 <= b < old(
                individual,
            ).dna_view().len() && final(individual).dna_view() == #[trigger] swapped(
                old(individual).dna_view(),
                a,
                b,
            ),
{
    let len = individual.get_dna().len();
    let index_1 = rand_below(len);
    let index_2 = rand_below(len);

    let gene_1 = individual.get_dna()[index_1];
    let gene_2 = individual.get_dna()[index_2];

    individual.set_gene(index_1, gene_2);
    individual.set_gene(index_2, gene_1);
    proof {
        assert(individual.dna_view() == swapped(
            old(individual).dna_view(),
            index_1 as int,
            index_2 as int,
        ));
    }
}

} // verus!

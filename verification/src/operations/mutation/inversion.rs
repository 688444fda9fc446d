//! Inversion mutation: reverse the gene order within a random closed
//! sub-interval.

use vstd::prelude::*;
use crate::rng::rand_below;
use crate::traits::chromosome::ChromosomeT;

verus! {

/// `s` with the closed interval `lo ..= hi` reversed in place.
pub open spec fn reversed_interval<G>(s: Seq<G>, lo: int, hi: int) -> Seq<G> {
    Seq::new(
        s.len(),
        |k: int|
            if lo <= k <= hi {
                s[hi - (k - lo)]
            } else {
                s[k]
            },
    )
}

/// Reverses the genes between two positions drawn with replacement (the
/// interval may be a single position, which changes nothing).  Fitness and
/// age are not touched; the caller recomputes them afterward.
pub fn inversion<U: ChromosomeT>(individual: &mut U)
    requires
        old(individual).dna_view().len() >= 1,
    ensures
        final(individual).fitness_view() == old(individual).fitness_view(),
        final(individual).age_view() == old(individual).age_view(),
        final(individual).dna_view().len() == old(individual).dna_view().len(),
        exists|lo: int, hi: int|
            0 <= lo <= hi < old(individual).dna_view().len() && final(individual).dna_view()
                == #[trigger] reversed_interval(old(individual).dna_view(), lo, hi),
{
    let len = individual.get_dna().len();
    let index_1 = rand_below(len);
    let index_2 = rand_below(len);
    let (lower_index, higher_index) = if index_1 < index_2 {
        (index_1, index_2)
    } else {
        (index_2, index_1)
    };
    let ghost lo = lower_index as int;
    let ghost hi = higher_index as int;
    let ghost input = individual.dna_view();

    let mut i: usize = 0;
    while lower_index + i < higher_index - i
        invariant
            0 <= lo <= hi < input.len(),
            lo == lower_index as int,
            hi == higher_index as int,
            input == old(individual).dna_view(),
            individual.fitness_view() == old(individual).fitness_view(),
            individual.age_view() == old(individual).age_view(),
            individual.dna_view().len() == input.len(),
            lo + i <= hi - i + 1,
            forall|k: int|
                0 <= k < input.len() ==> #[trigger] individual.dna_view()[k] == (if (lo <= k < lo
                    + i) || (hi - i < k <= hi) {
                    input[hi - (k - lo)]
                } else {
                    input[k]
                }),
        decreases higher_index - lower_index - i,
    {
        let gene_start = individual.get_dna()[lower_index + i];
        let gene_end = individual.get_dna()[higher_index - i];

        individual.set_gene(lower_index + i, gene_end);
        individual.set_gene(higher_index - i, gene_start);

        i += 1;
    }
    proof {
        assert(individual.dna_view() =~= reversed_interval(input, lo, hi));
    }
}

} // verus!

//! Scramble mutation: within a random sub-interval, repeatedly swap each
//! position with another randomly chosen position inside the same interval.
//! The sampling procedure resembles, but is not, a uniform-permutation
//! shuffle; callers rely on exactly this procedure.

use vstd::prelude::*;
use crate::rng::rand_below;
use crate::traits::chromosome::ChromosomeT;

verus! {

/// The genes outside `a ..< b` are the same in `t` as in `s`.
pub open spec fn unchanged_outside<G>(s: Seq<G>, t: Seq<G>, a: int, b: int) -> bool {
    forall|k: int| 0 <= k < s.len() && !(a <= k < b) ==> #[trigger] t[k] == s[k]
}

/// Exchanging two in-range genes never changes what the dna holds.
proof fn lemma_swap_multiset<G>(s: Seq<G>, i: int, j: int)
    requires
        0 <= i < s.len(),
        0 <= j < s.len(),
    ensures
        s.update(i, s[j]).update(j, s[i]).to_multiset() == s.to_multiset(),
{
    broadcast use vstd::seq_lib::group_to_multiset_ensures;
    broadcast use vstd::seq_lib::to_multiset_update;
    broadcast use vstd::multiset::group_multiset_axioms;

    if i == j {
        assert(s.update(i, s[j]).update(j, s[i]) =~= s);
    } else {
        let s1 = s.update(i, s[j]);
        assert(s1[j] == s[j]);
        assert(s1.to_multiset() == s.to_multiset().insert(s[j]).remove(s[i]));
        assert(s1.update(j, s[i]).to_multiset() == s1.to_multiset().insert(s[i]).remove(s1[j]));
        assert(s.to_multiset().count(s[i]) > 0);
        assert(s.to_multiset().count(s[j]) > 0);
        assert(s1.update(j, s[i]).to_multiset() =~= s.to_multiset());
    }
}

/// Draws a sub-interval, then swaps each position in it with another
/// random position of the same interval: the genes outside the interval
/// stay put, and the dna keeps exactly the genes it had, rearranged.
/// Fitness and age are not touched; the caller recomputes them afterward.
pub fn scramble<U: ChromosomeT>(individual: &mut U)
    requires
        old(individual).dna_view().len() >= 2,
    ensures
        final(individual).fitness_view() == old(individual).fitness_view(),
        final(individual).age_view() == old(individual).age_view(),
        final(individual).dna_view().len() == old(individual).dna_view().len(),
        final(individual).dna_view().to_multiset() == old(individual).dna_view().to_multiset(),
        exists|a: int, b: int|
            0 <= a < b < old(individual).dna_view().len() && #[trigger] unchanged_outside(
                old(individual).dna_view(),
                final(individual).dna_view(),
                a,
                b,
            ),
{
    let len = individual.get_dna().len();
    let index_1 = rand_below(len - 1);
    let index_2 = index_1 + 1 + rand_below(len - index_1 - 1);
    let ghost a = index_1 as int;
    let ghost b = index_2 as int;
    let ghost input = individual.dna_view();

    let mut i = index_1;
    while i < index_2
        invariant
            0 <= a < b < input.len(),
            a == index_1 as int,
            b == index_2 as int,
            a <= i as int <= b,
            input == old(individual).dna_view(),
            individual.fitness_view() == old(individual).fitness_view(),
            individual.age_view() == old(individual).age_view(),
            individual.dna_view().len() == input.len(),
            individual.dna_view().to_multiset() == input.to_multiset(),
            unchanged_outside(input, individual.dna_view(), a, b),
        decreases index_2 - i,
    {
        let random_index = index_1 + rand_below(index_2 - index_1);

        let current_gene = individual.get_dna()[i];
        let random_gene = individual.get_dna()[random_index];

        proof {
            lemma_swap_multiset(individual.dna_view(), i as int, random_index as int);
        }
        individual.set_gene(i, random_gene);
        individual.set_gene(random_index, current_gene);

        i += 1;
    }
    proof {
        assert(unchanged_outside(input, individual.dna_view(), a, b));
    }
}

} // verus!

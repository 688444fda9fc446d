//! Random parent selection.

use vstd::prelude::*;
use crate::operations::selection::{mating_distinct, mating_in_range};
use crate::rng::rand_below;
use crate::traits::chromosome::ChromosomeT;

verus! {

/// Draws index pairs without replacement until fewer than two indices
/// remain; an odd population leaves one individual unmated.
pub fn random<U: ChromosomeT>(individuals: &Vec<U>) -> (r: Vec<(usize, usize)>)
    ensures
        r@.len() == individuals@.len() / 2,
        mating_in_range(r@, individuals@.len() as int),
        mating_distinct(r@),
{
    let n = individuals.len();
    let mut mating: Vec<(usize, usize)> = Vec::new();
    let mut indexes: Vec<usize> = Vec::new();

    let mut i: usize = 0;
    while i < n
        invariant
            i <= n,
            indexes@.len() == i,
            forall|k: int| 0 <= k < i ==> #[trigger] indexes@[k] == k,
        decreases n - i,
    {
        indexes.push(i);
        i += 1;
    }

    while indexes.len() >= 2
        invariant
            indexes@.len() <= n,
            forall|k: int| 0 <= k < indexes@.len() ==> #[trigger] indexes@[k] < n,
            forall|k1: int, k2: int|
                0 <= k1 < k2 < indexes@.len() ==> indexes@[k1] != indexes@[k2],
            mating_in_range(mating@, n as int),
            mating_distinct(mating@),
            forall|mi: int, pk: int|
                0 <= mi < mating@.len() && 0 <= pk < indexes@.len() ==> (#[trigger] mating@[mi]).0
                    != (#[trigger] indexes@[pk]) && mating@[mi].1 != indexes@[pk],
            2 * mating@.len() + indexes@.len() == n,
        decreases indexes@.len(),
    {
        let pool_len = indexes.len();
        let random_index_1 = if pool_len > 1 {
            rand_below(pool_len - 1)
        } else {
            0
        };
        let index_value_1 = indexes[random_index_1];
        let ghost pre_1 = indexes@;
        indexes.remove(random_index_1);
        proof {
            pre_1.remove_ensures(random_index_1 as int);
            assert(forall|k: int|
                0 <= k < indexes@.len() ==> #[trigger] indexes@[k] == (if k < random_index_1 {
                    pre_1[k]
                } else {
                    pre_1[k + 1]
                }));
        }

        let pool_len_2 = indexes.len();
        let random_index_2 = if pool_len_2 > 1 {
            rand_below(pool_len_2 - 1)
        } else {
            0
        };
        let index_value_2 = indexes[random_index_2];
        let ghost pre_2 = indexes@;
        indexes.remove(random_index_2);
        proof {
            pre_2.remove_ensures(random_index_2 as int);
            assert(forall|k: int|
                0 <= k < indexes@.len() ==> #[trigger] indexes@[k] == (if k < random_index_2 {
                    pre_2[k]
                } else {
                    pre_2[k + 1]
                }));
            assert(index_value_1 != index_value_2);
        }

        mating.push((index_value_1, index_value_2));
    }
    proof {
        assert(mating@.len() == n / 2);
    }
    mating
}

} // verus!

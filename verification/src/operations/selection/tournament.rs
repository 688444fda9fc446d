//! Tournament parent selection: repeated two-candidate fights over a
//! shrinking pool of slots.

use vstd::prelude::*;
use crate::operations::selection::{mating_distinct, mating_in_range};
use crate::rng::rand_below;
use crate::traits::chromosome::ChromosomeT;

verus! {

/// The couples count the multithreaded variant actually works: clamped to
/// half the population when too many were asked for.
pub open spec fn multithread_couples(n: int, couples: int) -> int {
    if 2 * couples > n {
        n / 2
    } else {
        couples
    }
}

/// How many couples the multithreaded variant emits for a population of
/// `n`: the worker count is clamped to the couples count and rounded down
/// to an even number, every worker fights an equal chunk of the slots,
/// and the two winner lists zip into one couple per position.
pub open spec fn multithread_mating_len(n: int, couples: int, number_of_threads: int) -> int {
    let clamped = if number_of_threads > couples {
        couples
    } else {
        number_of_threads
    };
    let workers = if clamped % 2 == 1 {
        clamped - 1
    } else {
        clamped
    };
    (workers / 2) * ((2 * multithread_couples(n, couples)) / workers)
}

/// Tournament selection over `couples * 2` slots.  With one worker the
/// pool is fought down directly; with more, the slots are split into
/// contiguous chunks, each chunk's winners go to one of two lists by
/// worker parity, and the two lists are zipped positionally into couples.
pub fn tournament<U: ChromosomeT>(
    individuals: &Vec<U>,
    couples: i32,
    number_of_threads: i32,
) -> (r: Vec<(usize, usize)>)
    requires
        couples >= 1,
        number_of_threads >= 1,
        number_of_threads == 1 ==> 2 * (couples as int) <= individuals@.len(),
        number_of_threads > 1 ==> couples >= 2,
    ensures
        mating_in_range(r@, individuals@.len() as int),
        mating_distinct(r@),
        2 * r@.len() <= individuals@.len(),
        number_of_threads == 1 ==> r@.len() == couples as int && mating_in_range(
            r@,
            2 * (couples as int),
        ),
        number_of_threads > 1 ==> r@.len() == multithread_mating_len(
            individuals@.len() as int,
            couples as int,
            number_of_threads as int,
        ),
{
    if number_of_threads == 1 {
        tournament_single_thread(individuals, couples)
    } else {
        let number_of_threads_t = if number_of_threads > couples {
            couples
        } else {
            number_of_threads
        };
        let number_of_threads_t = if number_of_threads_t % 2 == 1 {
            number_of_threads_t - 1
        } else {
            number_of_threads_t
        };
        tournament_multithread(individuals, couples, number_of_threads_t)
    }
}

/// One worker: `couples * 2` slots fight in a shrinking pool; each draw
/// compares two random slots, keeps the fitter, removes it from the pool,
/// and winners pair up in draw order.
fn tournament_single_thread<U: ChromosomeT>(individuals: &Vec<U>, couples: i32) -> (r: Vec<
    (usize, usize),
>)
    requires
        couples >= 1,
        2 * (couples as int) <= individuals@.len(),
    ensures
        mating_in_range(r@, individuals@.len() as int),
        mating_in_range(r@, 2 * (couples as int)),
        mating_distinct(r@),
        2 * r@.len() <= individuals@.len(),
        r@.len() == couples as int,
{
    let n = individuals.len();
    let total: usize = 2 * (couples as usize);
    let mut mating: Vec<(usize, usize)> = Vec::new();
    let mut indexes: Vec<usize> = Vec::new();

    let mut i: usize = 0;
    while i < total
        invariant
            i <= total,
            indexes@.len() == i,
            forall|k: int| 0 <= k < i ==> #[trigger] indexes@[k] == k,
        decreases total - i,
    {
        indexes.push(i);
        i += 1;
    }

    let mut parent_1: Option<usize> = None;
    let mut it: usize = 0;
    while it < total
        invariant
            it <= total,
            total <= n,
            n == individuals@.len(),
            indexes@.len() == total - it,
            forall|k: int| 0 <= k < indexes@.len() ==> #[trigger] indexes@[k] < total,
            forall|k1: int, k2: int|
                0 <= k1 < k2 < indexes@.len() ==> indexes@[k1] != indexes@[k2],
            mating_in_range(mating@, n as int),
            mating_in_range(mating@, total as int),
            mating_distinct(mating@),
            forall|mi: int, pk: int|
                0 <= mi < mating@.len() && 0 <= pk < indexes@.len() ==> (#[trigger] mating@[mi]).0
                    != (#[trigger] indexes@[pk]) && mating@[mi].1 != indexes@[pk],
            parent_1.is_some() == (it % 2 == 1),
            mating@.len() == it / 2,
            parent_1 matches Some(p) ==> p < total && (forall|pk: int|
                0 <= pk < indexes@.len() ==> p != #[trigger] indexes@[pk]) && (forall|mi: int|
                0 <= mi < mating@.len() ==> p != (#[trigger] mating@[mi]).0 && p
                    != mating@[mi].1),
        decreases total - it,
    {
        let pool_len = indexes.len();
        let index_1 = rand_below(pool_len);
        let final_index_1 = indexes[index_1];

        let index_2 = rand_below(pool_len);
        let final_index_2 = indexes[index_2];

        // The fight: the fitter of the two slots wins and leaves the pool.
        let (final_index, index_to_delete) = if individuals[final_index_1].get_fitness()
            >= individuals[final_index_2].get_fitness() {
            (final_index_1, index_1)
        } else {
            (final_index_2, index_2)
        };

        match parent_1 {
            None => {
                parent_1 = Some(final_index);
            },
            Some(p) => {
                mating.push((p, final_index));
                parent_1 = None;
            },
        }

        let ghost pre = indexes@;
        indexes.remove(index_to_delete);
        proof {
            pre.remove_ensures(index_to_delete as int);
            assert(forall|k: int|
                0 <= k < indexes@.len() ==> #[trigger] indexes@[k] == (if k < index_to_delete {
                    pre[k]
                } else {
                    pre[k + 1]
                }));
        }
        it += 1;
    }
    mating
}

/// Several workers: the slots are split into contiguous chunks of equal
/// size, each chunk is fought down independently against a read-only view
/// of the population, winners land in one of two lists by worker parity,
/// and the two lists are zipped positionally into the mating map — a
/// couple may thus join two different chunks' winners.
fn tournament_multithread<U: ChromosomeT>(
    individuals: &Vec<U>,
    couples: i32,
    number_of_threads: i32,
) -> (r: Vec<(usize, usize)>)
    requires
        couples >= 1,
        number_of_threads >= 2,
        number_of_threads % 2 == 0,
    ensures
        mating_in_range(r@, individuals@.len() as int),
        mating_distinct(r@),
        2 * r@.len() <= individuals@.len(),
        r@.len() == ((number_of_threads as int) / 2) * ((2 * multithread_couples(
            individuals@.len() as int,
            couples as int,
        )) / (number_of_threads as int)),
{
    let n = individuals.len();
    let couples_c: usize = if 2 * (couples as usize) > n {
        n / 2
    } else {
        couples as usize
    };
    let total: usize = 2 * couples_c;
    let nt: usize = number_of_threads as usize;
    let jump: usize = total / nt;

    let mut left: Vec<usize> = Vec::new();
    let mut right: Vec<usize> = Vec::new();

    let mut thread: usize = 0;
    let mut start_index: usize = 0;
    while thread < nt
        invariant
            thread <= nt,
            nt >= 2,
            total <= n,
            n == individuals@.len(),
            jump == (total as int) / (nt as int),
            start_index == thread * jump,
            start_index <= total,
            left@.len() == (thread / 2) * jump,
            right@.len() == ((thread + 1) / 2) * jump,
            forall|k: int| 0 <= k < left@.len() ==> #[trigger] left@[k] < start_index,
            forall|k: int| 0 <= k < right@.len() ==> #[trigger] right@[k] < start_index,
            forall|k1: int, k2: int| 0 <= k1 < k2 < left@.len() ==> left@[k1] != left@[k2],
            forall|k1: int, k2: int| 0 <= k1 < k2 < right@.len() ==> right@[k1] != right@[k2],
            forall|k1: int, k2: int|
                0 <= k1 < left@.len() && 0 <= k2 < right@.len() ==> (#[trigger] left@[k1]) != (
                #[trigger] right@[k2]),
        decreases nt - thread,
    {
        proof {
            assert((thread + 1) * jump <= nt * jump) by (nonlinear_arith)
                requires
                    0 <= jump && thread + 1 <= nt,
            ;
            assert((thread as int) * jump + jump == (thread + 1) * jump) by (nonlinear_arith);
            assert(nt * jump <= total) by {
                vstd::arithmetic::div_mod::lemma_fundamental_div_mod(total as int, nt as int);
                assert(nt as int * (total as int / nt as int) <= total as int) by (
                nonlinear_arith)
                    requires
                        nt >= 1,
                        total >= 0,
                        total as int % nt as int >= 0,
                        total as int == (nt as int) * (total as int / nt as int) + (
                        total as int % nt as int),
                ;
            }
        }
        let end_index = start_index + jump;

        // This chunk's private pool of slots.
        let mut pool: Vec<usize> = Vec::new();
        let mut j = start_index;
        while j < end_index
            invariant
                start_index <= j <= end_index,
                pool@.len() == j - start_index,
                forall|k: int|
                    0 <= k < pool@.len() ==> #[trigger] pool@[k] == start_index + k,
            decreases end_index - j,
        {
            pool.push(j);
            j += 1;
        }

        // Fight the chunk down: every slot eventually wins one draw.
        let chunk_len = pool.len();
        let ghost pre_left = left@;
        let ghost pre_right = right@;
        let mut d: usize = 0;
        while d < chunk_len
            invariant
                d <= chunk_len,
                total <= n,
                n == individuals@.len(),
                start_index + chunk_len <= total,
                pool@.len() == chunk_len - d,
                forall|k: int|
                    0 <= k < pool@.len() ==> start_index <= #[trigger] pool@[k] < start_index
                        + chunk_len,
                forall|k1: int, k2: int| 0 <= k1 < k2 < pool@.len() ==> pool@[k1] != pool@[k2],
                thread % 2 == 1 ==> right@ == pre_right && left@.len() == pre_left.len() + d
                    && (forall|k: int|
                    0 <= k < pre_left.len() ==> #[trigger] left@[k] == pre_left[k]) && (forall|
                    k: int,
                |
                    pre_left.len() <= k < left@.len() ==> start_index <= #[trigger] left@[k]
                        < start_index + chunk_len),
                thread % 2 == 0 ==> left@ == pre_left && right@.len() == pre_right.len() + d && (
                forall|k: int|
                    0 <= k < pre_right.len() ==> #[trigger] right@[k] == pre_right[k]) && (forall|
                    k: int,
                |
                    pre_right.len() <= k < right@.len() ==> start_index <= #[trigger] right@[k]
                        < start_index + chunk_len),
                thread % 2 == 1 ==> forall|k1: int, k2: int|
                    pre_left.len() <= k1 < k2 < left@.len() ==> left@[k1] != left@[k2],
                thread % 2 == 0 ==> forall|k1: int, k2: int|
                    pre_right.len() <= k1 < k2 < right@.len() ==> right@[k1] != right@[k2],
                thread % 2 == 1 ==> forall|k1: int, k2: int|
                    pre_left.len() <= k1 < left@.len() && 0 <= k2 < pool@.len() ==> (
                    #[trigger] left@[k1]) != (#[trigger] pool@[k2]),
                thread % 2 == 0 ==> forall|k1: int, k2: int|
                    pre_right.len() <= k1 < right@.len() && 0 <= k2 < pool@.len() ==> (
                    #[trigger] right@[k1]) != (#[trigger] pool@[k2]),
            decreases chunk_len - d,
        {
            let pool_len = pool.len();
            let index_1 = rand_below(pool_len);
            let final_index_1 = pool[index_1];

            let index_2 = rand_below(pool_len);
            let final_index_2 = pool[index_2];

            let (winner, index_to_delete) = if individuals[final_index_1].get_fitness()
                >= individuals[final_index_2].get_fitness() {
                (final_index_1, index_1)
            } else {
                (final_index_2, index_2)
            };

            if thread % 2 == 1 {
                left.push(winner);
            } else {
                right.push(winner);
            }

            let ghost pre = pool@;
            pool.remove(index_to_delete);
            proof {
                pre.remove_ensures(index_to_delete as int);
                assert(forall|k: int|
                    0 <= k < pool@.len() ==> #[trigger] pool@[k] == (if k < index_to_delete {
                        pre[k]
                    } else {
                        pre[k + 1]
                    }));
            }
            d += 1;
        }

        proof {
            if thread % 2 == 1 {
                assert(left@.len() == (thread / 2) * jump + jump);
                assert(((thread + 1) / 2) * jump == (thread / 2) * jump + jump) by (
                nonlinear_arith)
                    requires
                        thread % 2 == 1,
                        jump >= 0,
                        thread >= 0,
                ;
            } else {
                assert(((thread + 2) / 2) * jump == ((thread + 1) / 2) * jump + jump) by (
                nonlinear_arith)
                    requires
                        thread % 2 == 0,
                        jump >= 0,
                        thread >= 0,
                ;
            }
        }
        thread += 1;
        start_index = end_index;
    }

    // Zip the two winner lists positionally into couples.
    let mut mating: Vec<(usize, usize)> = Vec::new();
    let pairs = left.len();
    proof {
        assert((nt / 2) * jump == ((nt + 1) / 2) * jump) by (nonlinear_arith)
            requires
                nt % 2 == 0,
                nt >= 0,
                jump >= 0,
        ;
        assert(2 * ((nt / 2) * (total as int / nt as int)) <= total) by {
            vstd::arithmetic::div_mod::lemma_fundamental_div_mod(total as int, nt as int);
            assert(2 * ((nt / 2) * (total as int / nt as int)) == nt * (total as int
                / nt as int) && nt as int * (total as int / nt as int) <= total as int) by (
            nonlinear_arith)
                requires
                    nt >= 1,
                    nt % 2 == 0,
                    total >= 0,
                    total as int % nt as int >= 0,
                    total as int == (nt as int) * (total as int / nt as int) + (total as int
                        % nt as int),
            ;
        }
    }
    let mut item: usize = 0;
    while item < pairs
        invariant
            item <= pairs,
            pairs == left@.len(),
            pairs <= right@.len(),
            n == individuals@.len(),
            forall|k: int| 0 <= k < left@.len() ==> #[trigger] left@[k] < n,
            forall|k: int| 0 <= k < right@.len() ==> #[trigger] right@[k] < n,
            forall|k1: int, k2: int| 0 <= k1 < k2 < left@.len() ==> left@[k1] != left@[k2],
            forall|k1: int, k2: int| 0 <= k1 < k2 < right@.len() ==> right@[k1] != right@[k2],
            forall|k1: int, k2: int|
                0 <= k1 < left@.len() && 0 <= k2 < right@.len() ==> (#[trigger] left@[k1]) != (
                #[trigger] right@[k2]),
            mating@.len() == item,
            forall|k: int|
                0 <= k < item ==> #[trigger] mating@[k] == (left@[k], right@[k]),
        decreases pairs - item,
    {
        mating.push((left[item], right[item]));
        item += 1;
    }
    proof {
        assert(mating_in_range(mating@, n as int));
        assert(mating_distinct(mating@));
    }
    mating
}

} // verus!

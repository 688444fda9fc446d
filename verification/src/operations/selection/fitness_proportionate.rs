//! Fitness-proportionate parent selection: roulette wheel and stochastic
//! universal sampling.  Both require nonnegative fitness with a positive
//! total, and both emit pairs in increasing index order.

use vstd::prelude::*;
use crate::operations::selection::{mating_in_range, mating_increasing};
use crate::population::sum_fitness;
use crate::rng::rand_below_i64;
use crate::traits::chromosome::ChromosomeT;

verus! {

/// The sum of nonnegative scores is nonnegative.
proof fn lemma_sum_fitness_nonneg<U: ChromosomeT>(s: Seq<U>)
    requires
        forall|k: int| 0 <= k < s.len() ==> (#[trigger] s[k]).fitness_view() >= 0,
    ensures
        sum_fitness(s) >= 0,
    decreases s.len(),
{
    if s.len() > 0 {
        assert(forall|k: int|
            0 <= k < s.drop_last().len() ==> (#[trigger] s.drop_last()[k]).fitness_view() >= 0);
        lemma_sum_fitness_nonneg(s.drop_last());
    }
}

/// With nonnegative scores, every prefix sum lies between zero and the
/// whole sum.
proof fn lemma_sum_fitness_prefix<U: ChromosomeT>(s: Seq<U>, i: int)
    requires
        0 <= i <= s.len(),
        forall|k: int| 0 <= k < s.len() ==> (#[trigger] s[k]).fitness_view() >= 0,
    ensures
        0 <= sum_fitness(s.take(i)) <= sum_fitness(s),
    decreases s.len() - i,
{
    assert(forall|k: int| 0 <= k < i ==> (#[trigger] s.take(i)[k]).fitness_view() >= 0);
    lemma_sum_fitness_nonneg(s.take(i));
    if i == s.len() {
        assert(s.take(i) =~= s);
    } else {
        lemma_sum_fitness_prefix(s, i + 1);
        assert(s.take(i + 1).drop_last() =~= s.take(i));
        assert(s.take(i + 1).last() == s[i]);
    }
}

/// One point of the cumulative curve, scaled by twice the couples count.
fn scale_point(value: i64, factor: usize) -> (r: i128)
    requires
        factor <= 4294967294,
    ensures
        r == (value as int) * (factor as int),
{
    proof {
        assert(-(4294967295 * (i64::MAX as int + 1)) <= (value as int) * (factor as int)
            <= 4294967294 * (i64::MAX as int)) by (nonlinear_arith)
            requires
                i64::MIN <= value <= i64::MAX,
                0 <= factor <= 4294967294,
        ;
    }
    (value as i128) * (factor as i128)
}

/// The walk state after the first `i` indices, for the given draws: the
/// pairs emitted so far and the candidate waiting for a mate, if any.
/// Index `j` becomes a candidate when draw `j` falls below its score, and
/// candidates pair in emission order.
pub open spec fn roulette_state<U: ChromosomeT>(s: Seq<U>, draws: Seq<i64>, i: int) -> (
    Seq<(usize, usize)>,
    Option<usize>,
)
    decreases i,
{
    if i <= 0 {
        (Seq::empty(), None)
    } else {
        let (m, p) = roulette_state(s, draws, i - 1);
        if draws[i - 1] < s[i - 1].fitness_view() {
            match p {
                None => (m, Some((i - 1) as usize)),
                Some(q) => (m.push((q, (i - 1) as usize)), None),
            }
        } else {
            (m, p)
        }
    }
}

/// The walk state up to `i` reads only the first `i` draws.
proof fn lemma_roulette_state_push<U: ChromosomeT>(s: Seq<U>, draws: Seq<i64>, d: i64, i: int)
    requires
        i <= draws.len(),
    ensures
        roulette_state(s, draws.push(d), i) == roulette_state(s, draws, i),
    decreases i,
{
    if i > 0 {
        lemma_roulette_state_push(s, draws, d, i - 1);
    }
}

/// The whole mating map the walk builds from the given draws.
pub open spec fn roulette_map<U: ChromosomeT>(s: Seq<U>, draws: Seq<i64>) -> Seq<(usize, usize)> {
    roulette_state(s, draws, s.len() as int).0
}

/// `m` is the map some sequence of per-index draws below the fitness
/// total produces.
pub open spec fn roulette_outcome<U: ChromosomeT>(s: Seq<U>, m: Seq<(usize, usize)>) -> bool {
    exists|draws: Seq<i64>|
        #![trigger roulette_map(s, draws)]
        draws.len() == s.len() && (forall|k: int|
            0 <= k < draws.len() ==> 0 <= #[trigger] draws[k] < sum_fitness(s)) && m
            == roulette_map(s, draws)
}

/// A single pass over the population: each individual becomes a candidate
/// parent with probability proportional to its share of the fitness total
/// (its draw falls below its own score), and candidate parents are paired
/// in emission order: the map is exactly [`roulette_map`] of the draws.
/// Every pair relates two distinct indices, in increasing order across
/// the whole map.
pub fn roulette_wheel_selection<U: ChromosomeT>(individuals: &Vec<U>) -> (r: Vec<(usize, usize)>)
    requires
        forall|i: int|
            0 <= i < individuals@.len() ==> (#[trigger] individuals@[i]).fitness_view() >= 0,
        0 < sum_fitness(individuals@) <= i64::MAX,
    ensures
        mating_increasing(r@),
        mating_in_range(r@, individuals@.len() as int),
        roulette_outcome(individuals@, r@),
{
    let n = individuals.len();
    let mut total_fitness: i64 = 0;
    let mut g: usize = 0;
    while g < n
        invariant
            g <= n,
            n == individuals@.len(),
            forall|i: int|
                0 <= i < individuals@.len() ==> (#[trigger] individuals@[i]).fitness_view() >= 0,
            0 < sum_fitness(individuals@) <= i64::MAX,
            total_fitness == sum_fitness(individuals@.take(g as int)),
            0 <= total_fitness,
        decreases n - g,
    {
        proof {
            lemma_sum_fitness_prefix(individuals@, g + 1);
            assert(individuals@.take(g + 1).drop_last() =~= individuals@.take(g as int));
            assert(individuals@.take(g + 1).last() == individuals@[g as int]);
        }
        total_fitness = total_fitness + individuals[g].get_fitness();
        g += 1;
    }
    proof {
        assert(individuals@.take(n as int) =~= individuals@);
    }

    let mut mating: Vec<(usize, usize)> = Vec::new();
    let mut parent_1: Option<usize> = None;
    let ghost mut draws: Seq<i64> = Seq::empty();

    let mut index: usize = 0;
    while index < n
        invariant
            index <= n,
            n == individuals@.len(),
            total_fitness == sum_fitness(individuals@),
            0 < total_fitness,
            mating_increasing(mating@),
            mating_in_range(mating@, n as int),
            forall|k: int| 0 <= k < mating@.len() ==> (#[trigger] mating@[k]).1 < index,
            parent_1 matches Some(p) ==> p < index && (forall|k: int|
                0 <= k < mating@.len() ==> (#[trigger] mating@[k]).1 < p),
            draws.len() == index,
            forall|k: int| 0 <= k < draws.len() ==> 0 <= #[trigger] draws[k] < total_fitness,
            roulette_state(individuals@, draws, index as int) == (mating@, parent_1),
        decreases n - index,
    {
        let draw = rand_below_i64(total_fitness);
        proof {
            lemma_roulette_state_push(individuals@, draws, draw, index as int);
            draws = draws.push(draw);
        }
        if draw < individuals[index].get_fitness() {
            match parent_1 {
                None => {
                    parent_1 = Some(index);
                },
                Some(p) => {
                    mating.push((p, index));
                    parent_1 = None;
                },
            }
        }
        index += 1;
    }

    proof {
        assert(draws.len() == individuals@.len() && (forall|k: int|
            0 <= k < draws.len() ==> 0 <= #[trigger] draws[k] < sum_fitness(individuals@))
            && mating@ == roulette_map(individuals@, draws));
    }
    mating
}

/// The pointer walk's state after the first `i` pointers, for the drawn
/// starting offset `start` (on the curve scaled by `2 * couples`): the
/// pairs emitted so far, whether a couple is half-formed, and its first
/// mate.  Pointer `j` sits at `start + j * total`; it hits index `j` when
/// it falls inside `j`'s segment of the scaled curve (from the last index
/// on, the curve's end no longer caps the segment), and consecutive hits
/// pair up.
pub open spec fn sus_state<U: ChromosomeT>(s: Seq<U>, couples: int, start: int, i: int) -> (
    Seq<(usize, usize)>,
    bool,
    usize,
)
    decreases i,
{
    if i <= 0 {
        (Seq::empty(), false, 0usize)
    } else {
        let (m, completed, first) = sus_state(s, couples, start, i - 1);
        let j = i - 1;
        let current_point = start + j * sum_fitness(s);
        let end_of_individuals = j + 1 >= s.len();
        let segment_low = sum_fitness(s.take(j + 1)) * (2 * couples);
        if !end_of_individuals && current_point >= segment_low && current_point < sum_fitness(
            s.take(j + 2),
        ) * (2 * couples) {
            if completed {
                (m.push((first, j as usize)), false, first)
            } else {
                (m, true, j as usize)
            }
        } else if end_of_individuals && current_point >= segment_low {
            if completed {
                (m.push((first, j as usize)), false, first)
            } else {
                (m, false, j as usize)
            }
        } else {
            (m, completed, first)
        }
    }
}

/// The whole mating map the pointer walk builds from the drawn offset.
pub open spec fn sus_map<U: ChromosomeT>(s: Seq<U>, couples: int, start: int) -> Seq<
    (usize, usize),
> {
    let bound = if 2 * couples < s.len() {
        2 * couples
    } else {
        s.len() as int
    };
    sus_state(s, couples, start, bound).0
}

/// `m` is the map some starting offset below the fitness total produces.
pub open spec fn sus_outcome<U: ChromosomeT>(s: Seq<U>, couples: int, m: Seq<(usize, usize)>) -> bool {
    exists|start: int|
        #![trigger sus_map(s, couples, start)]
        0 <= start < sum_fitness(s) && m == sus_map(s, couples, start)
}

/// Builds the cumulative fitness curve in input order, samples evenly
/// spaced pointers from one random offset within one spacing interval, and
/// walks the curve once pairing consecutive hits.  Arithmetic is carried
/// out on the curve scaled by twice the couples count, so the evenly
/// spaced pointers sit exactly one fitness total apart.
pub fn stochastic_universal_sampling<U: ChromosomeT>(individuals: &Vec<U>, couples: i32) -> (r:
    Vec<(usize, usize)>)
    requires
        couples >= 1,
        forall|i: int|
            0 <= i < individuals@.len() ==> (#[trigger] individuals@[i]).fitness_view() >= 0,
        0 < sum_fitness(individuals@) <= i64::MAX,
    ensures
        mating_increasing(r@),
        mating_in_range(r@, individuals@.len() as int),
        2 * r@.len() <= 2 * (couples as int),
        sus_outcome(individuals@, couples as int, r@),
{
    let n = individuals.len();
    let individual_couples: usize = 2 * (couples as usize);

    // 1- The cumulative selection curve, in input order.
    let mut selection_probabilities: Vec<i64> = Vec::new();
    let mut total: i64 = 0;
    let mut g: usize = 0;
    while g < n
        invariant
            g <= n,
            n == individuals@.len(),
            forall|i: int|
                0 <= i < individuals@.len() ==> (#[trigger] individuals@[i]).fitness_view() >= 0,
            0 < sum_fitness(individuals@) <= i64::MAX,
            total == sum_fitness(individuals@.take(g as int)),
            0 <= total,
            selection_probabilities@.len() == g,
            forall|k: int|
                0 <= k < g ==> #[trigger] selection_probabilities@[k] == sum_fitness(
                    individuals@.take(k + 1),
                ),
        decreases n - g,
    {
        proof {
            lemma_sum_fitness_prefix(individuals@, g + 1);
            assert(individuals@.take(g + 1).drop_last() =~= individuals@.take(g as int));
            assert(individuals@.take(g + 1).last() == individuals@[g as int]);
        }
        total = total + individuals[g].get_fitness();
        selection_probabilities.push(total);
        g += 1;
    }
    proof {
        assert(individuals@.take(n as int) =~= individuals@);
    }

    // 2- One random starting offset within one pointer spacing; on the
    // scaled curve the spacing is exactly the fitness total.
    let starting_point: i64 = rand_below_i64(total);

    // 3- Parent identification: walk the pointers, pairing consecutive
    // hits.
    let mut mating: Vec<(usize, usize)> = Vec::new();
    let mut couple_completed = false;
    let mut first_mate: usize = 0;

    let bound = if individual_couples < n {
        individual_couples
    } else {
        n
    };
    let mut i: usize = 0;
    while i < bound
        invariant
            i <= bound,
            bound <= n,
            bound <= individual_couples,
            individual_couples == 2 * (couples as int),
            individual_couples <= 4294967294,
            couples >= 1,
            0 < total,
            n == individuals@.len(),
            selection_probabilities@.len() == n,
            mating_increasing(mating@),
            mating_in_range(mating@, n as int),
            forall|k: int| 0 <= k < mating@.len() ==> (#[trigger] mating@[k]).1 < i,
            couple_completed ==> first_mate < i && (forall|k: int|
                0 <= k < mating@.len() ==> (#[trigger] mating@[k]).1 < first_mate),
            2 * mating@.len() + (if couple_completed {
                1int
            } else {
                0int
            }) <= i,
            total == sum_fitness(individuals@),
            0 <= starting_point < total,
            forall|k: int|
                0 <= k < n ==> #[trigger] selection_probabilities@[k] == sum_fitness(
                    individuals@.take(k + 1),
                ),
            (mating@, couple_completed, first_mate) == sus_state(
                individuals@,
                couples as int,
                starting_point as int,
                i as int,
            ),
        decreases bound - i,
    {
        let end_of_individuals = i + 1 >= n;
        proof {
            assert(0 <= (i as int) * (total as int) <= 4294967294 * (i64::MAX as int)) by (
            nonlinear_arith)
                requires
                    0 <= i as int <= 4294967294,
                    0 <= total as int <= i64::MAX,
            ;
        }
        let current_point: i128 = (starting_point as i128) + (i as i128) * (total as i128);

        if !end_of_individuals && current_point >= scale_point(
            selection_probabilities[i],
            individual_couples,
        ) && current_point < scale_point(selection_probabilities[i + 1], individual_couples) {
            if couple_completed {
                mating.push((first_mate, i));
            } else {
                first_mate = i;
            }
            couple_completed = !couple_completed;
        } else if end_of_individuals && current_point >= scale_point(
            selection_probabilities[i],
            individual_couples,
        ) {
            if couple_completed {
                mating.push((first_mate, i));
                couple_completed = !couple_completed;
            } else {
                first_mate = i;
            }
        }

        i += 1;
    }

    proof {
        assert(mating@ == sus_map(individuals@, couples as int, starting_point as int));
    }
    mating
}

} // verus!

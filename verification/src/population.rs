//! The population: the individuals under evolution plus streaming fitness
//! statistics for adaptive mode.
//!
//! `f_avg` and `f_max` are maintained incrementally on insertion when the
//! `aga` flag is passed; [`Population::aga_init`] is the explicit full-scan
//! initializer that establishes the baseline once, before incremental
//! updates are trusted.  The two are never chosen between silently.

use vstd::prelude::*;
use crate::traits::chromosome::ChromosomeT;

verus! {

/// Truncating (Rust-style) integer division, written over the Euclidean
/// division of spec arithmetic.
pub open spec fn div_trunc(a: int, b: int) -> int {
    if a >= 0 {
        a / b
    } else {
        -((-a) / b)
    }
}

/// The sum of the fitness scores of a sequence of individuals.
pub open spec fn sum_fitness<U: ChromosomeT>(s: Seq<U>) -> int
    decreases s.len(),
{
    if s.len() == 0 {
        0
    } else {
        sum_fitness(s.drop_last()) + s.last().fitness_view()
    }
}

/// The largest of `acc` and the fitness scores of `s`.
pub open spec fn fold_max_fitness<U: ChromosomeT>(acc: int, s: Seq<U>) -> int
    decreases s.len(),
{
    if s.len() == 0 {
        acc
    } else {
        let m = fold_max_fitness(acc, s.drop_last());
        if s.last().fitness_view() > m {
            s.last().fitness_view() as int
        } else {
            m
        }
    }
}

/// The largest fitness score among the individuals of a non-empty
/// sequence.
pub open spec fn max_fitness<U: ChromosomeT>(s: Seq<U>) -> int
    recommends
        s.len() >= 1,
    decreases s.len(),
{
    if s.len() <= 1 {
        s[0].fitness_view() as int
    } else {
        let m = max_fitness(s.drop_last());
        if s.last().fitness_view() > m {
            s.last().fitness_view() as int
        } else {
            m
        }
    }
}

/// The running average after pushing a batch with fitness sum `batch_sum`
/// and size `batch_len` onto a population of `n` individuals whose running
/// average is `avg`: `(avg * n + batch_sum) / (n + batch_len)`, truncated.
pub open spec fn avg_after_push(avg: int, n: int, batch_sum: int, batch_len: int) -> int {
    div_trunc(avg * n + batch_sum, n + batch_len)
}

pub struct Population<U: ChromosomeT> {
    /// The individuals or members of the population.
    pub individuals: Vec<U>,
    /// Generation provenance recorded by `add_individual_gn`, parallel to
    /// the individuals it inserted.
    pub generation_numbers: Vec<i32>,
    /// Running average fitness (adaptive mode only).
    pub f_avg: i64,
    /// Running largest fitness, raised on insertion (adaptive mode only).
    pub f_max: i64,
}

proof fn lemma_sum_fitness_bound<U: ChromosomeT>(s: Seq<U>)
    ensures
        -(s.len() as int) * (i64::MAX as int + 1) <= sum_fitness(s) <= (s.len() as int) * (
        i64::MAX as int),
    decreases s.len(),
{
    if s.len() > 0 {
        lemma_sum_fitness_bound(s.drop_last());
        assert((s.len() - 1) * (i64::MAX as int) + i64::MAX == (s.len() as int) * (i64::MAX as int))
            by (nonlinear_arith);
        assert(-((s.len() - 1) as int) * (i64::MAX as int + 1) - (i64::MAX as int + 1) == -(
        s.len() as int) * (i64::MAX as int + 1)) by (nonlinear_arith);
    }
}

proof fn lemma_fold_max_bound<U: ChromosomeT>(acc: int, s: Seq<U>)
    requires
        i64::MIN <= acc <= i64::MAX,
    ensures
        i64::MIN <= fold_max_fitness(acc, s) <= i64::MAX,
        acc <= fold_max_fitness(acc, s),
    decreases s.len(),
{
    if s.len() > 0 {
        lemma_fold_max_bound(acc, s.drop_last());
    }
}

/// One truncating division, with the quotient shown to fit an `i64` from
/// the batch bounds the callers hold.
fn avg_quotient(avg: i64, n: usize, batch_sum: i128, batch_len: usize) -> (r: i64)
    requires
        n + batch_len >= 1,
        n + batch_len <= usize::MAX,
        -(batch_len as int) * (i64::MAX as int + 1) <= batch_sum <= (batch_len as int) * (
        i64::MAX as int),
    ensures
        r == avg_after_push(avg as int, n as int, batch_sum as int, batch_len as int),
{
    proof {
        assert((avg as int) * (n as int) + batch_sum <= (n as int + batch_len as int) * (
        i64::MAX as int) && (avg as int) * (n as int) + batch_sum >= -(n as int
            + batch_len as int) * (i64::MAX as int + 1)) by (nonlinear_arith)
            requires
                i64::MIN <= avg <= i64::MAX,
                -(batch_len as int) * (i64::MAX as int + 1) <= batch_sum <= (batch_len as int) * (
                i64::MAX as int),
                i64::MIN as int == -(i64::MAX as int + 1),
                n >= 0,
                batch_len >= 0,
        ;
        assert(i128::MIN <= (avg as int) * (n as int) <= i128::MAX) by (nonlinear_arith)
            requires
                i64::MIN <= avg <= i64::MAX,
                0 <= n <= usize::MAX,
        ;
        assert((n as int + batch_len as int) * (i64::MAX as int) < i128::MAX && -(n as int
            + batch_len as int) * (i64::MAX as int + 1) >= i128::MIN) by (nonlinear_arith)
            requires
                0 <= n as int + batch_len as int <= usize::MAX,
        ;
    }
    let total: i128 = (avg as i128) * (n as i128) + batch_sum;
    let d: i128 = (n as i128) + (batch_len as i128);
    let q: i128 = total / d;
    proof {
        let dd = d as int;
        let m = i64::MAX as int;
        vstd::arithmetic::div_mod::lemma_div_multiples_vanish(m, dd);
        vstd::arithmetic::div_mod::lemma_div_multiples_vanish(m + 1, dd);
        assert(dd * m == (n as int + batch_len as int) * (i64::MAX as int)) by (nonlinear_arith)
            requires
                dd == n as int + batch_len as int,
                m == i64::MAX as int,
        ;
        assert(dd * (m + 1) == (n as int + batch_len as int) * (i64::MAX as int + 1))
            by (nonlinear_arith)
            requires
                dd == n as int + batch_len as int,
                m == i64::MAX as int,
        ;
        if total >= 0 {
            vstd::arithmetic::div_mod::lemma_div_is_ordered(total as int, dd * m, dd);
            vstd::arithmetic::div_mod::lemma_div_pos_is_pos(total as int, dd);
        } else {
            vstd::arithmetic::div_mod::lemma_div_is_ordered(-(total as int), dd * (m + 1), dd);
            vstd::arithmetic::div_mod::lemma_div_pos_is_pos(-(total as int), dd);
        }
    }
    q as i64
}

impl<U: ChromosomeT> Population<U> {
    /// A new empty population.
    pub fn new_empty() -> (r: Population<U>)
        ensures
            r.individuals@ =~= Seq::<U>::empty(),
            r.generation_numbers@ =~= Seq::<i32>::empty(),
            r.f_avg == 0,
            r.f_max == 0,
    {
        Population { individuals: Vec::new(), generation_numbers: Vec::new(), f_avg: 0, f_max: 0 }
    }

    /// A new population with the given individuals as members.
    pub fn new(individuals: Vec<U>) -> (r: Population<U>)
        ensures
            r.individuals@ == individuals@,
            r.generation_numbers@ =~= Seq::<i32>::empty(),
            r.f_avg == 0,
            r.f_max == 0,
    {
        Population { individuals, generation_numbers: Vec::new(), f_avg: 0, f_max: 0 }
    }

    /// Full-scan recompute of `f_avg` and `f_max`, required once before
    /// adaptive mode begins trusting the incremental updates: `f_max`
    /// becomes the true largest score, `f_avg` the truncated mean.
    pub fn aga_init(&mut self)
        requires
            old(self).individuals@.len() >= 1,
        ensures
            final(self).individuals@ == old(self).individuals@,
            final(self).generation_numbers@ == old(self).generation_numbers@,
            final(self).f_max == max_fitness(old(self).individuals@),
            final(self).f_avg == div_trunc(
                sum_fitness(old(self).individuals@),
                old(self).individuals@.len() as int,
            ),
    {
        self.f_max = self.individuals[0].get_fitness();
        let mut sum: i128 = 0;
        let n = self.individuals.len();
        let mut i: usize = 0;
        while i < n
            invariant
                i <= n,
                n >= 1,
                n == self.individuals@.len(),
                self.individuals@ == old(self).individuals@,
                self.generation_numbers@ == old(self).generation_numbers@,
                sum == sum_fitness(self.individuals@.take(i as int)),
                i == 0 ==> self.f_max == self.individuals@[0].fitness_view(),
                i >= 1 ==> self.f_max == max_fitness(self.individuals@.take(i as int)),
                -(i as int) * (i64::MAX as int + 1) <= sum <= (i as int) * (i64::MAX as int),
            decreases n - i,
        {
            let f = self.individuals[i].get_fitness();
            proof {
                let taken = self.individuals@.take(i as int + 1);
                assert(taken.drop_last() =~= self.individuals@.take(i as int));
                lemma_sum_fitness_bound(taken);
                assert(taken.last() == self.individuals@[i as int]);
            }
            if f > self.f_max {
                self.f_max = f;
            }
            sum = sum + (f as i128);
            i += 1;
        }
        proof {
            assert(self.individuals@.take(n as int) =~= self.individuals@);
            lemma_sum_fitness_bound(self.individuals@);
        }
        self.f_avg = avg_quotient(0, 0, sum, n);
    }

    /// Adds one individual together with its generation number; with `aga`
    /// the running statistics absorb its fitness.
    pub fn add_individual_gn(&mut self, individual: U, generation_number: i32, aga: bool)
        requires
            old(self).individuals@.len() < usize::MAX,
        ensures
            final(self).individuals@ == old(self).individuals@.push(individual),
            final(self).generation_numbers@ == old(self).generation_numbers@.push(
                generation_number,
            ),
            aga ==> final(self).f_max == (if individual.fitness_view() > old(self).f_max {
                individual.fitness_view()
            } else {
                old(self).f_max
            }),
            aga ==> final(self).f_avg == avg_after_push(
                old(self).f_avg as int,
                old(self).individuals@.len() as int,
                individual.fitness_view() as int,
                1,
            ),
            !aga ==> final(self).f_max == old(self).f_max && final(self).f_avg == old(self).f_avg,
    {
        if aga {
            let f = individual.get_fitness();
            if f > self.f_max {
                self.f_max = f;
            }
            self.f_avg = avg_quotient(self.f_avg, self.individuals.len(), f as i128, 1);
        }
        self.individuals.push(individual);
        self.generation_numbers.push(generation_number);
    }

    /// Moves a batch of individuals into the population; with `aga` the
    /// running statistics absorb the whole batch, without a full rescan.
    pub fn add_individuals(&mut self, individuals: &mut Vec<U>, aga: bool)
        requires
            aga ==> old(self).individuals@.len() + old(individuals)@.len() >= 1,
            old(self).individuals@.len() + old(individuals)@.len() <= usize::MAX,
        ensures
            final(self).individuals@ == old(self).individuals@ + old(individuals)@,
            final(individuals)@ =~= Seq::<U>::empty(),
            final(self).generation_numbers@ == old(self).generation_numbers@,
            aga ==> final(self).f_max == fold_max_fitness(
                old(self).f_max as int,
                old(individuals)@,
            ),
            aga ==> final(self).f_avg == avg_after_push(
                old(self).f_avg as int,
                old(self).individuals@.len() as int,
                sum_fitness(old(individuals)@),
                old(individuals)@.len() as int,
            ),
            !aga ==> final(self).f_max == old(self).f_max && final(self).f_avg == old(self).f_avg,
    {
        if aga {
            let k = individuals.len();
            let mut sum: i128 = 0;
            let mut i: usize = 0;
            while i < k
                invariant
                    i <= k,
                    k == individuals@.len(),
                    individuals@ == old(individuals)@,
                    self.individuals@ == old(self).individuals@,
                    self.generation_numbers@ == old(self).generation_numbers@,
                    self.f_avg == old(self).f_avg,
                    sum == sum_fitness(individuals@.take(i as int)),
                    self.f_max == fold_max_fitness(
                        old(self).f_max as int,
                        individuals@.take(i as int),
                    ),
                    -(i as int) * (i64::MAX as int + 1) <= sum <= (i as int) * (i64::MAX as int),
                decreases k - i,
            {
                let f = individuals[i].get_fitness();
                proof {
                    let taken = individuals@.take(i as int + 1);
                    assert(taken.drop_last() =~= individuals@.take(i as int));
                    lemma_sum_fitness_bound(taken);
                }
                if f > self.f_max {
                    self.f_max = f;
                }
                sum = sum + (f as i128);
                i += 1;
            }
            proof {
                assert(individuals@.take(k as int) =~= individuals@);
                lemma_sum_fitness_bound(individuals@);
            }
            self.f_avg = avg_quotient(self.f_avg, self.individuals.len(), sum, k);
        }
        self.individuals.append(individuals);
    }

    /// The number of individuals in the population.
    pub fn size(&self) -> (r: usize)
        ensures
            r == self.individuals@.len(),
    {
        self.individuals.len()
    }
}

} // verus!

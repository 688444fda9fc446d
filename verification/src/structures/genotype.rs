//! A ready-made genotype for the older interface: its phenotype is the
//! sum of its gene identities.

use vstd::prelude::*;
use crate::structures::GeneT;
use crate::structures::GenotypeT;

verus! {

/// The sum of the gene identities of `s`.
pub open spec fn sum_of_ids<T: GeneT>(s: Seq<T>) -> int
    decreases s.len(),
{
    if s.len() == 0 {
        0
    } else {
        sum_of_ids(s.drop_last()) + s.last().id_view()
    }
}

pub struct Genotype<T: GeneT> {
    pub dna: Vec<T>,
    pub phenotype: i64,
}

proof fn lemma_sum_of_ids_bound<T: GeneT>(s: Seq<T>)
    ensures
        -(s.len() as int) * (i64::MAX as int + 1) <= sum_of_ids(s) <= (s.len() as int) * (
        i64::MAX as int),
    decreases s.len(),
{
    if s.len() > 0 {
        lemma_sum_of_ids_bound(s.drop_last());
        assert((s.len() - 1) * (i64::MAX as int) + i64::MAX == (s.len() as int) * (i64::MAX as int))
            by (nonlinear_arith);
        assert(-((s.len() - 1) as int) * (i64::MAX as int + 1) - (i64::MAX as int + 1) == -(
        s.len() as int) * (i64::MAX as int + 1)) by (nonlinear_arith);
    }
}

impl<T: GeneT> Genotype<T> {
    /// An empty genotype with a zero phenotype.
    pub fn new() -> (r: Genotype<T>)
        ensures
            r.dna@ =~= Seq::<T>::empty(),
            r.phenotype == 0,
    {
        Genotype { dna: Vec::new(), phenotype: 0 }
    }

    /// Replaces the dna and recomputes the phenotype from it.  The sum is
    /// carried in wide arithmetic and saturated into the stored field.
    pub fn add_dna(&mut self, dna: Vec<T>)
        ensures
            final(self).dna@ == dna@,
            final(self).phenotype == saturate_i64(sum_of_ids(dna@)),
    {
        self.dna = dna;
        self.phenotype = self.calculate_phenotype();
    }

    /// Appends one gene and recomputes the phenotype.
    pub fn add_gene(&mut self, gene: T)
        ensures
            final(self).dna@ == old(self).dna@.push(gene),
            final(self).phenotype == saturate_i64(sum_of_ids(old(self).dna@.push(gene))),
    {
        self.dna.push(gene);
        self.phenotype = self.calculate_phenotype();
    }

    /// The sum of the gene identities, saturated into an `i64`.
    fn calculate_phenotype(&self) -> (r: i64)
        ensures
            r == saturate_i64(sum_of_ids(self.dna@)),
    {
        let n = self.dna.len();
        let mut phenotype: i128 = 0;
        let mut i: usize = 0;
        while i < n
            invariant
                i <= n,
                n == self.dna@.len(),
                phenotype == sum_of_ids(self.dna@.take(i as int)),
                -(i as int) * (i64::MAX as int + 1) <= phenotype <= (i as int) * (i64::MAX as int),
            decreases n - i,
        {
            proof {
                let taken = self.dna@.take(i as int + 1);
                assert(taken.drop_last() =~= self.dna@.take(i as int));
                lemma_sum_of_ids_bound(taken);
            }
            phenotype = phenotype + (*self.dna[i].get_id() as i128);
            i += 1;
        }
        proof {
            assert(self.dna@.take(n as int) =~= self.dna@);
        }
        if phenotype > i64::MAX as i128 {
            i64::MAX
        } else if phenotype < i64::MIN as i128 {
            i64::MIN
        } else {
            phenotype as i64
        }
    }
}

impl<T: GeneT> PartialEq for Genotype<T> {
    /// Two genotypes are equal when their phenotypes agree and their dna
    /// carries the same gene identities position by position.
    fn eq(&self, other: &Self) -> (r: bool) {
        // Checks the phenotype first, then the dna length.
        let mut result = self.phenotype == other.phenotype;
        result = result && self.dna.len() == other.dna.len();

        // Walks through the dna until a mismatch settles it.
        let mut index: usize = 0;
        while index < self.dna.len() && result
            invariant
                index <= self.dna@.len(),
                result ==> self.phenotype == other.phenotype && self.dna@.len()
                    == other.dna@.len() && (forall|j: int|
                    0 <= j < index ==> (#[trigger] self.dna@[j]).id_view()
                        == other.dna@[j].id_view()),
                !result ==> !(self.phenotype == other.phenotype && self.dna@.len()
                    == other.dna@.len() && (forall|j: int|
                    0 <= j < self.dna@.len() ==> (#[trigger] self.dna@[j]).id_view()
                        == other.dna@[j].id_view())),
            decreases self.dna@.len() - index,
        {
            proof {
                if self.dna@[index as int].id_view() != other.dna@[index as int].id_view() {
                    assert(!(forall|j: int|
                        0 <= j < self.dna@.len() ==> (#[trigger] self.dna@[j]).id_view()
                            == other.dna@[j].id_view()));
                }
            }
            result = result && *self.dna[index].get_id() == *other.dna[index].get_id();
            index += 1;
        }
        result
    }
}

impl<T: GeneT> vstd::std_specs::cmp::PartialEqSpecImpl for Genotype<T> {
    open spec fn obeys_eq_spec() -> bool {
        true
    }

    open spec fn eq_spec(&self, other: &Genotype<T>) -> bool {
        self.phenotype == other.phenotype && self.dna@.len() == other.dna@.len() && (forall|j: int|
            0 <= j < self.dna@.len() ==> (#[trigger] self.dna@[j]).id_view()
                == other.dna@[j].id_view())
    }
}

/// An integer clamped into the `i64` range.
pub open spec fn saturate_i64(v: int) -> int {
    if v > i64::MAX as int {
        i64::MAX as int
    } else if v < i64::MIN as int {
        i64::MIN as int
    } else {
        v
    }
}

} // verus!

use vstd::prelude::*;
use crate::traits::gene::GeneT;

verus! {

/// One candidate solution: an ordered gene sequence plus an integer fitness
/// score and an integer age.
///
/// The three `*_view` functions are the mathematical model the engine's
/// contracts are stated over; the exec methods are required to behave as the
/// model says.  An implementor's `calculate_fitness` may compute any score it
/// likes, but must leave dna and age alone: the engine relies on that to keep
/// dna length invariant across a whole run.
pub trait ChromosomeT: Sized + Clone {
    type Gene: GeneT;

    /// The gene sequence, as the contracts see it.  The placeholder
    /// bodies of these three views leave them unspecified; a verified
    /// implementation overrides them with the fields they stand for.
    open spec fn dna_view(&self) -> Seq<Self::Gene> {
        vstd::pervasive::arbitrary()
    }

    /// The fitness score, as the contracts see it.
    open spec fn fitness_view(&self) -> i64 {
        vstd::pervasive::arbitrary()
    }

    /// The age, as the contracts see it.
    open spec fn age_view(&self) -> i32 {
        vstd::pervasive::arbitrary()
    }

    /// The caller-supplied fitness function, as the contracts see it: a
    /// pure function from a dna to its score, shared by every individual
    /// of the implementing type.  The placeholder body leaves it
    /// unspecified; a verified implementation overrides it with the
    /// function it scores with.
    open spec fn fitness_function() -> spec_fn(Seq<Self::Gene>) -> i64 {
        vstd::pervasive::arbitrary()
    }

    /// A fresh individual: empty dna, zero fitness, zero age.
    fn new() -> (r: Self)
        ensures
            r.dna_view() == Seq::<Self::Gene>::empty(),
            r.fitness_view() == 0,
            r.age_view() == 0,
    ;

    /// A fresh gene of the associated gene type.
    fn new_gene() -> (r: Self::Gene) {
        Self::Gene::new()
    }

    fn get_dna(&self) -> (r: &[Self::Gene])
        ensures
            r@ == self.dna_view(),
    ;

    fn set_dna(&mut self, dna: &[Self::Gene])
        ensures
            final(self).dna_view() == dna@,
            final(self).fitness_view() == old(self).fitness_view(),
            final(self).age_view() == old(self).age_view(),
    ;

    /// Replace the single gene at `gene_index`.
    fn set_gene(&mut self, gene_index: usize, gene: Self::Gene)
        requires
            gene_index < old(self).dna_view().len(),
        ensures
            final(self).dna_view() == old(self).dna_view().update(gene_index as int, gene),
            final(self).fitness_view() == old(self).fitness_view(),
            final(self).age_view() == old(self).age_view(),
    {
        let n = self.get_dna().len();
        let mut dna_temp: Vec<Self::Gene> = Vec::new();
        let mut i: usize = 0;
        while i < n
            invariant
                i <= n,
                n == self.dna_view().len(),
                gene_index < n,
                dna_temp@.len() == i,
                forall|j: int|
                    0 <= j < i ==> dna_temp@[j] == (if j == gene_index {
                        gene
                    } else {
                        self.dna_view()[j]
                    }),
                *self == *old(self),
            decreases n - i,
        {
            if i == gene_index {
                dna_temp.push(gene);
            } else {
                let g = self.get_dna()[i];
                dna_temp.push(g);
            }
            i += 1;
        }
        assert(dna_temp@ =~= old(self).dna_view().update(gene_index as int, gene));
        self.set_dna(dna_temp.as_slice());
    }

    /// Recompute the fitness score from the dna: afterwards the score is
    /// the fitness function of the dna, and the dna and the age stay as
    /// they are.
    fn calculate_fitness(&mut self)
        ensures
            final(self).dna_view() == old(self).dna_view(),
            final(self).age_view() == old(self).age_view(),
            final(self).fitness_view() == (Self::fitness_function())(old(self).dna_view()),
    ;

    fn get_fitness(&self) -> (r: i64)
        ensures
            r == self.fitness_view(),
    ;

    fn set_fitness(&mut self, fitness: i64)
        ensures
            final(self).fitness_view() == fitness,
            final(self).dna_view() == old(self).dna_view(),
            final(self).age_view() == old(self).age_view(),
    ;

    fn set_age(&mut self, age: i32)
        ensures
            final(self).age_view() == age,
            final(self).dna_view() == old(self).dna_view(),
            final(self).fitness_view() == old(self).fitness_view(),
    ;

    fn get_age(&self) -> (r: i32)
        ensures
            r == self.age_view(),
    ;

    /// How far the fitness score is from `fitness_target`.
    fn get_fitness_distance(&self, fitness_target: i64) -> (r: i64)
        requires
            -(i64::MAX as int) <= fitness_target - self.fitness_view() <= i64::MAX as int,
        ensures
            r == (if fitness_target >= self.fitness_view() {
                fitness_target - self.fitness_view()
            } else {
                self.fitness_view() - fitness_target
            }),
    {
        let f = self.get_fitness();
        if fitness_target >= f {
            fitness_target - f
        } else {
            f - fitness_target
        }
    }
}

} // verus!

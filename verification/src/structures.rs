//! The first generation of the encoding interfaces, kept for callers that
//! still build on it: genes carry a wide integer identity, and a genotype
//! exposes its dna and an integer phenotype.

use vstd::prelude::*;

pub mod genotype;

pub use genotype::Genotype;

verus! {

/// A gene under the older interface: a wide integer identity.
pub trait GeneT: Sized {
    /// The identity, as the contracts see it; the placeholder body leaves
    /// it unspecified until an implementation overrides it.
    open spec fn id_view(&self) -> i64 {
        vstd::pervasive::arbitrary()
    }

    fn get_id(&self) -> (r: &i64)
        ensures
            *r == self.id_view(),
    ;
}

/// A genotype under the older interface: an ordered gene sequence plus an
/// integer phenotype derived from it.
pub trait GenotypeT<T: GeneT>: Sized {
    /// The gene sequence, as the contracts see it; the placeholder bodies
    /// leave the views unspecified until an implementation overrides them.
    open spec fn dna_view(&self) -> Seq<T> {
        vstd::pervasive::arbitrary()
    }

    /// The phenotype, as the contracts see it.
    open spec fn phenotype_view(&self) -> i64 {
        vstd::pervasive::arbitrary()
    }

    fn get_dna(&self) -> (r: &Vec<T>)
        ensures
            r@ == self.dna_view(),
    ;

    fn get_phenotype(&self) -> (r: &i64)
        ensures
            *r == self.phenotype_view(),
    ;
}

} // verus!

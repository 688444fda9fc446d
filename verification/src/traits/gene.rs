use vstd::prelude::*;

verus! {

/// The smallest encoding unit: a copyable value carrying an integer
/// identity.  Whatever payload an implementor adds is opaque to the engine.
pub trait GeneT: Sized + Copy {
    /// The integer identity, as the contracts see it.  The placeholder
    /// body leaves it unspecified; a verified implementation overrides it
    /// with the field it stands for.
    open spec fn id_view(&self) -> i32 {
        vstd::pervasive::arbitrary()
    }

    /// A fresh gene; what identity and payload it carries is the
    /// implementor's business.
    fn new() -> (r: Self);

    fn get_id(&self) -> (r: i32)
        ensures
            r == self.id_view(),
    ;

    fn set_id(&mut self, id: i32)
        ensures
            final(self).id_view() == id,
    ;
}

} // verus!

//! A binary gene: an integer identity and one bit of payload.

use vstd::prelude::*;
use crate::traits::gene::GeneT;

verus! {

#[derive(Debug, Copy, Clone, PartialEq, Eq, Structural)]
pub struct Binary {
    pub id: i32,
    pub value: bool,
}

impl GeneT for Binary {
    open spec fn id_view(&self) -> i32 {
        self.id
    }

    /// A fresh gene with the placeholder identity.
    fn new() -> (r: Self) {
        Binary { id: -1, value: false }
    }

    fn get_id(&self) -> (r: i32) {
        self.id
    }

    fn set_id(&mut self, id: i32) {
        self.id = id;
    }
}

impl Binary {
    /// Overwrites both fields, builder style.
    pub fn new(&mut self, id: i32, value: bool) -> (r: &mut Self)
        ensures
            *r == (Binary { id, value }),
            *final(self) == *final(r),
    {
        self.id = id;
        self.value = value;
        self
    }

    fn get_value(&self) -> (r: bool)
        ensures
            r == self.value,
    {
        self.value
    }

    fn set_value(&mut self, value: bool)
        ensures
            final(self).value == value,
            final(self).id == old(self).id,
    {
        self.value = value;
    }
}

} // verus!

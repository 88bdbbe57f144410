use vstd::prelude::*;

verus! {

/// Where a material sits in the material list.
#[derive(Clone, Copy, Debug)]
pub enum MaterialId {
    Index(usize),
}

impl MaterialId {
    /// The list index this identifier refers to.
    pub fn get(&self) -> (r: usize)
        ensures
            r == self->Index_0,
    {
        let MaterialId::Index(idx) = self;
        *idx
    }
}

} // verus!

use vstd::prelude::*;

verus! {

/// A value changed by mutations, each of which hands back the mutation that undoes it.
pub trait Mutate {
    type Mutation;

    spec fn can_apply(&self, mx: Self::Mutation) -> bool;

    fn mutate(&mut self, mx: Self::Mutation) -> Self::Mutation
        requires
            old(self).can_apply(mx),
    ;
}

} // verus!

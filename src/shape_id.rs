use vstd::prelude::*;

verus! {

/// Hands out shape identifiers: each one is larger than all before it.
#[derive(Debug)]
pub struct ShapeIdStore {
    pub current: u32,
}

impl ShapeIdStore {
    pub fn new() -> (r: ShapeIdStore)
        ensures
            r.current == 0,
    {
        ShapeIdStore { current: 0 }
    }

    pub open spec fn can_generate(&self) -> bool {
        self.current < u32::MAX
    }

    fn generate(&mut self) -> (id: u32)
        requires
            old(self).can_generate(),
        ensures
            id == old(self).current + 1,
            final(self).current == id,
    {
        let next = self.current + 1;
        self.current = next;
        next
    }
}

/// The next identifier: one more than the last one given out.
pub fn generate_shape_id(store: &mut ShapeIdStore) -> (id: u32)
    requires
        old(store).can_generate(),
    ensures
        id == old(store).current + 1,
        final(store).current == id,
{
    store.generate()
}

} // verus!

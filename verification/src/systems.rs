//! Registry of per-component removal hooks.
//!
//! Gameplay collaborators register, once per component store, a remover
//! that tears an entity's component down when the entity dies. The
//! registry only records the removers in registration order and hands
//! them back for iteration; invoking them is the caller's business, so
//! the remover type is a parameter here (the frame loop instantiates it
//! with its callback type).

use vstd::prelude::*;

verus! {

/// The ordered collection of registered removers.
pub struct Systems<R> {
    removers: Vec<R>,
}

impl<R> Systems<R> {
    /// The registered removers, in registration order.
    pub closed spec fn spec_removers(self) -> Seq<R> {
        self.removers@
    }

    pub fn new() -> (r: Systems<R>)
        ensures
            r.spec_removers() == Seq::<R>::empty(),
    {
        Systems { removers: Vec::new() }
    }

    /// Appends one remover; everything registered before stays, in
    /// order.
    pub fn register_remover(&mut self, remover: R)
        ensures
            final(self).spec_removers() == old(self).spec_removers().push(remover),
    {
        self.removers.push(remover);
    }

    /// All registered removers, in registration order.
    pub fn removers(&self) -> (r: &Vec<R>)
        ensures
            r@ == self.spec_removers(),
    {
        &self.removers
    }
}

} // verus!

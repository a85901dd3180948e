//! Call context: the identifier of the invocation currently in flight.
//!
//! The host tags every invocation with an integer identifier, and every host
//! call made while that invocation runs must carry the same identifier so the
//! host can correlate the calls.  The context is a single-slot record that is
//! overwritten at the start of each invocation and read by the adapters; it is
//! threaded through the entry point as an explicit value rather than held in
//! ambient process state, so the single-writer discipline is visible in the
//! signatures.

use vstd::prelude::*;

verus! {

/// Single mutable record holding the identifier of the invocation currently
/// executing in this module instance.
#[derive(Clone, Copy)]
pub struct CallContext {
    ident: i32,
}

impl CallContext {
    /// The identifier last stored in this context.
    pub closed spec fn ident(&self) -> int {
        self.ident as int
    }

    /// Overwrites the ambient identifier.  Called exactly once per
    /// invocation, at its very start.
    pub fn set(&mut self, identifier: i32)
        ensures
            final(self).ident() == identifier as int,
    {
        self.ident = identifier;
    }

    /// The identifier that host calls made during the current invocation
    /// must carry.
    pub fn current(&self) -> (r: i32)
        ensures
            r as int == self.ident(),
    {
        self.ident
    }
}

impl Default for CallContext {
    /// The context as it stands at module load, before any invocation has
    /// started.
    fn default() -> (r: Self)
        ensures
            r.ident() == 0,
    {
        CallContext { ident: 0 }
    }
}

} // verus!

//! The imported host calls, seen from the guest.
//!
//! The host process supplies three imported calls: result delivery, network
//! fetch, and logging.  The guest reaches them only through the `HostCalls`
//! port, whose implementation is supplied by whatever embeds the guest (the
//! real runtime, or a test double).  The port carries a ghost log of the
//! calls the host has observed, in order; the adapters' contracts are stated
//! over that log, so identifier propagation and the fetch protocol can be
//! proved without fixing any particular host behaviour.

use vstd::prelude::*;

use crate::region::{Owner, Region};

verus! {

/// One host call, as the host observes it at the boundary.
pub enum HostCall {
    /// The `return_result` import: the guest delivered the result bytes of
    /// the invocation tagged `ident`.
    Deliver { data: Seq<u8>, ident: int },
    /// The `fetch` import: the guest asked for `url` with a destination
    /// buffer of `capacity` bytes; the host answered with result code `code`
    /// and left `data` in the buffer.
    Fetch { url: Seq<u8>, capacity: int, code: int, data: Seq<u8>, ident: int },
    /// The `log` import: the guest forwarded a message at a severity level.
    Log { msg: Seq<u8>, level: int, ident: int },
}

impl HostCall {
    /// The invocation identifier the call carried.
    pub open spec fn ident(&self) -> int {
        match *self {
            HostCall::Deliver { ident, .. } => ident,
            HostCall::Fetch { ident, .. } => ident,
            HostCall::Log { ident, .. } => ident,
        }
    }
}

/// `post` extends `pre` and every added call carries `ident`: the ordering
/// guarantee the call context owes the host within one invocation.
pub open spec fn calls_tagged(pre: Seq<HostCall>, post: Seq<HostCall>, ident: int) -> bool {
    &&& pre.len() <= post.len()
    &&& post.take(pre.len() as int) == pre
    &&& forall|i: int| pre.len() <= i < post.len() ==> #[trigger] post[i].ident() == ident
}

/// The three imported calls.  An implementation stands for the host process;
/// what it promises is only what the calling boundary itself fixes: each call
/// is appended to the observed log, and a fetch writes in place, never
/// resizing the destination region.  Nothing is promised about result codes
/// or buffer contents — the adapters state what holds of every outcome.
pub trait HostCalls: Sized {
    /// The calls this host has observed so far, in order.  This is the
    /// ghost log the adapters' contracts are stated over; it is never
    /// evaluated at run time.  A verified implementation overrides it with
    /// its own definition; an unverified embedder can leave the default,
    /// which stands for a host that keeps no log.
    open spec fn calls(&self) -> Seq<HostCall> {
        Seq::empty()
    }

    /// Result delivery.  The region's ownership passes to the host; the
    /// guest makes no further claim on it and never deallocates it itself.
    fn return_result(&mut self, result: Region, ident: i32)
        requires
            result.owner() == Owner::Host,
        ensures
            final(self).calls() == old(self).calls().push(
                HostCall::Deliver { data: result@, ident: ident as int },
            ),
    ;

    /// Host-mediated network fetch.  The host may fill the destination
    /// region up to its capacity and answers with a signed result code whose
    /// three-way meaning the fetch adapter interprets.
    fn fetch(&mut self, url: &Vec<u8>, dest: &mut Region, ident: i32) -> (code: i32)
        requires
            old(dest).owner() == Owner::Host,
        ensures
            final(dest)@.len() == old(dest)@.len(),
            final(dest).owner() == old(dest).owner(),
            final(self).calls() == old(self).calls().push(
                HostCall::Fetch {
                    url: url@,
                    capacity: old(dest)@.len() as int,
                    code: code as int,
                    data: final(dest)@,
                    ident: ident as int,
                },
            ),
    ;

    /// One-way logging.  Fire-and-forget: failure of the underlying host
    /// call is unobservable to the guest.
    fn log(&mut self, msg: &Vec<u8>, level: i32, ident: i32)
        ensures
            final(self).calls() == old(self).calls().push(
                HostCall::Log { msg: msg@, level: level as int, ident: ident as int },
            ),
    ;
}

} // verus!

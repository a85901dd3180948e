//! The runnable registry: the single registered unit of logic.
//!
//! A runnable is polymorphic over one operation — consume bytes, produce
//! optional bytes — and exactly one instance is registered per module.  The
//! registry is an explicit value handed to the entry point rather than a
//! process-wide slot, so the single-writer discipline is visible in the
//! signatures; a default no-op stands in while nothing is registered, so the
//! registry is never in an unset state.

use vstd::prelude::*;

use crate::context::CallContext;
use crate::host::{calls_tagged, HostCall, HostCalls};

verus! {

/// The view of a runnable's optional output.
pub open spec fn output_view(r: Option<Vec<u8>>) -> Option<Seq<u8>> {
    match r {
        Some(v) => Some(v@),
        None => None,
    }
}

/// The single user-supplied unit of logic.  A runnable may make host calls
/// through the adapters while it runs; `run_rel` is each implementation's
/// statement of what its `run` leaves in the host log and what it returns.
pub trait Runnable<H: HostCalls>: Sized {
    /// What `run` does: the relation between the host log before and after
    /// the run, the ambient identifier, the input bytes, and the output.
    spec fn run_rel(
        &self,
        pre: Seq<HostCall>,
        post: Seq<HostCall>,
        ident: int,
        input: Seq<u8>,
        output: Option<Seq<u8>>,
    ) -> bool;

    /// Consumes the input bytes and produces the optional output.  Every
    /// host call made during the run carries the ambient identifier.
    fn run(&self, host: &mut H, ctx: &CallContext, input: Vec<u8>) -> (r: Option<Vec<u8>>)
        ensures
            calls_tagged(old(host).calls(), final(host).calls(), ctx.ident()),
            self.run_rel(
                old(host).calls(),
                final(host).calls(),
                ctx.ident(),
                input@,
                output_view(r),
            ),
    ;
}

/// Holds down the fort until a real runnable is registered: makes no host
/// calls and always returns nothing.
pub struct DefaultRunnable {}

impl<H: HostCalls> Runnable<H> for DefaultRunnable {
    open spec fn run_rel(
        &self,
        pre: Seq<HostCall>,
        post: Seq<HostCall>,
        ident: int,
        input: Seq<u8>,
        output: Option<Seq<u8>>,
    ) -> bool {
        post == pre && output is None
    }

    fn run(&self, host: &mut H, _ctx: &CallContext, _input: Vec<u8>) -> (r: Option<Vec<u8>>) {
        proof {
            assert(host.calls().take(host.calls().len() as int) =~= host.calls());
        }
        None
    }
}

/// What a dispatch through the registry does: forwards to the registered
/// logic, or behaves as the default no-op when nothing was registered.
pub open spec fn dispatch_rel<H: HostCalls, R: Runnable<H>>(
    registered: Option<R>,
    pre: Seq<HostCall>,
    post: Seq<HostCall>,
    ident: int,
    input: Seq<u8>,
    output: Option<Seq<u8>>,
) -> bool {
    match registered {
        Some(logic) => logic.run_rel(pre, post, ident, input, output),
        None => post == pre && output is None,
    }
}

/// The single slot holding the registered unit of logic, populated once at
/// module initialization and living for the module instance's lifetime.
pub struct Registry<R> {
    logic: Option<R>,
}

impl<R> Registry<R> {
    /// The registered logic, if any.
    pub closed spec fn registered(&self) -> Option<R> {
        self.logic
    }

    /// A registry with nothing registered yet.
    pub fn new() -> (r: Registry<R>)
        ensures
            r.registered() is None,
    {
        Registry { logic: None }
    }

    /// Installs the unit of logic.  Registering again simply replaces the
    /// previous instance — last write wins, no error, by design.
    pub fn set(&mut self, logic: R)
        ensures
            final(self).registered() == Some(logic),
    {
        self.logic = Some(logic);
    }

    /// Forwards the input to the registered logic's `run`, or to the
    /// default no-op when nothing was registered.
    pub fn dispatch<H: HostCalls>(
        &self,
        host: &mut H,
        ctx: &CallContext,
        input: Vec<u8>,
    ) -> (r: Option<Vec<u8>>) where R: Runnable<H>
        ensures
            calls_tagged(old(host).calls(), final(host).calls(), ctx.ident()),
            dispatch_rel::<H, R>(
                self.registered(),
                old(host).calls(),
                final(host).calls(),
                ctx.ident(),
                input@,
                output_view(r),
            ),
    {
        match &self.logic {
            Some(logic) => logic.run(host, ctx, input),
            None => {
                proof {
                    assert(host.calls().take(host.calls().len() as int) =~= host.calls());
                }
                None
            },
        }
    }
}

} // verus!

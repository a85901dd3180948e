//! The project template's unit of logic: fetch the descriptor the input
//! names and return the response payload.

use vstd::prelude::*;

use crate::context::CallContext;
use crate::host::{calls_tagged, HostCall, HostCalls};
use crate::net;
use crate::net::fetch_trace;
use crate::runnable::Runnable;

verus! {

/// Treats the input bytes as the target descriptor, fetches it through the
/// host, and returns the response payload.
pub fn run<H: HostCalls>(host: &mut H, ctx: &CallContext, input: Vec<u8>) -> (r: Option<
    Vec<u8>,
>)
    ensures
        calls_tagged(old(host).calls(), final(host).calls(), ctx.ident()),
        r matches Some(data) && fetch_trace(
            old(host).calls(),
            final(host).calls(),
            input@,
            ctx.ident(),
            data@,
        ),
{
    let data = net::fetch(host, ctx, &input);
    Some(data)
}

/// A runnable wrapping the template logic.
pub struct Fetch {}

impl<H: HostCalls> Runnable<H> for Fetch {
    /// The host log grows by exactly one fetch exchange for the input
    /// descriptor, and the exchange's payload is the output.
    open spec fn run_rel(
        &self,
        pre: Seq<HostCall>,
        post: Seq<HostCall>,
        ident: int,
        input: Seq<u8>,
        output: Option<Seq<u8>>,
    ) -> bool {
        output matches Some(data) && fetch_trace(pre, post, input, ident, data)
    }

    fn run(&self, host: &mut H, ctx: &CallContext, input: Vec<u8>) -> (r: Option<Vec<u8>>) {
        crate::run::run(host, ctx, input)
    }
}

} // verus!

//! Invocation entry point: the exported call the host uses to run one
//! invocation.
//!
//! Per call: store the identifier in the call context, reconstruct an owned
//! byte buffer from the input region, dispatch to the registered logic,
//! substitute the fixed diagnostic payload if the logic yielded nothing,
//! and deliver the result through the host's result-delivery import.
//! Nothing is returned through the call itself — delivery happens via the
//! explicit callback — and the entry point never deallocates the result
//! region: its ownership passes to the host.

use vstd::prelude::*;

use crate::context::CallContext;
use crate::host::{calls_tagged, HostCall, HostCalls};
use crate::region::{Owner, Region};
use crate::runnable::{dispatch_rel, output_view, Registry, Runnable};
use crate::text::{no_data_payload, no_data_text};

verus! {

/// The payload delivered for a given dispatch output: the output bytes, or
/// the fixed diagnostic text when the logic yielded nothing.  Absence is
/// conflated with a textual result by design: the host cannot tell the two
/// apart without inspecting content.
pub open spec fn normalized(output: Option<Seq<u8>>) -> Seq<u8> {
    match output {
        Some(data) => data,
        None => no_data_text(),
    }
}

/// The whole observable effect of one invocation on the host log: the calls
/// of one dispatch through the registry, then the delivery of the
/// normalized output, everything tagged with the invocation's identifier.
pub open spec fn invocation_trace<H: HostCalls, R: Runnable<H>>(
    registered: Option<R>,
    pre: Seq<HostCall>,
    post: Seq<HostCall>,
    input: Seq<u8>,
    ident: int,
) -> bool {
    &&& post.len() > pre.len()
    &&& exists|output: Option<Seq<u8>>|
        #[trigger] dispatch_rel::<H, R>(registered, pre, post.drop_last(), ident, input, output)
            && post.last() == (HostCall::Deliver { data: normalized(output), ident: ident })
}

/// Runs one invocation: `(region, size)` is the input the host wrote into a
/// region it obtained from `allocate`, and `ident` the identifier that every
/// host call made during the invocation will carry.
pub fn run_e<H: HostCalls, R: Runnable<H>>(
    registry: &Registry<R>,
    host: &mut H,
    ctx: &mut CallContext,
    region: Region,
    size: usize,
    ident: i32,
)
    requires
        region.owner() == Owner::Host,
        size as nat == region@.len(),
    ensures
        final(ctx).ident() == ident as int,
        calls_tagged(old(host).calls(), final(host).calls(), ident as int),
        invocation_trace::<H, R>(
            registry.registered(),
            old(host).calls(),
            final(host).calls(),
            region@,
            ident as int,
        ),
        registry.registered() is None ==> final(host).calls() == old(host).calls().push(
            HostCall::Deliver { data: no_data_text(), ident: ident as int },
        ),
{
    let ghost pre = host.calls();
    ctx.set(ident);
    let c: CallContext = *ctx;

    // rebuild the region's bytes into an owned, usable buffer
    let input = region.read_prefix(size);
    proof {
        assert(region@.take(size as int) =~= region@);
    }

    // call the registered logic and normalize its result
    let output = registry.dispatch(host, &c, input);
    let ghost mid = host.calls();
    let result: Vec<u8> = match output {
        Some(val) => val,
        None => no_data_payload(),
    };

    // hand the result back to the host; its region is the host's from here
    let delivery = Region::carrying(result).transfer_to_host();
    host.return_result(delivery, c.current());

    proof {
        let post = host.calls();
        let witness = output_view(output);
        assert(post.drop_last() =~= mid);
        assert(dispatch_rel::<H, R>(
            registry.registered(),
            pre,
            post.drop_last(),
            ident as int,
            region@,
            witness,
        ));
        assert(post.take(pre.len() as int) =~= pre);
        assert forall|i: int| pre.len() <= i < post.len() implies #[trigger] post[i].ident()
            == ident as int by {
            if i < mid.len() {
                assert(post[i] == mid[i]);
            }
        }
    }
}

/// Identifier propagation: across two consecutive invocations, every host
/// call observed during the first carries the first invocation's
/// identifier, and every call of the second carries the second's — the new
/// value shows in all its calls, with no leakage from the first.
pub proof fn lemma_identifier_propagation(
    pre: Seq<HostCall>,
    mid: Seq<HostCall>,
    post: Seq<HostCall>,
    first: int,
    second: int,
)
    requires
        calls_tagged(pre, mid, first),
        calls_tagged(mid, post, second),
    ensures
        forall|i: int| pre.len() <= i < mid.len() ==> #[trigger] post[i].ident() == first,
        forall|i: int| mid.len() <= i < post.len() ==> #[trigger] post[i].ident() == second,
{
    assert forall|i: int| pre.len() <= i < mid.len() implies #[trigger] post[i].ident()
        == first by {
        assert(post.take(mid.len() as int)[i] == post[i]);
    }
}

} // verus!

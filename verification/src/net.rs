//! Fetch adapter: host-mediated network fetch with a growable buffer.
//!
//! The guest offers the host a scratch region and interprets the signed
//! result code three ways: negative means the request failed, and the code
//! is encoded into a diagnostic payload that is returned as ordinary output;
//! a code above the offered capacity means the true response size exceeds
//! the buffer, so the capacity is doubled and the exchange retried; a code
//! within `[0, capacity]` means success, with exactly that many bytes
//! written into the region.  Scratch regions of too-small attempts are
//! simply dropped — a simplicity-over-memory-economy tradeoff inherited
//! from the protocol.

use vstd::prelude::*;

use crate::context::CallContext;
use crate::host::{calls_tagged, HostCall, HostCalls};
use crate::logging;
use crate::region::allocate;
use crate::text::{
    doubling_payload, doubling_text, request_failed_payload, request_failed_text,
};

verus! {

/// The fixed starting capacity of the scratch buffer, in bytes.
pub const STARTING_CAPACITY: usize = 256000;

/// The calls that one fetch exchange starting at capacity `cap` appends to
/// the host log, and the adapter result it produces from them: a run of
/// too-small attempts, each logged and answered by doubling the capacity,
/// ended by a failure or a success.
pub open spec fn grow_trace(
    added: Seq<HostCall>,
    url: Seq<u8>,
    ident: int,
    cap: int,
    result: Seq<u8>,
) -> bool
    decreases added.len(),
{
    added.len() >= 1 && match added[0] {
        HostCall::Fetch { url: u, capacity: c, code, data, ident: id } => {
            &&& u == url
            &&& c == cap
            &&& id == ident
            &&& if code < 0 {
                added.len() == 1 && result == request_failed_text(code)
            } else if code > cap {
                &&& added.len() >= 2
                &&& added[1] == (HostCall::Log {
                    msg: doubling_text(code),
                    level: logging::INFO_LEVEL as int,
                    ident: ident,
                })
                &&& grow_trace(added.skip(2), url, ident, 2 * cap, result)
            } else {
                added.len() == 1 && result == data.take(code)
            }
        },
        _ => false,
    }
}

/// The whole observable effect of one fetch adapter call: the host log grew
/// only by the calls of one exchange started at the fixed capacity, and the
/// result follows from the last result code.
pub open spec fn fetch_trace(
    pre: Seq<HostCall>,
    post: Seq<HostCall>,
    url: Seq<u8>,
    ident: int,
    result: Seq<u8>,
) -> bool {
    &&& pre.len() < post.len()
    &&& post.take(pre.len() as int) == pre
    &&& grow_trace(post.skip(pre.len() as int), url, ident, STARTING_CAPACITY as int, result)
}

/// One round of the protocol: offer a fresh scratch region of `cap` bytes,
/// and retry doubled if the host asks for more room.  The host's result
/// codes bound the capacity by `i32::MAX` before each doubling, so the
/// doubled size never overflows and the recursion bottoms out as soon as
/// the host stops asking for more.
fn fetch_from<H: HostCalls>(
    host: &mut H,
    ctx: &CallContext,
    url: &Vec<u8>,
    cap: usize,
) -> (result: Vec<u8>)
    requires
        cap >= 1,
    ensures
        old(host).calls().len() < final(host).calls().len(),
        final(host).calls().take(old(host).calls().len() as int) == old(host).calls(),
        grow_trace(
            final(host).calls().skip(old(host).calls().len() as int),
            url@,
            ctx.ident(),
            cap as int,
            result@,
        ),
    decreases (if cap as int >= 2147483647 { 0int } else { 2147483647 - cap as int }),
{
    let ghost pre = host.calls();
    let mut dest = allocate(cap);
    let code = host.fetch(url, &mut dest, ctx.current());
    let ghost entry = HostCall::Fetch {
        url: url@,
        capacity: cap as int,
        code: code as int,
        data: dest@,
        ident: ctx.ident(),
    };
    if code < 0 {
        let r = request_failed_payload(code);
        proof {
            assert(host.calls().take(pre.len() as int) =~= pre);
            assert(host.calls().skip(pre.len() as int) =~= seq![entry]);
        }
        r
    } else if code as usize > cap {
        let msg = doubling_payload(code);
        logging::info(host, ctx, &msg);
        let ghost mid = host.calls();
        let ghost log_entry = HostCall::Log {
            msg: doubling_text(code as int),
            level: logging::INFO_LEVEL as int,
            ident: ctx.ident(),
        };
        let r = fetch_from(host, ctx, url, 2 * cap);
        proof {
            let post = host.calls();
            assert(mid == pre.push(entry).push(log_entry));
            assert(mid.len() == pre.len() + 2);
            assert forall|i: int| 0 <= i < mid.len() implies post[i] == mid[i] by {
                assert(post.take(mid.len() as int)[i] == post[i]);
            }
            assert(post.take(pre.len() as int) =~= pre);
            let added = post.skip(pre.len() as int);
            assert(added[0] == post[pre.len() as int]);
            assert(added[0] == entry);
            assert(added[1] == post[pre.len() as int + 1]);
            assert(added[1] == log_entry);
            assert(added.skip(2) =~= post.skip(mid.len() as int));
            assert(grow_trace(added.skip(2), url@, ctx.ident(), 2 * (cap as int), r@));
        }
        r
    } else {
        let r = dest.read_prefix(code as usize);
        proof {
            assert(host.calls().take(pre.len() as int) =~= pre);
            assert(host.calls().skip(pre.len() as int) =~= seq![entry]);
        }
        r
    }
}

/// Makes a host-mediated fetch of `url` on behalf of the current
/// invocation.  Every outcome is encoded into the returned payload: the
/// fetched bytes on success, the `request_failed:<code>` text on failure —
/// callers cannot distinguish the two without inspecting content, a
/// conflation inherited from the protocol.
pub fn fetch<H: HostCalls>(host: &mut H, ctx: &CallContext, url: &Vec<u8>) -> (result: Vec<u8>)
    ensures
        fetch_trace(old(host).calls(), final(host).calls(), url@, ctx.ident(), result@),
        calls_tagged(old(host).calls(), final(host).calls(), ctx.ident()),
{
    let ghost pre = host.calls();
    let r = fetch_from(host, ctx, url, STARTING_CAPACITY);
    proof {
        let post = host.calls();
        lemma_grow_trace_tagged(
            post.skip(pre.len() as int),
            url@,
            ctx.ident(),
            STARTING_CAPACITY as int,
            r@,
        );
        assert forall|i: int| pre.len() <= i < post.len() implies #[trigger] post[i].ident()
            == ctx.ident() by {
            assert(post[i] == post.skip(pre.len() as int)[i - pre.len()]);
        }
    }
    r
}

/// Every call of a fetch exchange carries the exchange's identifier.
pub proof fn lemma_grow_trace_tagged(
    added: Seq<HostCall>,
    url: Seq<u8>,
    ident: int,
    cap: int,
    result: Seq<u8>,
)
    requires
        grow_trace(added, url, ident, cap, result),
    ensures
        forall|i: int| 0 <= i < added.len() ==> #[trigger] added[i].ident() == ident,
    decreases added.len(),
{
    match added[0] {
        HostCall::Fetch { code, .. } => {
            if code >= 0 && code > cap {
                lemma_grow_trace_tagged(added.skip(2), url, ident, 2 * cap, result);
                assert forall|i: int| 0 <= i < added.len() implies #[trigger] added[i].ident()
                    == ident by {
                    if i >= 2 {
                        assert(added[i] == added.skip(2)[i - 2]);
                    }
                }
            }
        },
        _ => {},
    }
}

/// Fetch success: a host that answers with a code within the offered
/// capacity ends the exchange at once — no retry — and the adapter returns
/// exactly the `code` bytes the host wrote.
pub proof fn lemma_fetch_success(
    added: Seq<HostCall>,
    url: Seq<u8>,
    ident: int,
    cap: int,
    result: Seq<u8>,
)
    requires
        grow_trace(added, url, ident, cap, result),
        added[0] matches HostCall::Fetch { code, .. } && 0 <= code <= cap,
    ensures
        added.len() == 1,
        added[0] matches HostCall::Fetch { code, data, .. } ==> result == data.take(code),
{
}

/// Fetch failure encoding: a negative result code ends the exchange at once
/// with the literal `request_failed:<code>` payload as the adapter's
/// successful output.
pub proof fn lemma_fetch_failure(
    added: Seq<HostCall>,
    url: Seq<u8>,
    ident: int,
    cap: int,
    result: Seq<u8>,
)
    requires
        grow_trace(added, url, ident, cap, result),
        added[0] matches HostCall::Fetch { code, .. } && code < 0,
    ensures
        added.len() == 1,
        added[0] matches HostCall::Fetch { code, .. } ==> result == request_failed_text(code),
{
}

/// Fetch growth: when the host reports a size beyond the offered capacity,
/// the adapter logs the size, doubles the capacity, and runs the rest of
/// the exchange at the doubled capacity.
pub proof fn lemma_fetch_growth(
    added: Seq<HostCall>,
    url: Seq<u8>,
    ident: int,
    cap: int,
    result: Seq<u8>,
)
    requires
        grow_trace(added, url, ident, cap, result),
        added[0] matches HostCall::Fetch { code, .. } && code > cap && code >= 0,
    ensures
        added.len() >= 3,
        added[0] matches HostCall::Fetch { code, .. } ==> added[1] == (HostCall::Log {
            msg: doubling_text(code),
            level: logging::INFO_LEVEL as int,
            ident: ident,
        }),
        added[2] matches HostCall::Fetch { capacity, .. } && capacity == 2 * cap,
        grow_trace(added.skip(2), url, ident, 2 * cap, result),
{
    let rest = added.skip(2);
    assert(grow_trace(rest, url, ident, 2 * cap, result));
    assert(rest.len() >= 1);
    assert(rest[0] == added[2]);
}

/// Fetch growth scenario: one too-small attempt answered within the doubled
/// capacity makes exactly two fetch attempts — with the log between them —
/// and returns the bytes of the second.
pub proof fn lemma_fetch_two_attempts(
    added: Seq<HostCall>,
    url: Seq<u8>,
    ident: int,
    cap: int,
    result: Seq<u8>,
)
    requires
        grow_trace(added, url, ident, cap, result),
        added[0] matches HostCall::Fetch { code, .. } && code > cap && code >= 0,
        added.len() >= 3 ==> (added[2] matches HostCall::Fetch { code, .. } && 0 <= code <= 2
            * cap),
    ensures
        added.len() == 3,
        added[2] matches HostCall::Fetch { code, data, .. } ==> result == data.take(code),
{
    lemma_fetch_growth(added, url, ident, cap, result);
    assert(added.skip(2)[0] == added[2]);
    lemma_fetch_success(added.skip(2), url, ident, 2 * cap, result);
}

} // verus!

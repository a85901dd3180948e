//! Log adapter: one-way message forwarding to the host.
//!
//! Fire-and-forget: the guest hands the message bytes, a severity level and
//! the current invocation's identifier to the host's logging import and gets
//! nothing back; failure of the underlying host call is unobservable.

use vstd::prelude::*;

use crate::context::CallContext;
use crate::host::{HostCall, HostCalls};

verus! {

/// The informational severity level.
pub const INFO_LEVEL: i32 = 3;

/// Forwards `msg` to the host's logging import at informational severity,
/// tagged with the current invocation's identifier.
pub fn info<H: HostCalls>(host: &mut H, ctx: &CallContext, msg: &Vec<u8>)
    ensures
        final(host).calls() == old(host).calls().push(
            HostCall::Log { msg: msg@, level: INFO_LEVEL as int, ident: ctx.ident() },
        ),
{
    host.log(msg, INFO_LEVEL, ctx.current());
}

/// The level-less variant of the near-duplicated host logging surface:
/// forwards `msg` like `info`, at the informational severity.
pub fn print<H: HostCalls>(host: &mut H, ctx: &CallContext, msg: &Vec<u8>)
    ensures
        final(host).calls() == old(host).calls().push(
            HostCall::Log { msg: msg@, level: INFO_LEVEL as int, ident: ctx.ident() },
        ),
{
    host.log(msg, INFO_LEVEL, ctx.current());
}

} // verus!

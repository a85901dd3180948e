//! The example unit of logic: echo the input behind a greeting.

use vstd::prelude::*;

use crate::context::CallContext;
use crate::entry::{invocation_trace, normalized};
use crate::host::{HostCall, HostCalls};
use crate::runnable::{dispatch_rel, output_view, Runnable};

verus! {

/// The greeting prefix `hello `.
pub open spec fn hello_text() -> Seq<u8> {
    seq![104u8, 101u8, 108u8, 108u8, 111u8, 32u8]
}

/// A unit of logic that makes no host calls and returns its input prefixed
/// with the greeting.
pub struct Example {}

impl<H: HostCalls> Runnable<H> for Example {
    /// The host log is untouched; the output is `hello ` + input.
    open spec fn run_rel(
        &self,
        pre: Seq<HostCall>,
        post: Seq<HostCall>,
        ident: int,
        input: Seq<u8>,
        output: Option<Seq<u8>>,
    ) -> bool {
        post == pre && output == Some(hello_text() + input)
    }

    fn run(&self, host: &mut H, _ctx: &CallContext, input: Vec<u8>) -> (r: Option<Vec<u8>>) {
        let mut out: Vec<u8> = vec![104u8, 101u8, 108u8, 108u8, 111u8, 32u8];
        proof {
            assert(out@ =~= hello_text() + input@.take(0));
        }
        let mut i: usize = 0;
        while i < input.len()
            invariant
                i <= input@.len(),
                out@ == hello_text() + input@.take(i as int),
            decreases input@.len() - i,
        {
            out.push(input[i]);
            proof {
                assert(hello_text() + input@.take(i + 1) =~= (hello_text() + input@.take(
                    i as int,
                )).push(input@[i as int]));
            }
            i += 1;
        }
        proof {
            assert(input@.take(input@.len() as int) =~= input@);
            assert(host.calls().take(host.calls().len() as int) =~= host.calls());
        }
        Some(out)
    }
}

/// Echo invocation law: with the example logic registered, one invocation
/// appends to the host log exactly one delivery, of the greeting followed
/// by the input bytes, tagged with the invocation's identifier.
pub proof fn lemma_echo_invocation<H: HostCalls>(
    pre: Seq<HostCall>,
    post: Seq<HostCall>,
    input: Seq<u8>,
    ident: int,
)
    requires
        invocation_trace::<H, Example>(Some(Example {}), pre, post, input, ident),
    ensures
        post == pre.push(HostCall::Deliver { data: hello_text() + input, ident: ident }),
{
    let output = choose|output: Option<Seq<u8>>|
        #[trigger] dispatch_rel::<H, Example>(
            Some(Example {}),
            pre,
            post.drop_last(),
            ident,
            input,
            output,
        ) && post.last() == (HostCall::Deliver { data: normalized(output), ident: ident });
    assert(post.drop_last() == pre);
    assert(output == Some(hello_text() + input));
    assert(post =~= post.drop_last().push(post.last()));
}

} // verus!

//! Tests of the call protocol against a scripted host double: invocation
//! delivery, the growable-buffer fetch exchange, and identifier
//! propagation.

use guest_shim::context::CallContext;
use guest_shim::entry::run_e;
use guest_shim::example::Example;
use guest_shim::host::HostCalls;
use guest_shim::logging::{info, print};
use guest_shim::net;
use guest_shim::region::{allocate, Region};
use guest_shim::run::{run, Fetch};
use guest_shim::runnable::{DefaultRunnable, Registry, Runnable};

/// One call as a test double observes it.
#[derive(Clone, Debug, PartialEq)]
enum Observed {
    Deliver { data: Vec<u8>, ident: i32 },
    Fetch { url: Vec<u8>, capacity: usize, code: i32, ident: i32 },
    Log { msg: Vec<u8>, level: i32, ident: i32 },
}

/// A host double: answers each fetch from a fixed script of
/// (result code, payload) pairs, and records every call it observes.
struct ScriptHost {
    observed: Vec<Observed>,
    script: Vec<(i32, Vec<u8>)>,
    step: usize,
}

impl ScriptHost {
    fn new(script: Vec<(i32, Vec<u8>)>) -> ScriptHost {
        ScriptHost { observed: Vec::new(), script, step: 0 }
    }

    fn idents(&self) -> Vec<i32> {
        self.observed
            .iter()
            .map(|o| match o {
                Observed::Deliver { ident, .. } => *ident,
                Observed::Fetch { ident, .. } => *ident,
                Observed::Log { ident, .. } => *ident,
            })
            .collect()
    }
}

impl HostCalls for ScriptHost {
    fn return_result(&mut self, result: Region, ident: i32) {
        let data = result.read();
        self.observed.push(Observed::Deliver { data, ident });
    }

    fn fetch(&mut self, url: &Vec<u8>, dest: &mut Region, ident: i32) -> i32 {
        let (code, payload) = self.script[self.step].clone();
        self.step += 1;
        if payload.len() <= dest.len() {
            dest.write(&payload);
        }
        self.observed.push(Observed::Fetch {
            url: url.clone(),
            capacity: dest.len(),
            code,
            ident,
        });
        code
    }

    fn log(&mut self, msg: &Vec<u8>, level: i32, ident: i32) {
        self.observed.push(Observed::Log { msg: msg.clone(), level, ident });
    }
}

#[test]
fn echo_invocation_delivers_greeting() {
    let mut registry: Registry<Example> = Registry::new();
    registry.set(Example {});
    let mut host = ScriptHost::new(Vec::new());
    let mut ctx = CallContext::default();

    let mut region = allocate(5);
    region.write(&b"world".to_vec());
    run_e(&registry, &mut host, &mut ctx, region, 5, 7);

    assert_eq!(
        host.observed,
        vec![Observed::Deliver { data: b"hello world".to_vec(), ident: 7 }]
    );
    assert_eq!(ctx.current(), 7);
}

#[test]
fn default_registry_delivers_no_data_text() {
    let registry: Registry<DefaultRunnable> = Registry::new();
    let mut host = ScriptHost::new(Vec::new());
    let mut ctx = CallContext::default();

    let mut region = allocate(8);
    region.write(&b"anything".to_vec());
    run_e(&registry, &mut host, &mut ctx, region, 8, 4);

    assert_eq!(
        host.observed,
        vec![Observed::Deliver { data: b"run returned no data".to_vec(), ident: 4 }]
    );
}

#[test]
fn fetch_success_returns_written_bytes_without_retry() {
    let mut host = ScriptHost::new(vec![(5, b"hello".to_vec())]);
    let mut ctx = CallContext::default();
    ctx.set(9);

    let result = net::fetch(&mut host, &ctx, &b"http://x".to_vec());

    assert_eq!(result, b"hello".to_vec());
    assert_eq!(
        host.observed,
        vec![Observed::Fetch { url: b"http://x".to_vec(), capacity: 256000, code: 5, ident: 9 }]
    );
}

#[test]
fn fetch_success_empty_payload() {
    let mut host = ScriptHost::new(vec![(0, Vec::new())]);
    let ctx = CallContext::default();

    let result = net::fetch(&mut host, &ctx, &b"u".to_vec());

    assert_eq!(result, Vec::<u8>::new());
    assert_eq!(host.observed.len(), 1);
}

#[test]
fn fetch_growth_doubles_and_retries_once() {
    let mut host = ScriptHost::new(vec![
        (256001, Vec::new()),
        (12, b"hello world!".to_vec()),
    ]);
    let mut ctx = CallContext::default();
    ctx.set(3);

    let result = net::fetch(&mut host, &ctx, &b"http://y".to_vec());

    assert_eq!(result, b"hello world!".to_vec());
    assert_eq!(
        host.observed,
        vec![
            Observed::Fetch {
                url: b"http://y".to_vec(),
                capacity: 256000,
                code: 256001,
                ident: 3,
            },
            Observed::Log {
                msg: b"doubling capacity, need 256001".to_vec(),
                level: 3,
                ident: 3,
            },
            Observed::Fetch {
                url: b"http://y".to_vec(),
                capacity: 512000,
                code: 12,
                ident: 3,
            },
        ]
    );
}

#[test]
fn fetch_failure_encodes_code_as_text() {
    let mut host = ScriptHost::new(vec![(-3, Vec::new())]);
    let ctx = CallContext::default();

    let result = net::fetch(&mut host, &ctx, &b"http://z".to_vec());

    assert_eq!(result, b"request_failed:-3".to_vec());
    assert_eq!(host.observed.len(), 1);
}

#[test]
fn identifier_propagates_to_every_host_call() {
    let mut registry: Registry<Fetch> = Registry::new();
    registry.set(Fetch {});
    let mut host = ScriptHost::new(vec![
        (256001, Vec::new()),
        (3, b"abc".to_vec()),
        (4, b"wxyz".to_vec()),
    ]);
    let mut ctx = CallContext::default();

    let mut region = allocate(8);
    region.write(&b"http://a".to_vec());
    run_e(&registry, &mut host, &mut ctx, region, 8, 1);

    // fetch, log, fetch, deliver — all tagged with the first identifier
    assert_eq!(host.idents(), vec![1, 1, 1, 1]);
    assert_eq!(
        host.observed[3],
        Observed::Deliver { data: b"abc".to_vec(), ident: 1 }
    );

    let mut region = allocate(8);
    region.write(&b"http://b".to_vec());
    run_e(&registry, &mut host, &mut ctx, region, 8, 2);

    // the second invocation shows the new identifier in all its calls
    assert_eq!(host.idents(), vec![1, 1, 1, 1, 2, 2]);
    assert_eq!(
        host.observed[5],
        Observed::Deliver { data: b"wxyz".to_vec(), ident: 2 }
    );
}

#[test]
fn dispatch_with_nothing_registered_returns_none() {
    let registry: Registry<DefaultRunnable> = Registry::new();
    let mut host = ScriptHost::new(Vec::new());
    let ctx = CallContext::default();

    let output = registry.dispatch(&mut host, &ctx, b"in".to_vec());

    assert_eq!(output, None);
    assert!(host.observed.is_empty());
}

#[test]
fn example_run_prefixes_greeting() {
    let mut host = ScriptHost::new(Vec::new());
    let ctx = CallContext::default();

    let output = Example {}.run(&mut host, &ctx, b"abc".to_vec());

    assert_eq!(output, Some(b"hello abc".to_vec()));
    assert!(host.observed.is_empty());
}

#[test]
fn run_fetches_input_as_descriptor() {
    let mut host = ScriptHost::new(vec![(2, b"ok".to_vec())]);
    let mut ctx = CallContext::default();
    ctx.set(6);

    let output = run(&mut host, &ctx, b"http://c".to_vec());

    assert_eq!(output, Some(b"ok".to_vec()));
    assert_eq!(
        host.observed,
        vec![Observed::Fetch { url: b"http://c".to_vec(), capacity: 256000, code: 2, ident: 6 }]
    );
}

#[test]
fn info_and_print_forward_message_with_level() {
    let mut host = ScriptHost::new(Vec::new());
    let mut ctx = CallContext::default();
    ctx.set(5);

    info(&mut host, &ctx, &b"hi".to_vec());
    print(&mut host, &ctx, &b"there".to_vec());

    assert_eq!(
        host.observed,
        vec![
            Observed::Log { msg: b"hi".to_vec(), level: 3, ident: 5 },
            Observed::Log { msg: b"there".to_vec(), level: 3, ident: 5 },
        ]
    );
}

#[test]
fn registry_set_replaces_previous_logic() {
    let mut registry: Registry<Example> = Registry::new();
    registry.set(Example {});
    registry.set(Example {});
    let mut host = ScriptHost::new(Vec::new());
    let mut ctx = CallContext::default();

    let mut region = allocate(2);
    region.write(&b"hi".to_vec());
    run_e(&registry, &mut host, &mut ctx, region, 2, 11);

    assert_eq!(
        host.observed,
        vec![Observed::Deliver { data: b"hello hi".to_vec(), ident: 11 }]
    );
}

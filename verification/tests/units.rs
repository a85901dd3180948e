//! Tests of the leaf components: regions, the call context, and the fixed
//! protocol texts.

use guest_shim::context::CallContext;
use guest_shim::region::{allocate, deallocate};
use guest_shim::text::{
    doubling_payload, no_data_payload, push_decimal, request_failed_payload,
};

#[test]
fn region_round_trip() {
    let mut region = allocate(5);
    assert_eq!(region.len(), 5);
    let data = b"world".to_vec();
    region.write(&data);
    assert_eq!(region.read(), b"world".to_vec());
    deallocate(region, 5);
}

#[test]
fn region_round_trip_empty() {
    let region = allocate(0);
    assert_eq!(region.len(), 0);
    assert_eq!(region.read(), Vec::<u8>::new());
    deallocate(region, 0);
}

#[test]
fn region_prefix_write_and_read() {
    let mut region = allocate(4);
    let data = b"ab".to_vec();
    region.write(&data);
    assert_eq!(region.read_prefix(2), b"ab".to_vec());
    assert_eq!(region.len(), 4);
}

#[test]
fn context_starts_at_zero_and_tracks_set() {
    let mut ctx = CallContext::default();
    assert_eq!(ctx.current(), 0);
    ctx.set(9);
    assert_eq!(ctx.current(), 9);
    ctx.set(-4);
    assert_eq!(ctx.current(), -4);
}

#[test]
fn no_data_text_is_exact() {
    assert_eq!(no_data_payload(), b"run returned no data".to_vec());
}

#[test]
fn request_failed_text_is_exact() {
    assert_eq!(request_failed_payload(-3), b"request_failed:-3".to_vec());
    assert_eq!(request_failed_payload(0), b"request_failed:0".to_vec());
    assert_eq!(request_failed_payload(-110), b"request_failed:-110".to_vec());
}

#[test]
fn doubling_text_is_exact() {
    assert_eq!(
        doubling_payload(256001),
        b"doubling capacity, need 256001".to_vec()
    );
}

#[test]
fn decimal_rendering_edges() {
    let mut out = Vec::new();
    push_decimal(0, &mut out);
    assert_eq!(out, b"0".to_vec());

    let mut out = Vec::new();
    push_decimal(2147483647, &mut out);
    assert_eq!(out, b"2147483647".to_vec());

    let mut out = Vec::new();
    push_decimal(-2147483648, &mut out);
    assert_eq!(out, b"-2147483648".to_vec());
}

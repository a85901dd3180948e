//! Guest-side runtime shim for sandboxed compute units.
//!
//! A guest module exchanges opaque byte buffers with a host process across a
//! minimal calling boundary.  The host hands the guest memory regions to fill,
//! starts invocations through an exported entry point, and provides three
//! imported calls (result delivery, network fetch, logging).  This crate owns
//! the protocol around that boundary: region lifecycle, per-invocation call
//! context, the growable-buffer fetch protocol, and dispatch of the single
//! registered unit of logic.

pub mod context;
pub mod entry;
pub mod example;
pub mod host;
pub mod logging;
pub mod net;
pub mod region;
pub mod run;
pub mod runnable;
pub mod text;

//! A notebook server's verified core: the kernel session bridge.
//!
//! Browser clients submit cells of code over a duplex connection; one
//! long-lived kernel process runs them, one at a time; its status and
//! output events come back asynchronously and are fanned out to every
//! connected client. This crate holds the decisions of that bridge —
//! the kernel lifecycle, the submission serialization, the event
//! normalizer, and the client registry — each with its contract. The
//! I/O around it (HTTP, websockets, the kernel wire protocol, the
//! filesystem) lives outside and hands the library plain values.

pub mod bridge;
pub mod connection;
pub mod files;
pub mod kernel;
pub mod models;
pub mod normalize;
pub mod numfmt;
pub mod registry;
pub mod wire;

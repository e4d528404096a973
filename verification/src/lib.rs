//! Verified translation core of a completion-queue-based I/O layer.
//!
//! Every operation of the surrounding runtime is split into a pure part,
//! verified here — building the kernel submission description, marshalling
//! socket addresses to and from their kernel byte layout, deciding the
//! multi-address connect fallback, and normalizing signed completion codes —
//! and an effectful part that merely submits, awaits and hands the raw
//! outcome back to this crate.

pub mod addr;
pub mod connect;
pub mod errors;
pub mod processor;
pub mod request;
pub mod slots;
pub mod wire;

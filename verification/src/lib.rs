//! Marshalling layer for a kernel display-control interface.
//!
//! Typed requests are packed into fixed-layout records; kernel-owned arrays of
//! unknown, possibly changing length are retrieved with a probe / allocate /
//! fetch / verify-or-retry protocol whose convergence logic is verified here.
//! The raw kernel calls themselves are performed by the (unverified) caller,
//! which hands each reply record back to the session types of this crate.

pub mod connector;
pub mod crtc;
pub mod dumbbuffer;
pub mod error;
pub mod fetch;
pub mod framebuffer;
pub mod lease;
pub mod plane;
pub mod property;
pub mod records;
pub mod resources;

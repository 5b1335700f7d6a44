//! Thin device-control bridges: a UDP command sender for smart lights, the
//! decision logic behind an HTTP remote-control client, and stubs for local
//! discovery and wireless scanning. Every request-building and classification
//! step is verified; the surrounding I/O lives outside this crate.

pub mod error;
pub mod govee;
pub mod json;
pub mod roku;
pub mod roomsense;
pub mod text;

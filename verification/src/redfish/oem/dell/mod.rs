//! Dell's extensions.

pub mod idrac;

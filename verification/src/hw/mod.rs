//! The hardware that the mock can stand for.

pub mod bluefield3;

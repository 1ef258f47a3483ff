//! NVIDIA's extensions.

pub mod bluefield;

//! Extension traits for std collections.

pub mod vec;

//! A minimal boundary layer: value-only operations exposed to a native host,
//! and the guard that governs what happens on an unrecoverable fault.

pub mod boundary;
pub mod guard;

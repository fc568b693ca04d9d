//! Failure taxonomy and compile-time byte-order configuration for a compact
//! binary codec.
//!
//! The `error` module classifies every way a (de)serialization operation can
//! fail and renders each failure as a stable, human-readable message. The
//! `byteorder` module provides the little-endian, big-endian and native
//! byte-order strategies that numeric encoders are instantiated with, and
//! `config::endian` maps the zero-sized marker types onto those strategies
//! purely through the type system.

pub mod byteorder;
pub mod config;
pub mod error;

//! Compile-time configuration of the codec; `endian` selects the byte order.

pub mod endian;

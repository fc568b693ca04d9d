//! Byte-order configuration: zero-sized marker types and the trait that
//! maps each marker, at compile time, onto its byte-order strategy.
//!
//! The codec is generic over one of the three markers; wherever it reads or
//! writes a multi-byte integer it calls the operations of the associated
//! strategy type. The choice is resolved entirely through the type system:
//! two codecs configured with different markers are different compiled
//! specializations, with no stored flag and no per-call branching.

use crate::byteorder::ByteOrder;
use vstd::prelude::*;

verus! {

/// Maps a byte-order marker type onto its concrete byte-order strategy.
/// The mapping is total and fixed at compile time: a given marker always
/// resolves to the same strategy.
pub trait BincodeByteOrder {
    /// The byte-order strategy this marker stands for.
    type Endian: ByteOrder + 'static;
}

/// Little-endian byte ordering.
#[derive(Copy, Clone)]
pub struct LittleEndian;

/// Big-endian byte ordering.
#[derive(Copy, Clone)]
pub struct BigEndian;

/// The native byte ordering of the current system.
#[derive(Copy, Clone)]
pub struct NativeEndian;

impl BincodeByteOrder for LittleEndian {
    type Endian = crate::byteorder::LittleEndian;
}

impl BincodeByteOrder for BigEndian {
    type Endian = crate::byteorder::BigEndian;
}

impl BincodeByteOrder for NativeEndian {
    type Endian = crate::byteorder::NativeEndian;
}

/// Law: the three byte-order markers resolve to three mutually distinct
/// strategies — no two markers share an associated strategy, as the
/// strategies' pairwise distinct identities show.
pub proof fn lemma_marker_strategies_distinct()
    ensures
        <<LittleEndian as BincodeByteOrder>::Endian as ByteOrder>::order_id()
            != <<BigEndian as BincodeByteOrder>::Endian as ByteOrder>::order_id(),
        <<LittleEndian as BincodeByteOrder>::Endian as ByteOrder>::order_id()
            != <<NativeEndian as BincodeByteOrder>::Endian as ByteOrder>::order_id(),
        <<BigEndian as BincodeByteOrder>::Endian as ByteOrder>::order_id()
            != <<NativeEndian as BincodeByteOrder>::Endian as ByteOrder>::order_id(),
{
}

} // verus!

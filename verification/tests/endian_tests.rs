use bincode_core::byteorder::ByteOrder;
use bincode_core::byteorder::{BigEndian, LittleEndian, NativeEndian};
use bincode_core::config::endian;
use bincode_core::config::endian::BincodeByteOrder;
use core::any::TypeId;

#[test]
fn markers_resolve_to_three_distinct_strategies() {
    let little = TypeId::of::<<endian::LittleEndian as BincodeByteOrder>::Endian>();
    let big = TypeId::of::<<endian::BigEndian as BincodeByteOrder>::Endian>();
    let native = TypeId::of::<<endian::NativeEndian as BincodeByteOrder>::Endian>();
    assert_ne!(little, big);
    assert_ne!(little, native);
    assert_ne!(big, native);
}

#[test]
fn markers_resolve_to_their_own_strategies() {
    assert_eq!(
        TypeId::of::<<endian::LittleEndian as BincodeByteOrder>::Endian>(),
        TypeId::of::<LittleEndian>()
    );
    assert_eq!(
        TypeId::of::<<endian::BigEndian as BincodeByteOrder>::Endian>(),
        TypeId::of::<BigEndian>()
    );
    assert_eq!(
        TypeId::of::<<endian::NativeEndian as BincodeByteOrder>::Endian>(),
        TypeId::of::<NativeEndian>()
    );
}

#[test]
fn little_writes_least_significant_byte_first() {
    assert_eq!(LittleEndian::write_u16(0x0102), vec![0x02, 0x01]);
    assert_eq!(LittleEndian::write_u32(0x01020304), vec![0x04, 0x03, 0x02, 0x01]);
    assert_eq!(
        LittleEndian::write_u64(0x0102030405060708),
        vec![0x08, 0x07, 0x06, 0x05, 0x04, 0x03, 0x02, 0x01]
    );
}

#[test]
fn big_writes_most_significant_byte_first() {
    assert_eq!(BigEndian::write_u16(0x0102), vec![0x01, 0x02]);
    assert_eq!(BigEndian::write_u32(0x01020304), vec![0x01, 0x02, 0x03, 0x04]);
    assert_eq!(
        BigEndian::write_u64(0x0102030405060708),
        vec![0x01, 0x02, 0x03, 0x04, 0x05, 0x06, 0x07, 0x08]
    );
}

#[test]
fn little_and_big_renderings_are_exact_reversals() {
    for n in [0u64, 1, 0xAB, 0x1234, 0xDEADBEEF, 0x0102030405060708, u64::MAX] {
        let mut le = LittleEndian::write_u64(n);
        let be = BigEndian::write_u64(n);
        le.reverse();
        assert_eq!(le, be);
    }
    for n in [0u32, 7, 0xCAFE, 0xDEADBEEF, u32::MAX] {
        let mut le = LittleEndian::write_u32(n);
        let be = BigEndian::write_u32(n);
        le.reverse();
        assert_eq!(le, be);
    }
    for n in [0u16, 1, 0x00FF, 0xFF00, u16::MAX] {
        let mut le = LittleEndian::write_u16(n);
        let be = BigEndian::write_u16(n);
        le.reverse();
        assert_eq!(le, be);
    }
}

#[test]
fn little_round_trips_every_width() {
    for n in [0u16, 1, 0x1234, u16::MAX] {
        assert_eq!(LittleEndian::read_u16(&LittleEndian::write_u16(n)), n);
    }
    for n in [0u32, 0xDEADBEEF, u32::MAX] {
        assert_eq!(LittleEndian::read_u32(&LittleEndian::write_u32(n)), n);
    }
    for n in [0u64, 0x0102030405060708, u64::MAX] {
        assert_eq!(LittleEndian::read_u64(&LittleEndian::write_u64(n)), n);
    }
}

#[test]
fn big_round_trips_every_width() {
    for n in [0u16, 1, 0x1234, u16::MAX] {
        assert_eq!(BigEndian::read_u16(&BigEndian::write_u16(n)), n);
    }
    for n in [0u32, 0xDEADBEEF, u32::MAX] {
        assert_eq!(BigEndian::read_u32(&BigEndian::write_u32(n)), n);
    }
    for n in [0u64, 0x0102030405060708, u64::MAX] {
        assert_eq!(BigEndian::read_u64(&BigEndian::write_u64(n)), n);
    }
}

#[test]
fn native_round_trips_and_matches_one_fixed_order() {
    for n in [0x1234u16, u16::MAX] {
        assert_eq!(NativeEndian::read_u16(&NativeEndian::write_u16(n)), n);
    }
    for n in [0xDEADBEEFu32, u32::MAX] {
        assert_eq!(NativeEndian::read_u32(&NativeEndian::write_u32(n)), n);
    }
    for n in [0x0102030405060708u64, u64::MAX] {
        assert_eq!(NativeEndian::read_u64(&NativeEndian::write_u64(n)), n);
    }
    let native = NativeEndian::write_u32(0x01020304);
    let little = LittleEndian::write_u32(0x01020304);
    let big = BigEndian::write_u32(0x01020304);
    assert!(native == little || native == big);
    assert_eq!(native, 0x01020304u32.to_ne_bytes().to_vec());
}

#[test]
fn reads_agree_with_the_byte_interpretation() {
    let bytes = [0x04u8, 0x03, 0x02, 0x01];
    assert_eq!(LittleEndian::read_u32(&bytes), 0x01020304);
    assert_eq!(BigEndian::read_u32(&bytes), 0x04030201);
    assert_eq!(LittleEndian::read_u16(&bytes[..2]), 0x0304);
    assert_eq!(BigEndian::read_u16(&bytes[..2]), 0x0403);
}

//! Byte-order strategies: the little-endian, big-endian and native
//! renderings of multi-byte integers, with the read/write operations that
//! numeric encoders call through [`crate::config::endian::BincodeByteOrder`].

use vstd::prelude::*;

verus! {

/// `256` raised to `width`: the number of values `width` bytes can carry.
pub open spec fn pow256(width: nat) -> nat
    decreases width,
{
    if width == 0 {
        1
    } else {
        256 * pow256((width - 1) as nat)
    }
}

/// The little-endian bytes of `n` over `width` bytes: least significant
/// byte first.
pub open spec fn le_bytes(n: nat, width: nat) -> Seq<u8>
    decreases width,
{
    if width == 0 {
        Seq::empty()
    } else {
        seq![(n % 256) as u8] + le_bytes(n / 256, (width - 1) as nat)
    }
}

/// The big-endian bytes of `n` over `width` bytes: most significant byte
/// first.
pub open spec fn be_bytes(n: nat, width: nat) -> Seq<u8>
    decreases width,
{
    if width == 0 {
        Seq::empty()
    } else {
        be_bytes(n / 256, (width - 1) as nat).push((n % 256) as u8)
    }
}

/// The value that the bytes `s` stand for when read little-endian.
pub open spec fn le_value(s: Seq<u8>) -> nat
    decreases s.len(),
{
    if s.len() == 0 {
        0
    } else {
        (s[0] + 256 * le_value(s.drop_first())) as nat
    }
}

/// The value that the bytes `s` stand for when read big-endian.
pub open spec fn be_value(s: Seq<u8>) -> nat
    decreases s.len(),
{
    if s.len() == 0 {
        0
    } else {
        (256 * be_value(s.drop_last()) + s.last()) as nat
    }
}

/// A little-endian rendering is `width` bytes long.
pub proof fn lemma_le_bytes_len(n: nat, width: nat)
    ensures
        le_bytes(n, width).len() == width,
    decreases width,
{
    if width > 0 {
        lemma_le_bytes_len(n / 256, (width - 1) as nat);
    }
}

/// A big-endian rendering is `width` bytes long.
pub proof fn lemma_be_bytes_len(n: nat, width: nat)
    ensures
        be_bytes(n, width).len() == width,
    decreases width,
{
    if width > 0 {
        lemma_be_bytes_len(n / 256, (width - 1) as nat);
    }
}

/// The value read little-endian from `width` bytes is below `pow256(width)`.
pub proof fn lemma_le_value_bound(s: Seq<u8>)
    ensures
        le_value(s) < pow256(s.len()),
    decreases s.len(),
{
    if s.len() > 0 {
        lemma_le_value_bound(s.drop_first());
    }
}

/// Reading back the little-endian bytes of `n` recovers `n`, for any `n`
/// that `width` bytes can carry.
pub proof fn lemma_le_round_trip(n: nat, width: nat)
    requires
        n < pow256(width),
    ensures
        le_value(le_bytes(n, width)) == n,
    decreases width,
{
    if width > 0 {
        lemma_le_bytes_len(n / 256, (width - 1) as nat);
        assert(le_bytes(n, width).drop_first() =~= le_bytes(n / 256, (width - 1) as nat));
        lemma_le_round_trip(n / 256, (width - 1) as nat);
    }
}

/// The little-endian bytes of the value read from `s` are `s` itself:
/// every byte sequence is the little-endian rendering of exactly one value.
pub proof fn lemma_le_bytes_of_value(s: Seq<u8>)
    ensures
        le_bytes(le_value(s), s.len()) == s,
    decreases s.len(),
{
    if s.len() > 0 {
        lemma_le_bytes_of_value(s.drop_first());
        assert(le_value(s) % 256 == s[0]);
        assert(le_value(s) / 256 == le_value(s.drop_first()));
        assert(le_bytes(le_value(s), s.len()) =~= s);
    }
}

/// Law: for every value and width, the big-endian rendering is the exact
/// reversal of the little-endian rendering.
pub proof fn lemma_be_is_le_reversed(n: nat, width: nat)
    ensures
        be_bytes(n, width) == le_bytes(n, width).reverse(),
    decreases width,
{
    lemma_le_bytes_len(n, width);
    lemma_be_bytes_len(n, width);
    if width > 0 {
        lemma_be_is_le_reversed(n / 256, (width - 1) as nat);
        lemma_le_bytes_len(n / 256, (width - 1) as nat);
        lemma_be_bytes_len(n / 256, (width - 1) as nat);
        assert(be_bytes(n, width) =~= le_bytes(n, width).reverse());
    } else {
        assert(be_bytes(n, width) =~= le_bytes(n, width).reverse());
    }
}

/// The value read big-endian from `width` bytes is below `pow256(width)`.
pub proof fn lemma_be_value_bound(s: Seq<u8>)
    ensures
        be_value(s) < pow256(s.len()),
    decreases s.len(),
{
    if s.len() > 0 {
        lemma_be_value_bound(s.drop_last());
    }
}

/// Reading back the big-endian bytes of `n` recovers `n`, for any `n` that
/// `width` bytes can carry.
pub proof fn lemma_be_round_trip(n: nat, width: nat)
    requires
        n < pow256(width),
    ensures
        be_value(be_bytes(n, width)) == n,
    decreases width,
{
    if width > 0 {
        lemma_be_bytes_len(n / 256, (width - 1) as nat);
        assert(be_bytes(n, width).drop_last() =~= be_bytes(n / 256, (width - 1) as nat));
        lemma_be_round_trip(n / 256, (width - 1) as nat);
    }
}

/// The big-endian bytes of the value read from `s` are `s` itself: every
/// byte sequence is the big-endian rendering of exactly one value.
pub proof fn lemma_be_bytes_of_value(s: Seq<u8>)
    ensures
        be_bytes(be_value(s), s.len()) == s,
    decreases s.len(),
{
    if s.len() > 0 {
        lemma_be_bytes_of_value(s.drop_last());
        assert(be_value(s) % 256 == s.last());
        assert(be_value(s) / 256 == be_value(s.drop_last()));
        assert(be_bytes(be_value(s), s.len()) =~= s);
    }
}

/// Law: decoding what was encoded recovers the value. Two values that
/// `width` bytes can carry and that share one little-endian rendering are
/// equal, so a read of written little-endian bytes returns what was
/// written.
pub proof fn lemma_le_encoding_unambiguous(n: nat, m: nat, s: Seq<u8>)
    requires
        n < pow256(s.len()),
        m < pow256(s.len()),
        s == le_bytes(n, s.len()),
        s == le_bytes(m, s.len()),
    ensures
        n == m,
{
    lemma_le_round_trip(n, s.len());
    lemma_le_round_trip(m, s.len());
}

/// Law: decoding what was encoded recovers the value. Two values that
/// `width` bytes can carry and that share one big-endian rendering are
/// equal, so a read of written big-endian bytes returns what was written.
pub proof fn lemma_be_encoding_unambiguous(n: nat, m: nat, s: Seq<u8>)
    requires
        n < pow256(s.len()),
        m < pow256(s.len()),
        s == be_bytes(n, s.len()),
        s == be_bytes(m, s.len()),
    ensures
        n == m,
{
    lemma_be_round_trip(n, s.len());
    lemma_be_round_trip(m, s.len());
}

/// Writes the `width` little-endian bytes of `n`.
fn le_bytes_of(n: u64, width: usize) -> (r: Vec<u8>)
    ensures
        r@ == le_bytes(n as nat, width as nat),
        r@.len() == width,
{
    let mut v: Vec<u8> = Vec::new();
    let mut m: u64 = n;
    let mut i: usize = 0;
    while i < width
        invariant
            i <= width,
            v@.len() == i,
            le_bytes(n as nat, width as nat) == v@ + le_bytes(
                m as nat,
                (width - i) as nat,
            ),
        decreases width - i,
    {
        v.push((m % 256) as u8);
        m = m / 256;
        i = i + 1;
        proof {
            assert(le_bytes(n as nat, width as nat) =~= v@ + le_bytes(
                m as nat,
                (width - i) as nat,
            ));
        }
    }
    proof {
        assert(le_bytes(n as nat, width as nat) =~= v@);
    }
    v
}

/// Writes the `width` big-endian bytes of `n`: the little-endian bytes
/// reversed.
fn be_bytes_of(n: u64, width: usize) -> (r: Vec<u8>)
    ensures
        r@ == be_bytes(n as nat, width as nat),
        r@.len() == width,
{
    let le = le_bytes_of(n, width);
    let mut v: Vec<u8> = Vec::new();
    let mut i: usize = width;
    while i > 0
        invariant
            i <= width,
            le@ == le_bytes(n as nat, width as nat),
            le@.len() == width,
            v@.len() == width - i,
            forall|j: int| 0 <= j < v@.len() ==> v@[j] == le@[width - 1 - j],
        decreases i,
    {
        let b = le[i - 1];
        v.push(b);
        i = i - 1;
    }
    proof {
        lemma_be_is_le_reversed(n as nat, width as nat);
        assert(v@ =~= le@.reverse());
    }
    v
}

/// Reads a value from little-endian bytes; at most eight, so that it fits
/// a `u64`.
fn le_value_of(b: &[u8]) -> (r: u64)
    requires
        b@.len() <= 8,
    ensures
        r as nat == le_value(b@),
{
    let mut r: u64 = 0;
    let mut i: usize = b.len();
    while i > 0
        invariant
            i <= b@.len() <= 8,
            r as nat == le_value(b@.subrange(i as int, b@.len() as int)),
        decreases i,
    {
        proof {
            lemma_le_value_bound(b@.subrange(i as int, b@.len() as int));
            lemma_pow256_monotone((b@.len() - i) as nat, 7);
            lemma_pow256_7();
            assert(b@.subrange(i - 1, b@.len() as int).drop_first() =~= b@.subrange(
                i as int,
                b@.len() as int,
            ));
        }
        let byte = b[i - 1];
        r = r * 256 + (byte as u64);
        i = i - 1;
    }
    proof {
        assert(b@.subrange(0, b@.len() as int) =~= b@);
    }
    r
}

/// Reads a value from big-endian bytes; at most eight, so that it fits a
/// `u64`.
fn be_value_of(b: &[u8]) -> (r: u64)
    requires
        b@.len() <= 8,
    ensures
        r as nat == be_value(b@),
{
    let mut r: u64 = 0;
    let mut i: usize = 0;
    while i < b.len()
        invariant
            i <= b@.len() <= 8,
            r as nat == be_value(b@.subrange(0, i as int)),
        decreases b@.len() - i,
    {
        proof {
            lemma_be_value_bound(b@.subrange(0, i as int));
            lemma_pow256_monotone(i as nat, 7);
            lemma_pow256_7();
            assert(b@.subrange(0, i + 1).drop_last() =~= b@.subrange(0, i as int));
        }
        let byte = b[i];
        r = r * 256 + (byte as u64);
        i = i + 1;
    }
    proof {
        assert(b@.subrange(0, b@.len() as int) =~= b@);
    }
    r
}

/// A byte-order strategy: the primitive multi-byte read and write
/// operations that numeric encoders call. Each strategy fixes an encoding
/// relation `encodes(n, s)`: the bytes `s` render the value `n`, over
/// `s.len()` bytes, under that strategy's byte order. The little- and
/// big-endian strategies pin the bytes exactly; the native strategy allows
/// whichever of the two the target machine uses.
pub trait ByteOrder {
    /// The identity of the strategy; the three strategies carry three
    /// pairwise distinct identities.
    spec fn order_id() -> nat;

    /// The strategy's encoding relation between a value and its bytes.
    spec fn encodes(n: nat, s: Seq<u8>) -> bool;

    /// Writes `n` as two bytes in this strategy's order.
    fn write_u16(n: u16) -> (r: Vec<u8>)
        ensures
            r@.len() == 2,
            Self::encodes(n as nat, r@),
    ;

    /// Reads a `u16` from two bytes in this strategy's order.
    fn read_u16(b: &[u8]) -> (r: u16)
        requires
            b@.len() == 2,
        ensures
            Self::encodes(r as nat, b@),
    ;

    /// Writes `n` as four bytes in this strategy's order.
    fn write_u32(n: u32) -> (r: Vec<u8>)
        ensures
            r@.len() == 4,
            Self::encodes(n as nat, r@),
    ;

    /// Reads a `u32` from four bytes in this strategy's order.
    fn read_u32(b: &[u8]) -> (r: u32)
        requires
            b@.len() == 4,
        ensures
            Self::encodes(r as nat, b@),
    ;

    /// Writes `n` as eight bytes in this strategy's order.
    fn write_u64(n: u64) -> (r: Vec<u8>)
        ensures
            r@.len() == 8,
            Self::encodes(n as nat, r@),
    ;

    /// Reads a `u64` from eight bytes in this strategy's order.
    fn read_u64(b: &[u8]) -> (r: u64)
        requires
            b@.len() == 8,
        ensures
            Self::encodes(r as nat, b@),
    ;
}

/// The little-endian byte-order strategy.
pub struct LittleEndian;

/// The big-endian byte-order strategy.
pub struct BigEndian;

/// The byte-order strategy of the machine the codec runs on: it renders
/// values in whichever of the two orders the target uses, the same one for
/// every operation of one program run.
pub struct NativeEndian;

/// The counts of values that two and four bytes can carry, spelled out.
proof fn lemma_pow256_widths()
    ensures
        pow256(2) == 0x1_0000,
        pow256(4) == 0x1_0000_0000,
{
    assert(pow256(0) == 1);
    assert(pow256(1) == 0x100);
    assert(pow256(2) == 0x1_0000);
    assert(pow256(3) == 0x100_0000);
}

impl ByteOrder for LittleEndian {
    open spec fn order_id() -> nat {
        0
    }

    open spec fn encodes(n: nat, s: Seq<u8>) -> bool {
        s == le_bytes(n, s.len())
    }

    fn write_u16(n: u16) -> (r: Vec<u8>) {
        le_bytes_of(n as u64, 2)
    }

    fn read_u16(b: &[u8]) -> (r: u16) {
        let v = le_value_of(b);
        proof {
            lemma_le_value_bound(b@);
            lemma_pow256_widths();
            lemma_le_bytes_of_value(b@);
        }
        v as u16
    }

    fn write_u32(n: u32) -> (r: Vec<u8>) {
        le_bytes_of(n as u64, 4)
    }

    fn read_u32(b: &[u8]) -> (r: u32) {
        let v = le_value_of(b);
        proof {
            lemma_le_value_bound(b@);
            lemma_pow256_widths();
            lemma_le_bytes_of_value(b@);
        }
        v as u32
    }

    fn write_u64(n: u64) -> (r: Vec<u8>) {
        le_bytes_of(n, 8)
    }

    fn read_u64(b: &[u8]) -> (r: u64) {
        let v = le_value_of(b);
        proof {
            lemma_le_bytes_of_value(b@);
        }
        v
    }
}

impl ByteOrder for BigEndian {
    open spec fn order_id() -> nat {
        1
    }

    open spec fn encodes(n: nat, s: Seq<u8>) -> bool {
        s == be_bytes(n, s.len())
    }

    fn write_u16(n: u16) -> (r: Vec<u8>) {
        be_bytes_of(n as u64, 2)
    }

    fn read_u16(b: &[u8]) -> (r: u16) {
        let v = be_value_of(b);
        proof {
            lemma_be_value_bound(b@);
            lemma_pow256_widths();
            lemma_be_bytes_of_value(b@);
        }
        v as u16
    }

    fn write_u32(n: u32) -> (r: Vec<u8>) {
        be_bytes_of(n as u64, 4)
    }

    fn read_u32(b: &[u8]) -> (r: u32) {
        let v = be_value_of(b);
        proof {
            lemma_be_value_bound(b@);
            lemma_pow256_widths();
            lemma_be_bytes_of_value(b@);
        }
        v as u32
    }

    fn write_u64(n: u64) -> (r: Vec<u8>) {
        be_bytes_of(n, 8)
    }

    fn read_u64(b: &[u8]) -> (r: u64) {
        let v = be_value_of(b);
        proof {
            lemma_be_bytes_of_value(b@);
        }
        v
    }
}

/// Relies on `u16::to_ne_bytes`: the bytes render the value in the
/// target's own byte order, so in either the little- or the big-endian
/// order.
#[verifier::external_body]
fn u16_ne_bytes(n: u16) -> (r: Vec<u8>)
    ensures
        r@ == le_bytes(n as nat, 2) || r@ == be_bytes(n as nat, 2),
{
    n.to_ne_bytes().to_vec()
}

/// Relies on `u32::to_ne_bytes`: the bytes render the value in the
/// target's own byte order, so in either the little- or the big-endian
/// order.
#[verifier::external_body]
fn u32_ne_bytes(n: u32) -> (r: Vec<u8>)
    ensures
        r@ == le_bytes(n as nat, 4) || r@ == be_bytes(n as nat, 4),
{
    n.to_ne_bytes().to_vec()
}

/// Relies on `u64::to_ne_bytes`: the bytes render the value in the
/// target's own byte order, so in either the little- or the big-endian
/// order.
#[verifier::external_body]
fn u64_ne_bytes(n: u64) -> (r: Vec<u8>)
    ensures
        r@ == le_bytes(n as nat, 8) || r@ == be_bytes(n as nat, 8),
{
    n.to_ne_bytes().to_vec()
}

/// Relies on `u16::from_ne_bytes`: the result is the value the bytes
/// render in the target's own byte order, so they are its little- or its
/// big-endian bytes.
#[verifier::external_body]
fn u16_from_ne(b: &[u8]) -> (r: u16)
    requires
        b@.len() == 2,
    ensures
        b@ == le_bytes(r as nat, 2) || b@ == be_bytes(r as nat, 2),
{
    u16::from_ne_bytes([b[0], b[1]])
}

/// Relies on `u32::from_ne_bytes`: the result is the value the bytes
/// render in the target's own byte order, so they are its little- or its
/// big-endian bytes.
#[verifier::external_body]
fn u32_from_ne(b: &[u8]) -> (r: u32)
    requires
        b@.len() == 4,
    ensures
        b@ == le_bytes(r as nat, 4) || b@ == be_bytes(r as nat, 4),
{
    u32::from_ne_bytes([b[0], b[1], b[2], b[3]])
}

/// Relies on `u64::from_ne_bytes`: the result is the value the bytes
/// render in the target's own byte order, so they are its little- or its
/// big-endian bytes.
#[verifier::external_body]
fn u64_from_ne(b: &[u8]) -> (r: u64)
    requires
        b@.len() == 8,
    ensures
        b@ == le_bytes(r as nat, 8) || b@ == be_bytes(r as nat, 8),
{
    u64::from_ne_bytes([b[0], b[1], b[2], b[3], b[4], b[5], b[6], b[7]])
}

impl ByteOrder for NativeEndian {
    open spec fn order_id() -> nat {
        2
    }

    open spec fn encodes(n: nat, s: Seq<u8>) -> bool {
        s == le_bytes(n, s.len()) || s == be_bytes(n, s.len())
    }

    fn write_u16(n: u16) -> (r: Vec<u8>) {
        let r = u16_ne_bytes(n);
        proof {
            lemma_le_bytes_len(n as nat, 2);
            lemma_be_bytes_len(n as nat, 2);
        }
        r
    }

    fn read_u16(b: &[u8]) -> (r: u16) {
        u16_from_ne(b)
    }

    fn write_u32(n: u32) -> (r: Vec<u8>) {
        let r = u32_ne_bytes(n);
        proof {
            lemma_le_bytes_len(n as nat, 4);
            lemma_be_bytes_len(n as nat, 4);
        }
        r
    }

    fn read_u32(b: &[u8]) -> (r: u32) {
        u32_from_ne(b)
    }

    fn write_u64(n: u64) -> (r: Vec<u8>) {
        let r = u64_ne_bytes(n);
        proof {
            lemma_le_bytes_len(n as nat, 8);
            lemma_be_bytes_len(n as nat, 8);
        }
        r
    }

    fn read_u64(b: &[u8]) -> (r: u64) {
        u64_from_ne(b)
    }
}

/// The count of values that seven bytes can carry, spelled out.
proof fn lemma_pow256_7()
    ensures
        pow256(7) == 0x100_0000_0000_0000,
{
    assert(pow256(0) == 1);
    assert(pow256(1) == 0x100);
    assert(pow256(2) == 0x1_0000);
    assert(pow256(3) == 0x100_0000);
    assert(pow256(4) == 0x1_0000_0000);
    assert(pow256(5) == 0x100_0000_0000);
    assert(pow256(6) == 0x1_0000_0000_0000);
}

/// `pow256` grows with the width.
proof fn lemma_pow256_monotone(a: nat, b: nat)
    requires
        a <= b,
    ensures
        pow256(a) <= pow256(b),
    decreases b,
{
    if a < b {
        lemma_pow256_monotone(a, (b - 1) as nat);
    }
}

} // verus!

//! Bit storage. The bits of a raster line and of a bitmap are kept in
//! vectors of the `bitvec` crate; this module states what each of its
//! operations that the driver calls does to the bits held.

use bitvec::order::{Lsb0, Msb0};
use bitvec::vec::BitVec;
use vstd::prelude::*;

verus! {

/// The most bits that a raster line can hold: 255 bytes.
pub const LINE_BITS_MAX: usize = 2040;

/// The most bits that a bitmap can hold: the longest bit vector that every
/// target can address.
pub const IMAGE_BITS_MAX: usize = 0x1fff_ffff;

/// `bits` cut or lengthened to `new_len`, new places holding `value`.
pub open spec fn resized(bits: Seq<bool>, new_len: nat, value: bool) -> Seq<bool> {
    if new_len <= bits.len() {
        bits.take(new_len as int)
    } else {
        bits + Seq::new((new_len - bits.len()) as nat, |i: int| value)
    }
}

/// `weight` where the bit is set, else nothing.
pub open spec fn weighted(bit: bool, weight: nat) -> nat {
    if bit {
        weight
    } else {
        0
    }
}

/// The byte made of the eight bits from `8 * j` on, the first of them in
/// the most significant place.
pub open spec fn byte_msb0(bits: Seq<bool>, j: int) -> u8 {
    (weighted(bits[8 * j], 128) + weighted(bits[8 * j + 1], 64) + weighted(bits[8 * j + 2], 32)
        + weighted(bits[8 * j + 3], 16) + weighted(bits[8 * j + 4], 8) + weighted(
        bits[8 * j + 5],
        4,
    ) + weighted(bits[8 * j + 6], 2) + weighted(bits[8 * j + 7], 1)) as u8
}

/// The bytes that hold `bits`, eight to a byte, most significant bit
/// first. Meant for a whole number of bytes.
pub open spec fn packed_msb0(bits: Seq<bool>) -> Seq<u8> {
    Seq::new(bits.len() / 8, |j: int| byte_msb0(bits, j))
}

/// Bit `i` of `bytes`, counted from the most significant bit of the first
/// byte.
pub open spec fn bit_msb0(bytes: Seq<u8>, i: int) -> bool {
    (bytes[i / 8] as nat / vstd::arithmetic::power2::pow2((7 - i % 8) as nat)) % 2 == 1
}

/// Packing keeps every bit where it was: bit `i` of the bytes is bit `i` of
/// the bits packed.
pub proof fn lemma_packed_bit(bits: Seq<bool>, i: int)
    requires
        bits.len() % 8 == 0,
        0 <= i < bits.len(),
    ensures
        packed_msb0(bits).len() * 8 == bits.len(),
        bit_msb0(packed_msb0(bits), i) == bits[i],
{
    vstd::arithmetic::power2::lemma2_to64();
    let j = i / 8;
    let k = i % 8;
    let byte = byte_msb0(bits, j);
    assert(packed_msb0(bits)[j] == byte);
    let v = weighted(bits[8 * j], 128) + weighted(bits[8 * j + 1], 64) + weighted(
        bits[8 * j + 2],
        32,
    ) + weighted(bits[8 * j + 3], 16) + weighted(bits[8 * j + 4], 8) + weighted(
        bits[8 * j + 5],
        4,
    ) + weighted(bits[8 * j + 6], 2) + weighted(bits[8 * j + 7], 1);
    assert(0 <= v < 256);
    assert(byte as nat == v);
    if k == 0 {
        assert((v / 128) % 2 == 1 <==> bits[8 * j]);
    } else if k == 1 {
        assert((v / 64) % 2 == 1 <==> bits[8 * j + 1]);
    } else if k == 2 {
        assert((v / 32) % 2 == 1 <==> bits[8 * j + 2]);
    } else if k == 3 {
        assert((v / 16) % 2 == 1 <==> bits[8 * j + 3]);
    } else if k == 4 {
        assert((v / 8) % 2 == 1 <==> bits[8 * j + 4]);
    } else if k == 5 {
        assert((v / 4) % 2 == 1 <==> bits[8 * j + 5]);
    } else if k == 6 {
        assert((v / 2) % 2 == 1 <==> bits[8 * j + 6]);
    } else {
        assert((v / 1) % 2 == 1 <==> bits[8 * j + 7]);
    }
}

/// A `bitvec::vec::BitVec<u8, Msb0>`: the bits of one raster line. The
/// vector stays opaque to the verifier, which does not know the traits
/// that bound its type parameters; what it holds is `line_bits`.
#[verifier::external_body]
pub struct LineBits {
    inner: BitVec<u8, Msb0>,
}

/// The bits that a line vector holds, first bit first.
pub uninterp spec fn line_bits(line: LineBits) -> Seq<bool>;

/// The place within the first byte of its storage at which a line
/// vector's first bit lies; 0 is the byte's front edge.
pub uninterp spec fn line_head(line: LineBits) -> nat;

/// `BitVec::new`: a vector that holds no bits.
#[verifier::external_body]
pub(crate) fn line_new() -> (line: LineBits)
    ensures
        line_bits(line) == Seq::<bool>::empty(),
{
    LineBits { inner: BitVec::new() }
}

/// `BitVec::len`: the number of bits held.
#[verifier::external_body]
pub(crate) fn line_len(line: &LineBits) -> (n: usize)
    ensures
        n == line_bits(*line).len(),
{
    line.inner.len()
}

/// `Extend<&bool>::extend` of `BitVec`: the bits of `bits` are appended in
/// their order. The length asked for stays below the one at which the
/// vector refuses to grow.
#[verifier::external_body]
pub(crate) fn line_extend(line: &mut LineBits, bits: &[bool])
    requires
        line_bits(*old(line)).len() + bits@.len() <= LINE_BITS_MAX,
    ensures
        line_bits(*final(line)) == line_bits(*old(line)) + bits@,
{
    line.inner.extend(bits)
}

/// `BitVec::resize`: the vector is cut to `new_len` bits, or lengthened to
/// it with bits equal to `value`.
#[verifier::external_body]
pub(crate) fn line_resize(line: &mut LineBits, new_len: usize, value: bool)
    requires
        new_len <= LINE_BITS_MAX,
    ensures
        line_bits(*final(line)) == resized(line_bits(*old(line)), new_len as nat, value),
{
    line.inner.resize(new_len, value)
}

/// `BitVec::force_align`: the bits held stay as they are, and the first of
/// them comes to lie at the front edge of the storage.
#[verifier::external_body]
pub(crate) fn line_force_align(line: &mut LineBits)
    ensures
        line_bits(*final(line)) == line_bits(*old(line)),
        line_head(*final(line)) == 0,
{
    line.inner.force_align()
}

/// `BitVec::as_raw_slice`: the bytes of the storage. Where the first bit
/// lies at the front edge and the bits fill whole bytes, these are the
/// bits eight to a byte, the first of each eight in the most significant
/// place.
#[verifier::external_body]
pub(crate) fn line_as_raw_slice(line: &LineBits) -> (raw: &[u8])
    requires
        line_head(*line) == 0,
        line_bits(*line).len() % 8 == 0,
    ensures
        raw@ == packed_msb0(line_bits(*line)),
{
    line.inner.as_raw_slice()
}

/// `BitVec::clear`: no bit is left.
#[verifier::external_body]
pub(crate) fn line_clear(line: &mut LineBits)
    ensures
        line_bits(*final(line)) == Seq::<bool>::empty(),
{
    line.inner.clear()
}

/// A `bitvec::vec::BitVec<usize, Lsb0>`: the pixels of a bitmap, opaque
/// as `LineBits` is; what it holds is `image_bits`.
#[verifier::external_body]
pub struct ImageBits {
    inner: BitVec<usize, Lsb0>,
}

/// The bits that a bitmap vector holds, first bit first.
pub uninterp spec fn image_bits(image: ImageBits) -> Seq<bool>;

/// `FromIterator<&bool>::from_iter` of `BitVec`: a vector of the bits of
/// `bits` in their order.
#[verifier::external_body]
pub(crate) fn image_from_bools(bits: &[bool]) -> (image: ImageBits)
    requires
        bits@.len() <= IMAGE_BITS_MAX,
    ensures
        image_bits(image) == bits@,
{
    ImageBits { inner: bits.iter().collect() }
}

/// `BitVec::len`: the number of bits held.
#[verifier::external_body]
pub(crate) fn image_len(image: &ImageBits) -> (n: usize)
    ensures
        n == image_bits(*image).len(),
{
    image.inner.len()
}

/// `Index<Range<usize>>::index` of `BitVec`: the bits from `start` up to,
/// not including, `end`, handed out as `bool`s.
#[verifier::external_body]
pub(crate) fn image_range(image: &ImageBits, start: usize, end: usize) -> (bits: Vec<bool>)
    requires
        start <= end <= image_bits(*image).len(),
    ensures
        bits@ == image_bits(*image).subrange(start as int, end as int),
{
    image.inner[start..end].iter().by_vals().collect()
}

} // verus!

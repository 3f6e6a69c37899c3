//! Encoding of values into the byte order the printer expects, through a
//! sink of fixed capacity.

use crate::error::{IoFault, QlError};
use vstd::prelude::*;

verus! {

/// A byte buffer of fixed capacity with a write cursor. A write that does
/// not fit fills the sink to its capacity and fails.
pub struct Sink {
    written: Vec<u8>,
    free: usize,
}

impl View for Sink {
    type V = Seq<u8>;

    /// The bytes written so far.
    closed spec fn view(&self) -> Seq<u8> {
        self.written@
    }
}

impl Sink {
    /// How many more bytes the sink takes.
    pub closed spec fn room(&self) -> nat {
        self.free as nat
    }

    /// The most bytes the sink can hold.
    pub open spec fn capacity(&self) -> nat {
        self@.len() + self.room()
    }

    /// The contents after an attempt to write `data`: all of it where it
    /// fits, else as much of its front as fits.
    pub open spec fn accepted(&self, data: Seq<u8>) -> Seq<u8> {
        if data.len() <= self.room() {
            self@ + data
        } else {
            self@ + data.take(self.room() as int)
        }
    }

    /// The result of an attempt to write `n` bytes.
    pub open spec fn verdict(&self, n: nat) -> Result<(), QlError> {
        if n <= self.room() {
            Ok(())
        } else {
            Err(QlError::Io(IoFault::WriteZero))
        }
    }

    /// An empty sink that holds up to `capacity` bytes.
    pub fn new(capacity: usize) -> (sink: Sink)
        ensures
            sink@ == Seq::<u8>::empty(),
            sink.capacity() == capacity,
    {
        Sink { written: Vec::new(), free: capacity }
    }

    /// The cursor: how many bytes were written.
    pub fn position(&self) -> (n: usize)
        ensures
            n == self@.len(),
    {
        self.written.len()
    }

    /// Appends `data`. Where it does not fit, the sink is filled with the
    /// front of `data` and the write fails with `WriteZero`.
    pub fn write_all(&mut self, data: &[u8]) -> (r: Result<(), QlError>)
        ensures
            final(self).capacity() == old(self).capacity(),
            final(self)@ == old(self).accepted(data@),
            r == old(self).verdict(data@.len()),
    {
        let room = self.free;
        if data.len() <= room {
            self.written.extend_from_slice(data);
            self.free = room - data.len();
            Ok(())
        } else {
            self.written.extend_from_slice(&data[0..room]);
            self.free = 0;
            assert(data@.subrange(0, room as int) == data@.take(room as int));
            Err(QlError::Io(IoFault::WriteZero))
        }
    }

    /// The bytes written so far.
    pub fn as_slice(&self) -> (s: &[u8])
        ensures
            s@ == self@,
    {
        self.written.as_slice()
    }

    /// Gives up the sink for the bytes written into it.
    pub fn into_bytes(self) -> (v: Vec<u8>)
        ensures
            v@ == self@,
    {
        self.written
    }
}

/// A value with a wire encoding.
pub trait Encode {
    /// The bytes that stand for the value on the wire.
    spec fn encoding(&self) -> Seq<u8>;

    /// Writes the encoding into `sink`.
    fn encode(&self, sink: &mut Sink) -> (r: Result<(), QlError>)
        ensures
            final(sink).capacity() == old(sink).capacity(),
            final(sink)@ == old(sink).accepted(self.encoding()),
            r == old(sink).verdict(self.encoding().len()),
    ;
}

/// Byte sequences are written as they are.
impl Encode for &[u8] {
    open spec fn encoding(&self) -> Seq<u8> {
        self@
    }

    fn encode(&self, sink: &mut Sink) -> (r: Result<(), QlError>) {
        sink.write_all(*self)
    }
}

impl<const N: usize> Encode for [u8; N] {
    open spec fn encoding(&self) -> Seq<u8> {
        self@
    }

    fn encode(&self, sink: &mut Sink) -> (r: Result<(), QlError>) {
        assert(self.encoding() == self@);
        sink.write_all(self.as_slice())
    }
}

/// The `width` low base-256 digits of `value`, least significant first.
pub open spec fn le_bytes(value: nat, width: nat) -> Seq<u8>
    decreases width,
{
    if width == 0 {
        Seq::<u8>::empty()
    } else {
        seq![(value % 256) as u8] + le_bytes(value / 256, (width - 1) as nat)
    }
}

/// The natural number whose low `bits` bits are the two's complement form
/// of `value`.
pub open spec fn twos_complement(value: int, bits: nat) -> nat {
    if value < 0 {
        (value + vstd::arithmetic::power2::pow2(bits)) as nat
    } else {
        value as nat
    }
}

/// Writes the `width` low bytes of `value`, least significant first.
fn encode_le(value: u64, width: usize, sink: &mut Sink) -> (r: Result<(), QlError>)
    requires
        width <= 8,
    ensures
        final(sink).capacity() == old(sink).capacity(),
        final(sink)@ == old(sink).accepted(le_bytes(value as nat, width as nat)),
        r == old(sink).verdict(width as nat),
{
    let mut bytes: Vec<u8> = Vec::new();
    let mut rest: u64 = value;
    let mut i: usize = 0;
    while i < width
        invariant
            i <= width,
            bytes@.len() == i,
            bytes@ + le_bytes(rest as nat, (width - i) as nat) == le_bytes(
                value as nat,
                width as nat,
            ),
        decreases width - i,
    {
        let low: u8 = (rest & 0xff) as u8;
        assert(low == rest % 256) by (bit_vector)
            requires
                low == (rest & 0xff) as u8,
        ;
        assert(rest >> 8 == rest / 256) by (bit_vector);
        proof {
            let tail = le_bytes((rest / 256) as nat, (width - i - 1) as nat);
            assert(le_bytes(rest as nat, (width - i) as nat) == seq![low] + tail);
            assert(bytes@.push(low) + tail == bytes@ + (seq![low] + tail));
        }
        bytes.push(low);
        rest = rest >> 8;
        i = i + 1;
    }
    assert(bytes@ == le_bytes(value as nat, width as nat)) by {
        assert(le_bytes(rest as nat, 0) == Seq::<u8>::empty());
        assert(bytes@ + Seq::<u8>::empty() == bytes@);
    }
    proof {
        lemma_le_bytes_len(value as nat, width as nat);
    }
    sink.write_all(bytes.as_slice())
}

/// A little-endian encoding has as many bytes as were asked for.
pub proof fn lemma_le_bytes_len(value: nat, width: nat)
    ensures
        le_bytes(value, width).len() == width,
    decreases width,
{
    if width > 0 {
        lemma_le_bytes_len(value / 256, (width - 1) as nat);
    }
}

/// One byte encodes as itself.
pub proof fn lemma_le_bytes_one(value: u8)
    ensures
        le_bytes(value as nat, 1) == seq![value],
{
    reveal_with_fuel(le_bytes, 2);
    assert(le_bytes(value as nat, 1) =~= seq![value]);
}

impl Encode for u8 {
    open spec fn encoding(&self) -> Seq<u8> {
        le_bytes(*self as nat, 1)
    }

    fn encode(&self, sink: &mut Sink) -> (r: Result<(), QlError>) {
        proof {
            lemma_le_bytes_len(*self as nat, 1);
            assert(self.encoding() == le_bytes(*self as nat, 1));
        }
        encode_le(*self as u64, 1, sink)
    }
}

impl Encode for u16 {
    open spec fn encoding(&self) -> Seq<u8> {
        le_bytes(*self as nat, 2)
    }

    fn encode(&self, sink: &mut Sink) -> (r: Result<(), QlError>) {
        proof {
            lemma_le_bytes_len(*self as nat, 2);
        }
        encode_le(*self as u64, 2, sink)
    }
}

impl Encode for u32 {
    open spec fn encoding(&self) -> Seq<u8> {
        le_bytes(*self as nat, 4)
    }

    fn encode(&self, sink: &mut Sink) -> (r: Result<(), QlError>) {
        proof {
            lemma_le_bytes_len(*self as nat, 4);
        }
        encode_le(*self as u64, 4, sink)
    }
}

impl Encode for u64 {
    open spec fn encoding(&self) -> Seq<u8> {
        le_bytes(*self as nat, 8)
    }

    fn encode(&self, sink: &mut Sink) -> (r: Result<(), QlError>) {
        proof {
            lemma_le_bytes_len(*self as nat, 8);
        }
        encode_le(*self, 8, sink)
    }
}

/// The unsigned value with the same low 8 bits as a signed one.
proof fn lemma_twos_complement_i8(x: i8)
    ensures
        (x as u8) as nat == twos_complement(x as int, 8),
{
    vstd::arithmetic::power2::lemma2_to64();
    assert((x as u8) == (if x < 0 { x + 0x100 } else { x as int })) by (bit_vector);
}

/// The unsigned value with the same low 16 bits as a signed one.
proof fn lemma_twos_complement_i16(x: i16)
    ensures
        (x as u16) as nat == twos_complement(x as int, 16),
{
    vstd::arithmetic::power2::lemma2_to64();
    assert((x as u16) == (if x < 0 { x + 0x1_0000 } else { x as int })) by (bit_vector);
}

/// The unsigned value with the same low 32 bits as a signed one.
proof fn lemma_twos_complement_i32(x: i32)
    ensures
        (x as u32) as nat == twos_complement(x as int, 32),
{
    vstd::arithmetic::power2::lemma2_to64();
    assert((x as u32) == (if x < 0 { x + 0x1_0000_0000 } else { x as int })) by (bit_vector);
}

/// The unsigned value with the same low 64 bits as a signed one.
proof fn lemma_twos_complement_i64(x: i64)
    ensures
        (x as u64) as nat == twos_complement(x as int, 64),
{
    vstd::arithmetic::power2::lemma2_to64();
    assert((x as u64) == (if x < 0 { x + 0x1_0000_0000_0000_0000 } else { x as int }))
        by (bit_vector);
}

impl Encode for i8 {
    open spec fn encoding(&self) -> Seq<u8> {
        le_bytes(twos_complement(*self as int, 8), 1)
    }

    fn encode(&self, sink: &mut Sink) -> (r: Result<(), QlError>) {
        proof {
            lemma_twos_complement_i8(*self);
            lemma_le_bytes_len(twos_complement(*self as int, 8), 1);
        }
        encode_le((*self as u8) as u64, 1, sink)
    }
}

impl Encode for i16 {
    open spec fn encoding(&self) -> Seq<u8> {
        le_bytes(twos_complement(*self as int, 16), 2)
    }

    fn encode(&self, sink: &mut Sink) -> (r: Result<(), QlError>) {
        proof {
            lemma_twos_complement_i16(*self);
            lemma_le_bytes_len(twos_complement(*self as int, 16), 2);
        }
        encode_le((*self as u16) as u64, 2, sink)
    }
}

impl Encode for i32 {
    open spec fn encoding(&self) -> Seq<u8> {
        le_bytes(twos_complement(*self as int, 32), 4)
    }

    fn encode(&self, sink: &mut Sink) -> (r: Result<(), QlError>) {
        proof {
            lemma_twos_complement_i32(*self);
            lemma_le_bytes_len(twos_complement(*self as int, 32), 4);
        }
        encode_le((*self as u32) as u64, 4, sink)
    }
}

impl Encode for i64 {
    open spec fn encoding(&self) -> Seq<u8> {
        le_bytes(twos_complement(*self as int, 64), 8)
    }

    fn encode(&self, sink: &mut Sink) -> (r: Result<(), QlError>) {
        proof {
            lemma_twos_complement_i64(*self);
            lemma_le_bytes_len(twos_complement(*self as int, 64), 8);
        }
        encode_le(*self as u64, 8, sink)
    }
}

} // verus!

//! The raster transfer: a session that packs scanlines into frames, one
//! frame for each line.

use crate::driver::bits::{
    bit_msb0, lemma_packed_bit, line_as_raw_slice, line_bits, line_clear, line_extend,
    line_force_align, line_len, line_new, line_resize, packed_msb0, resized, LineBits,
};
use crate::error::QlError;
use vstd::prelude::*;

verus! {

/// First byte of a raster frame: the letter `g`.
pub const RASTER_MAGIC: u8 = 0x67;

/// The frame that carries one scanline: the magic byte, a zero, the number
/// of data bytes, then `bits` filled up with zeros to `bytes_per_line`
/// bytes and packed most significant bit first.
pub open spec fn raster_frame(bits: Seq<bool>, bytes_per_line: u8) -> Seq<u8> {
    seq![RASTER_MAGIC, 0x00u8, bytes_per_line] + packed_msb0(
        resized(bits, 8 * bytes_per_line as nat, false),
    )
}

/// The raster transfer of lines of a fixed width.
#[derive(Debug, Clone, Copy, PartialEq, Eq)]
pub struct RasterTransfer {
    pub bytes_per_line: u8,
}

impl RasterTransfer {
    /// A transfer of lines of `bytes_per_line` bytes each.
    pub fn new(bytes_per_line: u8) -> (t: Self)
        ensures
            t.bytes_per_line == bytes_per_line,
    {
        RasterTransfer { bytes_per_line }
    }

    /// Opens the session, with an empty line.
    pub fn start_transfer(&self) -> (r: Result<RasterShip, QlError>)
        ensures
            r is Ok,
            r->Ok_0.wf(),
            r->Ok_0.bytes_per_line() == self.bytes_per_line,
            r->Ok_0@ == Seq::<bool>::empty(),
    {
        Ok(RasterShip { bytes_per_line: self.bytes_per_line, line: line_new() })
    }
}

/// An open raster session. It holds the pixels pushed for the line that
/// goes out next.
pub struct RasterShip {
    bytes_per_line: u8,
    line: LineBits,
}

impl View for RasterShip {
    type V = Seq<bool>;

    /// The pixels pushed since the last frame.
    closed spec fn view(&self) -> Seq<bool> {
        line_bits(self.line)
    }
}

impl RasterShip {
    /// Number of data bytes of each frame.
    pub closed spec fn spec_bytes_per_line(&self) -> u8 {
        self.bytes_per_line
    }

    /// Number of data bytes of each frame.
    #[verifier::when_used_as_spec(spec_bytes_per_line)]
    pub fn bytes_per_line(&self) -> (n: u8)
        ensures
            n == self.spec_bytes_per_line(),
    {
        self.bytes_per_line
    }

    /// Number of pixels of a full line.
    pub open spec fn width(&self) -> nat {
        8 * self.bytes_per_line() as nat
    }

    /// The pixels pushed do not exceed the width of a line.
    pub open spec fn wf(&self) -> bool {
        self@.len() <= self.width()
    }

    /// Number of pixels pushed since the last frame.
    pub fn current_length(&self) -> (n: usize)
        ensures
            n == self@.len(),
    {
        line_len(&self.line)
    }

    /// Appends pixels to the line. Together with those already pushed they
    /// must fit the width of a line.
    pub fn push_bits(&mut self, data: &[bool])
        requires
            old(self)@.len() + data@.len() <= old(self).width(),
        ensures
            final(self).wf(),
            final(self).bytes_per_line() == old(self).bytes_per_line(),
            final(self)@ == old(self)@ + data@,
    {
        line_extend(&mut self.line, data);
    }

    /// Fills the line with zeros up to `target_size` pixels.
    pub fn fill_remaining(&mut self, target_size: usize)
        requires
            old(self)@.len() <= target_size <= old(self).width(),
        ensures
            final(self).wf(),
            final(self).bytes_per_line() == old(self).bytes_per_line(),
            final(self)@ == old(self)@ + Seq::new(
                (target_size - old(self)@.len()) as nat,
                |i: int| false,
            ),
    {
        line_resize(&mut self.line, target_size, false);
        assert(self@ =~= old(self)@ + Seq::new(
            (target_size - old(self)@.len()) as nat,
            |i: int| false,
        ));
    }

    /// Closes the line: fills it with zeros to the full width, hands out
    /// the frame that the caller writes in one write, and starts the next
    /// line empty.
    pub fn send_line(&mut self) -> (frame: Vec<u8>)
        requires
            old(self).wf(),
        ensures
            final(self).wf(),
            final(self).bytes_per_line() == old(self).bytes_per_line(),
            final(self)@ == Seq::<bool>::empty(),
            frame@ == raster_frame(old(self)@, old(self).bytes_per_line()),
    {
        let width: usize = 8 * (self.bytes_per_line as usize);
        line_resize(&mut self.line, width, false);
        line_force_align(&mut self.line);
        let mut frame: Vec<u8> = vec![RASTER_MAGIC, 0x00u8, self.bytes_per_line];
        frame.extend_from_slice(line_as_raw_slice(&self.line));
        line_clear(&mut self.line);
        frame
    }

    /// Closes the session. Nothing is sent: the caller gives the print
    /// command itself.
    pub fn end(self) {
    }
}

/// Pixels pushed into a fresh session and sent come out as a frame of
/// three header bytes, the letter `g`, a zero and the number of data
/// bytes, and `bytes_per_line` data bytes, in which every pixel pushed
/// stands at its place, most significant bit first, and every place after
/// them holds a zero.
pub proof fn lemma_push_then_send(bits: Seq<bool>, bytes_per_line: u8)
    requires
        bits.len() <= 8 * bytes_per_line,
    ensures
        ({
            let frame = raster_frame(Seq::<bool>::empty() + bits, bytes_per_line);
            &&& frame.len() == 3 + bytes_per_line
            &&& frame[0] == 0x67
            &&& frame[1] == 0x00
            &&& frame[2] == bytes_per_line
            &&& forall|i: int|
                0 <= i < 8 * bytes_per_line ==> #[trigger] bit_msb0(frame.skip(3), i) == (i
                    < bits.len() && bits[i])
        }),
{
    let pushed = Seq::<bool>::empty() + bits;
    assert(pushed =~= bits);
    let line = resized(pushed, 8 * bytes_per_line as nat, false);
    let frame = raster_frame(pushed, bytes_per_line);
    assert(line.len() == 8 * bytes_per_line);
    assert(frame.skip(3) =~= packed_msb0(line));
    assert forall|i: int| 0 <= i < 8 * bytes_per_line implies #[trigger] bit_msb0(
        frame.skip(3),
        i,
    ) == (i < bits.len() && bits[i]) by {
        lemma_packed_bit(line, i);
    }
}

} // verus!

//! Whole jobs: the writes that open a session and that print a bitmap, each
//! as the bytes of the writes to make, in order. A caller makes the writes
//! one by one and stops at the first that fails.

use crate::driver::bits::bit_msb0;
use crate::driver::command::Command;
use crate::driver::commands::{
    Initialize, PrintWithFeeding, Reset, SetCommandMode, SetMarginAmount, SetPrintInformation,
    StatusInfoRequest,
};
use crate::driver::transfer::{lemma_push_then_send, raster_frame, RasterTransfer};
use crate::driver::types::{PrinterCommandMode, PrinterStatus};
use crate::image::{lemma_row_within, PrintableImage};
use vstd::prelude::*;

verus! {

/// Data bytes of each raster line: 720 pixels.
pub const LINE_BYTES: u8 = 90;

/// Widest bitmap that fits a raster line, in pixels.
pub const LINE_PIXELS: u32 = 720;

/// The bytes of each write of a list.
pub open spec fn bytes_of(writes: Seq<Vec<u8>>) -> Seq<Seq<u8>> {
    Seq::new(writes.len(), |i: int| writes[i]@)
}

/// The writes that open a session: the receive buffer is cleared, then the
/// printer is initialized.
pub open spec fn opening_writes() -> Seq<Seq<u8>> {
    seq![Reset.wire(), Initialize.wire()]
}

/// The writes that precede a print job's status reply: raster mode is
/// selected, then the status is asked for.
pub open spec fn status_writes() -> Seq<Seq<u8>> {
    seq![SetCommandMode { mode: PrinterCommandMode::Raster }.wire(), StatusInfoRequest.wire()]
}

/// The raster frames of a bitmap: one for each whole row, in order.
pub open spec fn line_frames(image: PrintableImage, bytes_per_line: u8) -> Seq<Seq<u8>> {
    Seq::new(
        image.spec_lines(),
        |line: int| raster_frame(image.spec_row(line as nat), bytes_per_line),
    )
}

/// The writes that announce a bitmap on the media that `status` reports:
/// the print information with the number of rows, then a margin of zero.
pub open spec fn announcing_writes(status: PrinterStatus, image: PrintableImage) -> Seq<Seq<u8>> {
    seq![
        SetPrintInformation {
            media_type: status.media_type,
            paper_width: status.media_width,
            paper_length: status.media_length,
            raster_lines: image.spec_lines() as u32,
        }.wire(),
        SetMarginAmount { margin: 0 }.wire(),
    ]
}

/// The writes that print a bitmap on the media that `status` reports: the
/// announcement, one frame for each row, and the print command with
/// feeding.
pub open spec fn image_writes(status: PrinterStatus, image: PrintableImage) -> Seq<Seq<u8>> {
    announcing_writes(status, image) + line_frames(image, LINE_BYTES) + seq![
        PrintWithFeeding.wire(),
    ]
}

/// A write added to a list adds its bytes to the list's bytes.
proof fn lemma_bytes_of_push(writes: Seq<Vec<u8>>, write: Vec<u8>)
    ensures
        bytes_of(writes.push(write)) == bytes_of(writes).push(write@),
{
    assert(bytes_of(writes.push(write)) =~= bytes_of(writes).push(write@));
}

/// The writes that open a session.
pub fn open() -> (writes: Vec<Vec<u8>>)
    ensures
        writes@.len() == opening_writes().len(),
        bytes_of(writes@) == opening_writes(),
{
    let writes = vec![Reset.to_bytes(), Initialize.to_bytes()];
    assert(bytes_of(writes@) =~= opening_writes());
    writes
}

/// The writes that begin a print job. After them the caller reads the
/// status reply and decodes it with `StatusInfoRequest`.
pub fn request_status() -> (writes: Vec<Vec<u8>>)
    ensures
        writes@.len() == status_writes().len(),
        bytes_of(writes@) == status_writes(),
{
    let writes = vec![
        SetCommandMode::new(PrinterCommandMode::Raster).to_bytes(),
        StatusInfoRequest.to_bytes(),
    ];
    assert(bytes_of(writes@) =~= status_writes());
    writes
}

/// The writes that print `job` on the media that `status` reports. A row
/// is at least one pixel and at most a raster line wide.
pub fn print_image(status: &PrinterStatus, job: &PrintableImage) -> (writes: Vec<Vec<u8>>)
    requires
        0 < job.spec_width() <= LINE_PIXELS,
    ensures
        writes@.len() == image_writes(*status, *job).len(),
        bytes_of(writes@) == image_writes(*status, *job),
{
    let lines = job.lines();
    let mut writes: Vec<Vec<u8>> = vec![
        SetPrintInformation::new(
            status.media_type,
            status.media_width,
            status.media_length,
            lines,
        ).to_bytes(),
        SetMarginAmount::new(0).to_bytes(),
    ];
    let mut ship = RasterTransfer::new(LINE_BYTES).start_transfer().unwrap();
    assert(bytes_of(writes@) =~= announcing_writes(*status, *job));
    let ghost head = announcing_writes(*status, *job);
    let mut line: u32 = 0;
    while line < lines
        invariant
            line <= lines,
            lines == job.spec_lines(),
            0 < job.spec_width() <= LINE_PIXELS,
            ship.wf(),
            ship.bytes_per_line() == LINE_BYTES,
            ship@ == Seq::<bool>::empty(),
            bytes_of(writes@) == head + line_frames(*job, LINE_BYTES).take(line as int),
        decreases lines - line,
    {
        let row = job.row(line);
        ship.push_bits(row.as_slice());
        let frame = ship.send_line();
        proof {
            assert(Seq::<bool>::empty() + row@ =~= row@);
            assert(frame@ == line_frames(*job, LINE_BYTES)[line as int]);
            lemma_bytes_of_push(writes@, frame);
            let frames = line_frames(*job, LINE_BYTES);
            assert(frames.take(line + 1) =~= frames.take(line as int).push(frames[line as int]));
            assert((head + frames.take(line as int)).push(frame@) =~= head + frames.take(
                line + 1,
            ));
        }
        writes.push(frame);
        line = line + 1;
    }
    ship.end();
    let feed = PrintWithFeeding.to_bytes();
    proof {
        assert(line_frames(*job, LINE_BYTES).take(line as int) =~= line_frames(*job, LINE_BYTES));
        lemma_bytes_of_push(writes@, feed);
        assert(bytes_of(writes@).push(feed@) =~= image_writes(*status, *job));
    }
    writes.push(feed);
    writes
}

/// Printing a bitmap takes two writes, then one write for each row, then
/// one more. The write of a row is a frame of three header bytes and 90
/// data bytes, in which the row's pixels stand from the most significant
/// bit of the first data byte on, and zeros after them.
pub proof fn lemma_one_write_per_row(status: PrinterStatus, image: PrintableImage, line: int)
    requires
        0 < image.spec_width() <= LINE_PIXELS,
        0 <= line < image.spec_lines(),
    ensures
        ({
            let writes = image_writes(status, image);
            let frame = writes[2 + line];
            &&& writes.len() == image.spec_lines() + 3
            &&& frame.len() == 3 + LINE_BYTES
            &&& frame[0] == 0x67
            &&& frame[1] == 0x00
            &&& frame[2] == LINE_BYTES
            &&& forall|i: int|
                0 <= i < 8 * LINE_BYTES ==> #[trigger] bit_msb0(frame.skip(3), i) == (i
                    < image.spec_width() && image@[line * image.spec_width() + i])
        }),
{
    let width = image.spec_width() as nat;
    let row = image.spec_row(line as nat);
    let writes = image_writes(status, image);
    let frame = writes[2 + line];
    lemma_row_within(image@.len(), width, line as nat);
    assert(frame == raster_frame(row, LINE_BYTES));
    assert(Seq::<bool>::empty() + row =~= row);
    lemma_push_then_send(row, LINE_BYTES);
    assert forall|i: int| 0 <= i < 8 * LINE_BYTES implies #[trigger] bit_msb0(frame.skip(3), i)
        == (i < image.spec_width() && image@[line * image.spec_width() + i]) by {
        if i < width {
            assert(row[i] == image@[line * width + i]);
        }
    }
}

} // verus!

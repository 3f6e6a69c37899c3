//! The commands of the printer's protocol.

use crate::driver::command::{Command, CommandResponse};
use crate::driver::encode::{lemma_le_bytes_len, Encode, Sink};
use crate::driver::types::{
    lemma_registers_round_trip, ErrorInformation1, ErrorInformation2, MediaType, PhaseState,
    PrinterCommandMode, PrinterExpandedMode, PrinterMode, PrinterStatus, StatusType,
};
use crate::error::QlError;
use vstd::prelude::*;

verus! {

/// Capacity of the scratch buffer in which a command with arguments is
/// assembled.
pub const SCRATCH_SIZE: usize = 64;

/// Size of a status reply.
pub const STATUS_SIZE: usize = 32;

/// Clears the printer's receive buffer: 200 zero bytes.
pub struct Reset;

impl Command for Reset {
    open spec fn wire(&self) -> Seq<u8> {
        Seq::new(200, |i: int| 0u8)
    }

    fn to_bytes(&self) -> (bytes: Vec<u8>) {
        let bytes = vec![0u8; 200];
        assert(bytes@ =~= self.wire());
        bytes
    }
}

/// A single zero byte, which the printer ignores.
pub struct Invalid;

impl Command for Invalid {
    open spec fn wire(&self) -> Seq<u8> {
        seq![0x00u8]
    }

    fn to_bytes(&self) -> (bytes: Vec<u8>) {
        vec![0x00u8]
    }
}

/// Starts a session.
pub struct Initialize;

impl Command for Initialize {
    open spec fn wire(&self) -> Seq<u8> {
        seq![0x1bu8, 0x40u8]
    }

    fn to_bytes(&self) -> (bytes: Vec<u8>) {
        vec![0x1bu8, 0x40u8]
    }
}

/// Asks the printer for its status.
pub struct StatusInfoRequest;

impl Command for StatusInfoRequest {
    open spec fn wire(&self) -> Seq<u8> {
        seq![0x1bu8, 0x69u8, 0x53u8]
    }

    fn to_bytes(&self) -> (bytes: Vec<u8>) {
        vec![0x1bu8, 0x69u8, 0x53u8]
    }
}

/// Selects raster data without compression.
pub struct SetCompressionMode;

impl Command for SetCompressionMode {
    open spec fn wire(&self) -> Seq<u8> {
        seq![0x4du8, 0x00u8]
    }

    fn to_bytes(&self) -> (bytes: Vec<u8>) {
        vec![0x4du8, 0x00u8]
    }
}

/// Sends one blank raster line.
pub struct ZeroRasterGraphics;

impl Command for ZeroRasterGraphics {
    open spec fn wire(&self) -> Seq<u8> {
        seq![0x5au8]
    }

    fn to_bytes(&self) -> (bytes: Vec<u8>) {
        vec![0x5au8]
    }
}

/// Prints the page without feeding to the cut position.
pub struct Print;

impl Command for Print {
    open spec fn wire(&self) -> Seq<u8> {
        seq![0x0cu8]
    }

    fn to_bytes(&self) -> (bytes: Vec<u8>) {
        vec![0x0cu8]
    }
}

/// Prints the page and feeds it out.
pub struct PrintWithFeeding;

impl Command for PrintWithFeeding {
    open spec fn wire(&self) -> Seq<u8> {
        seq![0x1au8]
    }

    fn to_bytes(&self) -> (bytes: Vec<u8>) {
        vec![0x1au8]
    }
}

/// Switches the command language.
pub struct SetCommandMode {
    pub mode: PrinterCommandMode,
}

impl SetCommandMode {
    pub fn new(mode: PrinterCommandMode) -> (c: Self)
        ensures
            c.mode == mode,
    {
        SetCommandMode { mode }
    }
}

impl Command for SetCommandMode {
    open spec fn wire(&self) -> Seq<u8> {
        seq![0x1bu8, 0x69u8, 0x61u8] + self.mode.encoding()
    }

    fn to_bytes(&self) -> (bytes: Vec<u8>) {
        let mut scratch = Sink::new(SCRATCH_SIZE);
        let head = [0x1bu8, 0x69u8, 0x61u8].encode(&mut scratch);
        let mode = self.mode.encode(&mut scratch);
        assert(head is Ok && mode is Ok);
        scratch.into_bytes()
    }
}

/// Sets the feed margin, in dots.
pub struct SetMarginAmount {
    pub margin: u16,
}

impl SetMarginAmount {
    pub fn new(margin: u16) -> (c: Self)
        ensures
            c.margin == margin,
    {
        SetMarginAmount { margin }
    }
}

impl Command for SetMarginAmount {
    open spec fn wire(&self) -> Seq<u8> {
        seq![0x1bu8, 0x69u8, 0x64u8] + self.margin.encoding()
    }

    fn to_bytes(&self) -> (bytes: Vec<u8>) {
        proof {
            lemma_le_bytes_len(self.margin as nat, 2);
        }
        let mut scratch = Sink::new(SCRATCH_SIZE);
        let head = [0x1bu8, 0x69u8, 0x64u8].encode(&mut scratch);
        let margin = self.margin.encode(&mut scratch);
        assert(head is Ok && margin is Ok);
        scratch.into_bytes()
    }
}

/// Sets the speed of the serial line.
pub struct SetBaudRate {
    pub baud_rate: u16,
}

impl SetBaudRate {
    pub fn new(baud_rate: u16) -> (c: Self)
        ensures
            c.baud_rate == baud_rate,
    {
        SetBaudRate { baud_rate }
    }
}

impl Command for SetBaudRate {
    open spec fn wire(&self) -> Seq<u8> {
        seq![0x1bu8, 0x69u8, 0x42u8] + self.baud_rate.encoding()
    }

    fn to_bytes(&self) -> (bytes: Vec<u8>) {
        proof {
            lemma_le_bytes_len(self.baud_rate as nat, 2);
        }
        let mut scratch = Sink::new(SCRATCH_SIZE);
        let head = [0x1bu8, 0x69u8, 0x42u8].encode(&mut scratch);
        let rate = self.baud_rate.encode(&mut scratch);
        assert(head is Ok && rate is Ok);
        scratch.into_bytes()
    }
}

/// Announces the media and the number of raster lines of the page that
/// follows.
pub struct SetPrintInformation {
    pub media_type: MediaType,
    pub paper_width: u8,
    pub paper_length: u8,
    pub raster_lines: u32,
}

impl SetPrintInformation {
    /// Marks the media type, width, length and line count as valid, and asks
    /// the printer to recover from errors by itself.
    pub const VALID_FLAGS: u8 = 0xce;

    pub fn new(media_type: MediaType, paper_width: u8, paper_length: u8, raster_lines: u32) -> (c:
        Self)
        ensures
            c.media_type == media_type,
            c.paper_width == paper_width,
            c.paper_length == paper_length,
            c.raster_lines == raster_lines,
    {
        SetPrintInformation { media_type, paper_width, paper_length, raster_lines }
    }
}

impl Command for SetPrintInformation {
    open spec fn wire(&self) -> Seq<u8> {
        seq![0x1bu8, 0x69u8, 0x7au8, 0xceu8] + self.media_type.encoding()
            + self.paper_width.encoding() + self.paper_length.encoding()
            + self.raster_lines.encoding() + seq![0x01u8, 0x00u8]
    }

    fn to_bytes(&self) -> (bytes: Vec<u8>) {
        proof {
            lemma_le_bytes_len(self.paper_width as nat, 1);
            lemma_le_bytes_len(self.paper_length as nat, 1);
            lemma_le_bytes_len(self.raster_lines as nat, 4);
        }
        let mut scratch = Sink::new(SCRATCH_SIZE);
        let head = [0x1bu8, 0x69u8, 0x7au8, Self::VALID_FLAGS].encode(&mut scratch);
        let media = self.media_type.encode(&mut scratch);
        let width = self.paper_width.encode(&mut scratch);
        let length = self.paper_length.encode(&mut scratch);
        let lines = self.raster_lines.encode(&mut scratch);
        let tail = [0x01u8, 0x00u8].encode(&mut scratch);
        assert(head is Ok && media is Ok && width is Ok && length is Ok && lines is Ok && tail is Ok);
        scratch.into_bytes()
    }
}

/// Sets the flags of the "various mode" command.
pub struct SetMode {
    pub printer_mode: PrinterMode,
}

impl SetMode {
    pub fn new(printer_mode: PrinterMode) -> (c: Self)
        ensures
            c.printer_mode == printer_mode,
    {
        SetMode { printer_mode }
    }
}

impl Command for SetMode {
    open spec fn wire(&self) -> Seq<u8> {
        seq![0x1bu8, 0x69u8, 0x4du8] + self.printer_mode.encoding()
    }

    fn to_bytes(&self) -> (bytes: Vec<u8>) {
        let mut scratch = Sink::new(SCRATCH_SIZE);
        let head = [0x1bu8, 0x69u8, 0x4du8].encode(&mut scratch);
        let mode = self.printer_mode.encode(&mut scratch);
        assert(head is Ok && mode is Ok);
        scratch.into_bytes()
    }
}

/// Sets the flags of the "expanded mode" command.
pub struct SetExpandedMode {
    pub printer_mode: PrinterExpandedMode,
}

impl SetExpandedMode {
    pub fn new(printer_mode: PrinterExpandedMode) -> (c: Self)
        ensures
            c.printer_mode == printer_mode,
    {
        SetExpandedMode { printer_mode }
    }
}

impl Command for SetExpandedMode {
    open spec fn wire(&self) -> Seq<u8> {
        seq![0x1bu8, 0x69u8, 0x4du8] + self.printer_mode.encoding()
    }

    fn to_bytes(&self) -> (bytes: Vec<u8>) {
        let mut scratch = Sink::new(SCRATCH_SIZE);
        let head = [0x1bu8, 0x69u8, 0x4du8].encode(&mut scratch);
        let mode = self.printer_mode.encode(&mut scratch);
        assert(head is Ok && mode is Ok);
        scratch.into_bytes()
    }
}

/// One raster line given as raw bytes, framed by its length.
pub struct RasterGraphicsTransfer<'a> {
    data: &'a [u8],
}

impl<'a> RasterGraphicsTransfer<'a> {
    /// The most bytes that one line may hold, plus one.
    pub const LIMIT: usize = 255;

    #[verifier::type_invariant]
    spec fn fits_one_frame(&self) -> bool {
        self.data@.len() < 255
    }

    /// The payload.
    pub closed spec fn payload(&self) -> Seq<u8> {
        self.data@
    }

    /// Takes a payload of fewer than 255 bytes.
    pub fn new(data: &'a [u8]) -> (r: Result<Self, QlError>)
        ensures
            data@.len() < 255 ==> r is Ok && r->Ok_0.payload() == data@ && r->Ok_0.wire() == seq![
                0x67u8,
                0x00u8,
                data@.len() as u8,
            ] + data@,
            data@.len() >= 255 ==> r == Err::<Self, QlError>(QlError::WrongDataSize),
    {
        if data.len() < Self::LIMIT {
            Ok(RasterGraphicsTransfer { data })
        } else {
            Err(QlError::WrongDataSize)
        }
    }
}

impl Command for RasterGraphicsTransfer<'_> {
    open spec fn wire(&self) -> Seq<u8> {
        seq![0x67u8, 0x00u8, self.payload().len() as u8] + self.payload()
    }

    fn to_bytes(&self) -> (bytes: Vec<u8>) {
        proof {
            use_type_invariant(self);
        }
        let size: u8 = self.data.len() as u8;
        let mut bytes = vec![0x67u8, 0x00u8, size];
        bytes.extend_from_slice(self.data);
        bytes
    }
}

/// Whether `reply` has the size and the magic header of a status frame.
pub open spec fn is_status_frame(reply: Seq<u8>) -> bool {
    &&& reply.len() == STATUS_SIZE
    &&& reply[0] == 0x80
    &&& reply[1] == 0x20
}

/// What a status frame says. Of several unknown codes the first in the
/// order media type, status type, phase is reported.
pub open spec fn decode_status(reply: Seq<u8>) -> Result<PrinterStatus, QlError> {
    if MediaType::spec_from_code(reply[11]) is None {
        Err(QlError::BadData("unknown media type"))
    } else if StatusType::spec_from_code(reply[18]) is None {
        Err(QlError::BadData("unknown status type"))
    } else if PhaseState::spec_from_code(reply[19]) is None {
        Err(QlError::BadData("unknown phase status"))
    } else {
        Ok(
            PrinterStatus {
                media_width: reply[10],
                media_length: reply[17],
                media_type: MediaType::spec_from_code(reply[11])->Some_0,
                error1: ErrorInformation1::spec_from_bits(reply[8]),
                error2: ErrorInformation2::spec_from_bits(reply[9]),
                status_type: StatusType::spec_from_code(reply[18])->Some_0,
                phase_state: PhaseState::spec_from_code(reply[19])->Some_0,
            },
        )
    }
}

/// A status frame that says `status`: the magic header, each field at its
/// offset, zeros elsewhere.
pub open spec fn status_frame(status: PrinterStatus) -> Seq<u8> {
    Seq::new(
        STATUS_SIZE as nat,
        |i: int|
            if i == 0 {
                0x80u8
            } else if i == 1 {
                0x20u8
            } else if i == 8 {
                status.error1.spec_bits()
            } else if i == 9 {
                status.error2.spec_bits()
            } else if i == 10 {
                status.media_width
            } else if i == 11 {
                status.media_type.spec_code()
            } else if i == 17 {
                status.media_length
            } else if i == 18 {
                status.status_type.spec_code()
            } else if i == 19 {
                status.phase_state.spec_code()
            } else {
                0x00u8
            },
    )
}

/// Every status is decoded, field for field, from the frame that says it.
pub proof fn lemma_status_round_trip(status: PrinterStatus)
    ensures
        is_status_frame(status_frame(status)),
        decode_status(status_frame(status)) == Ok::<PrinterStatus, QlError>(status),
{
    lemma_registers_round_trip(status.error1, status.error2);
}

/// A frame whose media type byte names no media type is refused as bad
/// data, whatever else it holds.
pub proof fn lemma_unknown_media_type(reply: Seq<u8>)
    requires
        reply[11] != 0x00 && reply[11] != 0x0a && reply[11] != 0x0b,
    ensures
        decode_status(reply) == Err::<PrinterStatus, QlError>(
            QlError::BadData("unknown media type"),
        ),
{
}

impl CommandResponse for StatusInfoRequest {
    type Response = PrinterStatus;

    open spec fn reply_len(&self) -> nat {
        STATUS_SIZE as nat
    }

    open spec fn framed(&self, reply: Seq<u8>) -> bool {
        is_status_frame(reply)
    }

    open spec fn response(&self, reply: Seq<u8>) -> Result<PrinterStatus, QlError> {
        decode_status(reply)
    }

    fn reply_length(&self) -> (n: usize) {
        STATUS_SIZE
    }

    fn is_framed(&self, reply: &[u8]) -> (b: bool) {
        reply.len() == STATUS_SIZE && reply[0] == 0x80 && reply[1] == 0x20
    }

    fn read_response(&self, reply: &[u8]) -> (r: Result<PrinterStatus, QlError>) {
        let media_type = match MediaType::from_code(reply[11]) {
            Some(media_type) => media_type,
            None => return Err(QlError::BadData("unknown media type")),
        };
        let status_type = match StatusType::from_code(reply[18]) {
            Some(status_type) => status_type,
            None => return Err(QlError::BadData("unknown status type")),
        };
        let phase_state = match PhaseState::from_code(reply[19]) {
            Some(phase_state) => phase_state,
            None => return Err(QlError::BadData("unknown phase status")),
        };
        Ok(
            PrinterStatus {
                media_width: reply[10],
                media_type,
                media_length: reply[17],
                error1: ErrorInformation1::from_bits(reply[8]),
                error2: ErrorInformation2::from_bits(reply[9]),
                status_type,
                phase_state,
            },
        )
    }
}

} // verus!

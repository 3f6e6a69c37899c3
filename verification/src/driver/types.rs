//! Values that travel in status replies and in command arguments.

use crate::driver::bits::weighted;
use crate::driver::encode::{lemma_le_bytes_one, Encode, Sink};
use crate::error::QlError;
use vstd::prelude::*;

verus! {

/// Whether the one bit of `mask`, a power of two, is set in `register`.
pub open spec fn flag_is_set(register: u8, mask: u8) -> bool
    recommends
        mask == 0x01 || mask == 0x02 || mask == 0x04 || mask == 0x08 || mask == 0x10 || mask
            == 0x20 || mask == 0x40 || mask == 0x80,
{
    (register / mask) % 2 == 1
}

/// First error register of a status reply.
#[derive(Debug, Clone, Copy, PartialEq, Eq)]
pub struct ErrorInformation1 {
    pub no_media_when_printing: bool,
    pub end_of_media: bool,
    pub tape_cutter_jam: bool,
    pub main_unit_in_use: bool,
    pub fan_doesnt_work: bool,
}

impl ErrorInformation1 {
    /// The register that the byte `bits` stands for.
    pub open spec fn spec_from_bits(bits: u8) -> ErrorInformation1 {
        ErrorInformation1 {
            no_media_when_printing: flag_is_set(bits, 0x01),
            end_of_media: flag_is_set(bits, 0x02),
            tape_cutter_jam: flag_is_set(bits, 0x04),
            main_unit_in_use: flag_is_set(bits, 0x10),
            fan_doesnt_work: flag_is_set(bits, 0x80),
        }
    }

    /// A byte that stands for the register: the masks of the flags that
    /// are set, added up.
    pub open spec fn spec_bits(self) -> u8 {
        (weighted(self.no_media_when_printing, 0x01) + weighted(self.end_of_media, 0x02)
            + weighted(self.tape_cutter_jam, 0x04) + weighted(self.main_unit_in_use, 0x10)
            + weighted(self.fan_doesnt_work, 0x80)) as u8
    }

    /// Reads the register out of its wire byte.
    pub fn from_bits(bits: u8) -> (r: Self)
        ensures
            r == Self::spec_from_bits(bits),
    {
        proof {
            lemma_masks(bits);
        }
        ErrorInformation1 {
            no_media_when_printing: bits & 0x01 != 0,
            end_of_media: bits & 0x02 != 0,
            tape_cutter_jam: bits & 0x04 != 0,
            main_unit_in_use: bits & 0x10 != 0,
            fan_doesnt_work: bits & 0x80 != 0,
        }
    }
}

/// A mask test on one bit agrees with the arithmetic reading of that bit.
pub proof fn lemma_masks(b: u8)
    ensures
        (b & 0x01 != 0) == flag_is_set(b, 0x01),
        (b & 0x02 != 0) == flag_is_set(b, 0x02),
        (b & 0x04 != 0) == flag_is_set(b, 0x04),
        (b & 0x10 != 0) == flag_is_set(b, 0x10),
        (b & 0x40 != 0) == flag_is_set(b, 0x40),
        (b & 0x80 != 0) == flag_is_set(b, 0x80),
{
    assert((b & 0x01 != 0) == ((b / 1) % 2 == 1)) by (bit_vector);
    assert((b & 0x02 != 0) == ((b / 2) % 2 == 1)) by (bit_vector);
    assert((b & 0x04 != 0) == ((b / 4) % 2 == 1)) by (bit_vector);
    assert((b & 0x10 != 0) == ((b / 16) % 2 == 1)) by (bit_vector);
    assert((b & 0x40 != 0) == ((b / 64) % 2 == 1)) by (bit_vector);
    assert((b & 0x80 != 0) == ((b / 128) % 2 == 1)) by (bit_vector);
}

/// Second error register of a status reply.
#[derive(Debug, Clone, Copy, PartialEq, Eq)]
pub struct ErrorInformation2 {
    pub transmission_error: bool,
    pub cover_opened_while_printing: bool,
    pub cannot_feed: bool,
    pub system_error: bool,
}

impl ErrorInformation2 {
    /// The register that the byte `bits` stands for.
    pub open spec fn spec_from_bits(bits: u8) -> ErrorInformation2 {
        ErrorInformation2 {
            transmission_error: flag_is_set(bits, 0x04),
            cover_opened_while_printing: flag_is_set(bits, 0x10),
            cannot_feed: flag_is_set(bits, 0x40),
            system_error: flag_is_set(bits, 0x80),
        }
    }

    /// A byte that stands for the register: the masks of the flags that
    /// are set, added up.
    pub open spec fn spec_bits(self) -> u8 {
        (weighted(self.transmission_error, 0x04) + weighted(
            self.cover_opened_while_printing,
            0x10,
        ) + weighted(self.cannot_feed, 0x40) + weighted(self.system_error, 0x80)) as u8
    }

    /// Reads the register out of its wire byte.
    pub fn from_bits(bits: u8) -> (r: Self)
        ensures
            r == Self::spec_from_bits(bits),
    {
        proof {
            lemma_masks(bits);
        }
        ErrorInformation2 {
            transmission_error: bits & 0x04 != 0,
            cover_opened_while_printing: bits & 0x10 != 0,
            cannot_feed: bits & 0x40 != 0,
            system_error: bits & 0x80 != 0,
        }
    }
}

/// Every value of the two error registers is read back from the byte that
/// stands for it.
pub proof fn lemma_registers_round_trip(first: ErrorInformation1, second: ErrorInformation2)
    ensures
        ErrorInformation1::spec_from_bits(first.spec_bits()) == first,
        ErrorInformation2::spec_from_bits(second.spec_bits()) == second,
{
}

/// Kind of media loaded in the printer.
#[derive(Debug, Clone, Copy, PartialEq, Eq)]
pub enum MediaType {
    NoMedia,
    Continuous,
    DieCutLabels,
}

impl MediaType {
    /// The byte that names this media type on the wire.
    pub open spec fn spec_code(self) -> u8 {
        match self {
            MediaType::NoMedia => 0x00,
            MediaType::Continuous => 0x0A,
            MediaType::DieCutLabels => 0x0B,
        }
    }

    /// The media type that `code` names, if it names one.
    pub open spec fn spec_from_code(code: u8) -> Option<MediaType> {
        if code == 0x00 {
            Some(MediaType::NoMedia)
        } else if code == 0x0A {
            Some(MediaType::Continuous)
        } else if code == 0x0B {
            Some(MediaType::DieCutLabels)
        } else {
            None
        }
    }

    #[verifier::when_used_as_spec(spec_code)]
    pub fn code(self) -> (c: u8)
        ensures
            c == self.spec_code(),
    {
        match self {
            MediaType::NoMedia => 0x00,
            MediaType::Continuous => 0x0A,
            MediaType::DieCutLabels => 0x0B,
        }
    }

    #[verifier::when_used_as_spec(spec_from_code)]
    pub fn from_code(code: u8) -> (m: Option<MediaType>)
        ensures
            m == Self::spec_from_code(code),
    {
        match code {
            0x00 => Some(MediaType::NoMedia),
            0x0A => Some(MediaType::Continuous),
            0x0B => Some(MediaType::DieCutLabels),
            _ => None,
        }
    }
}

/// Why the printer sent a status frame.
#[derive(Debug, Clone, Copy, PartialEq, Eq)]
pub enum StatusType {
    ReplyToStatusRequest,
    PrintingCompleted,
    Error,
    Notification,
    PhaseChange,
}

impl StatusType {
    /// The byte that names this status type on the wire.
    pub open spec fn spec_code(self) -> u8 {
        match self {
            StatusType::ReplyToStatusRequest => 0x00,
            StatusType::PrintingCompleted => 0x01,
            StatusType::Error => 0x02,
            StatusType::Notification => 0x05,
            StatusType::PhaseChange => 0x06,
        }
    }

    /// The status type that `code` names, if it names one.
    pub open spec fn spec_from_code(code: u8) -> Option<StatusType> {
        if code == 0x00 {
            Some(StatusType::ReplyToStatusRequest)
        } else if code == 0x01 {
            Some(StatusType::PrintingCompleted)
        } else if code == 0x02 {
            Some(StatusType::Error)
        } else if code == 0x05 {
            Some(StatusType::Notification)
        } else if code == 0x06 {
            Some(StatusType::PhaseChange)
        } else {
            None
        }
    }

    #[verifier::when_used_as_spec(spec_from_code)]
    pub fn from_code(code: u8) -> (s: Option<StatusType>)
        ensures
            s == Self::spec_from_code(code),
    {
        match code {
            0x00 => Some(StatusType::ReplyToStatusRequest),
            0x01 => Some(StatusType::PrintingCompleted),
            0x02 => Some(StatusType::Error),
            0x05 => Some(StatusType::Notification),
            0x06 => Some(StatusType::PhaseChange),
            _ => None,
        }
    }
}

/// What the printer is doing.
#[derive(Debug, Clone, Copy, PartialEq, Eq)]
pub enum PhaseState {
    Waiting,
    Printing,
}

impl PhaseState {
    /// The byte that names this phase on the wire.
    pub open spec fn spec_code(self) -> u8 {
        match self {
            PhaseState::Waiting => 0x00,
            PhaseState::Printing => 0x01,
        }
    }

    /// The phase that `code` names, if it names one.
    pub open spec fn spec_from_code(code: u8) -> Option<PhaseState> {
        if code == 0x00 {
            Some(PhaseState::Waiting)
        } else if code == 0x01 {
            Some(PhaseState::Printing)
        } else {
            None
        }
    }

    #[verifier::when_used_as_spec(spec_from_code)]
    pub fn from_code(code: u8) -> (p: Option<PhaseState>)
        ensures
            p == Self::spec_from_code(code),
    {
        match code {
            0x00 => Some(PhaseState::Waiting),
            0x01 => Some(PhaseState::Printing),
            _ => None,
        }
    }
}

/// A decoded status reply.
#[derive(Debug, Clone, Copy, PartialEq, Eq)]
pub struct PrinterStatus {
    pub media_width: u8,
    pub media_length: u8,
    pub media_type: MediaType,
    pub error1: ErrorInformation1,
    pub error2: ErrorInformation2,
    pub status_type: StatusType,
    pub phase_state: PhaseState,
}

/// Command language that the printer is switched to.
#[derive(Debug, Clone, Copy, PartialEq, Eq)]
pub enum PrinterCommandMode {
    /// ESC/P mode (normal)
    EscpNormal,
    /// Raster mode (default)
    Raster,
    /// ESC/P mode (text) for QL-650TD
    EscpText,
    /// P-touch Template mode for QL-580N/1050/1060N
    PtouchTemplate,
}

impl PrinterCommandMode {
    /// The byte that selects this mode. The printer takes 0 for ESC/P normal,
    /// whatever the vendor's manual prints.
    pub open spec fn spec_code(self) -> u8 {
        match self {
            PrinterCommandMode::EscpNormal => 0x00,
            PrinterCommandMode::Raster => 0x01,
            PrinterCommandMode::EscpText => 0x02,
            PrinterCommandMode::PtouchTemplate => 0x03,
        }
    }

    #[verifier::when_used_as_spec(spec_code)]
    pub fn code(self) -> (c: u8)
        ensures
            c == self.spec_code(),
    {
        match self {
            PrinterCommandMode::EscpNormal => 0x00,
            PrinterCommandMode::Raster => 0x01,
            PrinterCommandMode::EscpText => 0x02,
            PrinterCommandMode::PtouchTemplate => 0x03,
        }
    }
}

/// Flags of the "various mode" command.
#[derive(Debug, Clone, Copy, PartialEq, Eq)]
pub struct PrinterMode {
    /// Auto cut (QL550/560/570/580N/650TD/700/1050/1060N)
    pub auto_cut: bool,
}

impl PrinterMode {
    /// The flag byte: auto cut is bit 6.
    pub open spec fn spec_flags(self) -> u8 {
        if self.auto_cut {
            0x40
        } else {
            0x00
        }
    }

    #[verifier::when_used_as_spec(spec_flags)]
    pub fn flags(self) -> (b: u8)
        ensures
            b == self.spec_flags(),
    {
        let auto_cut: u8 = if self.auto_cut { 1 } else { 0 };
        assert(auto_cut << 6 == (if auto_cut == 1 { 0x40u8 } else { 0x00u8 })) by (bit_vector)
            requires
                auto_cut == 0 || auto_cut == 1,
        ;
        auto_cut << 6
    }
}

/// Flags of the "expanded mode" command.
#[derive(Debug, Clone, Copy, PartialEq, Eq)]
pub struct PrinterExpandedMode {
    /// Cut at end (not supported by early QL-650TD firmware)
    pub cut_at_end: bool,
    /// High resolution printing (QL-570/580N/700)
    pub high_resolution_printing: bool,
}

impl PrinterExpandedMode {
    /// The flag byte: cut at end is bit 4, high resolution is bit 6.
    pub open spec fn spec_flags(self) -> u8 {
        ((if self.cut_at_end { 0x10int } else { 0 })
            + (if self.high_resolution_printing { 0x40int } else { 0 })) as u8
    }

    #[verifier::when_used_as_spec(spec_flags)]
    pub fn flags(self) -> (b: u8)
        ensures
            b == self.spec_flags(),
    {
        let cut: u8 = if self.cut_at_end { 1 } else { 0 };
        let fine: u8 = if self.high_resolution_printing { 1 } else { 0 };
        assert((cut << 4 | fine << 6) == cut * 0x10 + fine * 0x40) by (bit_vector)
            requires
                cut == 0 || cut == 1,
                fine == 0 || fine == 1,
        ;
        cut << 4 | fine << 6
    }
}

impl Encode for MediaType {
    open spec fn encoding(&self) -> Seq<u8> {
        seq![self.spec_code()]
    }

    fn encode(&self, sink: &mut Sink) -> (r: Result<(), QlError>) {
        proof {
            lemma_le_bytes_one(self.spec_code());
        }
        self.code().encode(sink)
    }
}

impl Encode for PrinterCommandMode {
    open spec fn encoding(&self) -> Seq<u8> {
        seq![self.spec_code()]
    }

    fn encode(&self, sink: &mut Sink) -> (r: Result<(), QlError>) {
        proof {
            lemma_le_bytes_one(self.spec_code());
        }
        self.code().encode(sink)
    }
}

impl Encode for PrinterMode {
    open spec fn encoding(&self) -> Seq<u8> {
        seq![self.spec_flags()]
    }

    fn encode(&self, sink: &mut Sink) -> (r: Result<(), QlError>) {
        [self.flags()].encode(sink)
    }
}

impl Encode for PrinterExpandedMode {
    open spec fn encoding(&self) -> Seq<u8> {
        seq![self.spec_flags()]
    }

    fn encode(&self, sink: &mut Sink) -> (r: Result<(), QlError>) {
        [self.flags()].encode(sink)
    }
}

} // verus!

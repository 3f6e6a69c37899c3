//! The error type shared by every fallible operation.

use vstd::prelude::*;

verus! {

/// Why a transfer of bytes did not complete.
#[derive(Clone, Copy, Debug, PartialEq, Eq)]
pub enum IoFault {
    /// A bounded sink was full before the whole value was written.
    WriteZero,
    /// The device refused or cut short a read or a write.
    Device,
}

/// Everything that can go wrong while talking to the printer.
#[derive(Clone, Copy, Debug, PartialEq, Eq)]
pub enum QlError {
    /// Bytes could not be moved.
    Io(IoFault),
    /// The printer sent a frame with a field this driver does not know.
    BadData(&'static str),
    /// The payload of a raster data transfer does not fit in one frame.
    WrongDataSize,
    /// Every attempt of a bounded read failed.
    ReadTimeout,
}

/// `String::push_str`: the text of `string` is appended to the text held.
pub assume_specification[ String::push_str ](s: &mut String, string: &str)
    ensures
        final(s)@ == old(s)@ + string@,
;

impl QlError {
    /// The text that tells a user of this error.
    pub open spec fn spec_message(self) -> Seq<char> {
        match self {
            QlError::Io(IoFault::WriteZero) => "failed to write whole buffer"@,
            QlError::Io(IoFault::Device) => "input/output error on the device"@,
            QlError::BadData(reason) => "received bad data: "@ + reason@,
            QlError::WrongDataSize =>
                "the input data length for a raster data transfer should not exceed 2^8"@,
            QlError::ReadTimeout => "timeout while trying to read printer data"@,
        }
    }

    /// The text that tells a user of this error.
    pub fn message(&self) -> (text: String)
        ensures
            text@ == self.spec_message(),
    {
        match self {
            QlError::Io(IoFault::WriteZero) => "failed to write whole buffer".to_owned(),
            QlError::Io(IoFault::Device) => "input/output error on the device".to_owned(),
            QlError::BadData(reason) => {
                let mut text = "received bad data: ".to_owned();
                text.push_str(reason);
                text
            },
            QlError::WrongDataSize =>
                "the input data length for a raster data transfer should not exceed 2^8".to_owned(),
            QlError::ReadTimeout => "timeout while trying to read printer data".to_owned(),
        }
    }
}

} // verus!

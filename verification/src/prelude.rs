//! The names that most callers need.

pub use crate::driver::command::{Command, CommandResponse};
pub use crate::driver::commands::{
    Initialize, Invalid, Print, PrintWithFeeding, RasterGraphicsTransfer, Reset, SetBaudRate,
    SetCommandMode, SetCompressionMode, SetExpandedMode, SetMarginAmount, SetMode,
    SetPrintInformation, StatusInfoRequest, ZeroRasterGraphics,
};
pub use crate::driver::transfer::{RasterShip, RasterTransfer};
pub use crate::driver::types::{
    ErrorInformation1, ErrorInformation2, MediaType, PhaseState, PrinterCommandMode,
    PrinterExpandedMode, PrinterMode, PrinterStatus, StatusType,
};

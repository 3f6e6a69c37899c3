//! Protocol engine of a driver for label printers that are reached as a
//! byte-oriented character device.
//!
//! The crate performs no input or output. It turns typed commands into the
//! exact bytes of one write each, decodes the fixed reply frames, packs
//! scanlines into raster frames and decides when a read is retried; the
//! caller owns the device handle and carries the bytes.

pub mod driver;
pub mod error;
pub mod image;
pub mod prelude;
pub mod printer;

pub use crate::error::{IoFault, QlError};

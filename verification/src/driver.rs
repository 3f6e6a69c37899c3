//! Low level primitives of the conversation with the printer.

/// Values of status replies and command arguments.
pub mod types;
/// Encoding of values in a printer readable format.
pub mod encode;
/// What it is to be a command.
pub mod command;
/// The commands of the protocol.
pub mod commands;
/// Bit storage behind raster lines and bitmaps.
pub mod bits;
/// The raster transfer, which sends large data such as images.
pub mod transfer;
/// Bounded retry of reads on the link.
pub mod link;

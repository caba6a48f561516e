//! Command streams for thermal receipt printers.
//!
//! The crate turns a print job (a text receipt with an optional logo, or a
//! batch of product labels with barcodes) into the exact bytes a printer of the
//! ESC/POS family expects, and decides in which order the output channels are
//! tried when those bytes are delivered.

pub mod barcode;
pub mod bytes;
pub mod codecs;
pub mod commands;
pub mod delivery;
pub mod direct;
pub mod embedded;
pub mod job;
pub mod json;
pub mod label;
pub mod picture;
pub mod printers;
pub mod raster;
pub mod spooler;
pub mod text;
pub mod ticket;
pub mod transliterate;

//! Protocol logic for a USB HID barcode scanner.
//!
//! The scanner delivers a barcode as a burst of fixed-size 64-byte
//! "Scanned Data Reports". This crate validates the framing of each report,
//! extracts its data fragment and reassembles the fragments of a burst into
//! one payload. It also builds the two-byte trigger command that arms or
//! disarms the scanner, and lays out byte buffers as a hex/ASCII dump.
//!
//! Nothing here touches a device: callers read and write the reports
//! themselves and hand the bytes over.

pub mod report;
pub mod reassembler;
pub mod trigger;
pub mod hexdump;

//! Framing of raw bytes as an uncompressed linear-audio container.
//!
//! The library treats an arbitrary byte sequence as 8-bit mono audio
//! samples and wraps it with a fixed 44-byte header describing the
//! format, channel count, sample rate and bit depth. The payload bytes
//! pass through unmodified. A parser for the same fixed layout is
//! provided, and framing followed by parsing is proved to return the
//! original payload and format.

pub mod bytes;
pub mod format;
pub mod framer;

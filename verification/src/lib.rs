//! Previews raster images inside a terminal emulator.
//!
//! The library negotiates which graphics protocol the terminal understands,
//! fits the image into the terminal's cell grid and builds the escape
//! sequences of the chosen protocol. It never touches a file, a device or a
//! clock: every function works on plain values and appends the text meant for
//! the terminal to a `String`, so that each result is stated by a contract.

/// Options needed to preview an image
pub mod options;
/// Previewing functions
pub mod previewer;
/// Results from previewing
pub mod result;
/// Previewing protocol support checking
pub mod support;
/// Decimal numbers and substring search
pub mod text;
/// A bunch of utils
pub mod utils;

//! Terminal color output support.
//!
//! Decides how a terminal emulator should be addressed for colored output
//! (24-bit true color, 256-color indexed, or plain 16-color ANSI) and emits
//! the exact SGR escape sequence for a small fixed palette of semantic
//! colors. Capability detection is a pure function of an explicit
//! environment snapshot, so callers probe the real environment themselves
//! and hand the plain values in.

pub mod capability;
pub mod color;
pub mod laws;
pub mod sequence;
pub mod sgr;

pub use capability::TermColor;
pub use color::Color;
pub use sequence::colors_16_sequence;
pub use sequence::colors_256_sequence;
pub use sequence::true_colors_sequence;

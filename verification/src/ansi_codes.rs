//! The escape sequences that style text in a terminal.
use vstd::prelude::*;

verus! {

/// Ends a style.
pub const NO_STYLE: &'static str = "\x1B[0m";
/// Bold text.
pub const BOLD: &'static str = "\x1B[1m";
/// Italic text.
pub const ITALIC: &'static str = "\x1B[3m";
/// Underlined text.
pub const UNDERLINE: &'static str = "\x1B[4m";
/// Red text.
pub const RED: &'static str = "\x1B[0;31m";
/// Green text.
pub const GREEN: &'static str = "\x1B[0;32m";

} // verus!

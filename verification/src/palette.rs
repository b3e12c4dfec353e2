//! The colour palette: ANSI select-graphic-rendition codes with fixed
//! roles. Labels are bright red and values bright purple; the title line
//! shows the user bright blue, the at-sign yellow and the hostname
//! bright green; the art and the colour swatch use the basic and bright
//! terminal colours.
use vstd::prelude::*;

verus! {

/// Basic red, used in the upper art rows.
pub const RED: u64 = 31;

/// Basic green, used in the upper art rows.
pub const GREEN: u64 = 32;

/// Basic yellow, used for the title's at-sign and the lower art rows.
pub const YELLOW: u64 = 33;

/// Basic blue, used in the lower art rows.
pub const BLUE: u64 = 34;

/// Bright red, the colour of every module label.
pub const BRIGHT_RED: u64 = 91;

/// Bright purple, the colour of every module value.
pub const BRIGHT_PURPLE: u64 = 95;

/// Bright blue, the colour of the user name in the title.
pub const BRIGHT_BLUE: u64 = 94;

/// Bright green, the colour of the hostname in the title.
pub const BRIGHT_GREEN: u64 = 92;

/// The first of the eight basic colours, for the first swatch row.
pub const BASIC_BASE: u64 = 30;

/// The first of the eight bright colours, for the second swatch row.
pub const BRIGHT_BASE: u64 = 90;

} // verus!

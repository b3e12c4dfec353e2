//! A terminal system-information banner: a fixed, ordered list of
//! information modules, each rendered to one colourised line and printed
//! beside a column of ASCII art.
pub mod art;
pub mod compose;
pub mod config;
pub mod duration;
pub mod facts;
pub mod memory;
pub mod modules;
pub mod palette;
pub mod shell;
pub mod text;

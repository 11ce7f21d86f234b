//! Decision logic of the VVConvert H.266/VVC converter: what it runs, what it
//! searches for, what it reports and how it reads the text that tools print.

pub mod encoding;
pub mod outside;
pub mod shell;
pub mod text;
pub mod tools;

pub use shell::VVLogger;

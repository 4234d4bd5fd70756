//! Platform layer of the KraftOS port of the standard library: the file
//! system, command-line argument, standard I/O and heap pieces, written so
//! that every decision they make is stated and proved.
pub mod bytes;
pub mod error;
pub mod attr;
pub mod file;
pub mod dir;
pub mod read_dir;
pub mod fs;
pub mod heap;
pub mod args;
pub mod stdio;

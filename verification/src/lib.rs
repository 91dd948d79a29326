//! Core logic of a logger that polls a bench multimeter at a fixed cadence.
//!
//! The crate performs no input or output. A caller owns the socket, the
//! clock and the output stream, and asks this crate what to do next and
//! what each answer of the instrument means.

pub mod cli;
pub mod csvfile;
pub mod instrument;
pub mod pattern;
pub mod replay;
pub mod sampler;
pub mod scheduler;
pub mod scpi;
pub mod status;
pub mod text;

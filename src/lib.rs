//! Drives one run of a compiled Sierra program and turns what the run gives
//! back into a single classified outcome, asking for a Cairo PIE archive only
//! when the run completed.
//!
//! The run itself, and writing the archive to disk, are done by the caller:
//! the library hands out each step to perform and decides what follows from
//! what that step returned.
pub mod config;
pub mod outcome;
pub mod outside;


pub mod resolve;
pub mod session;

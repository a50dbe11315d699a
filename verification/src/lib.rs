//! Sentinel: a repository of text files rooted at a local directory, and the
//! logging configuration of the program that reads from it.
//!
//! Every function here is verified with Verus, but for the few in
//! [`repo::platform`] that hand a question to `std`. What the disk answers is
//! not known to the verifier: the contracts of the functions that ask it hold
//! for every answer, and the functions that take an answer as an argument say
//! what follows from it.

pub mod repo;
pub mod util;

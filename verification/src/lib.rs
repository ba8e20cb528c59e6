//! Host-side core of a GPU solver for the discrete gradient of a Morse
//! function sampled on a regular two-dimensional grid.
//!
//! The device work itself (adapter discovery, buffer creation, command
//! submission, buffer mapping) is performed by the embedding program. This
//! crate holds everything that is decided on the host: which jobs are
//! accepted, how large each buffer is and how it is bound, which commands are
//! recorded and in which order, how the asynchronous readback proceeds, and
//! how the bytes that come back become direction codes. Every function is
//! verified against its contract.
pub mod error;
pub mod job;
pub mod layout;
pub mod plan;
pub mod records;
pub mod report;
pub mod setup;
pub mod solver;
pub mod trace;

pub use crate::solver::MorseSmaleSolver;

//! The I/O boundary of an embeddable script interpreter.
//!
//! An interpreted program reaches the outside world (console, randomness,
//! process environment, files, other modules) only through an [`IoBackend`].
//! The trait fixes what a backend that leaves an optional operation out
//! answers; a borrowed backend is a backend again; [`StdIo`] holds the state
//! of the backend for a real host: its random generator and the results of the
//! modules it has imported.
//!
//! But for the clock, which seeds the random generator, nothing in this crate
//! touches the host. The caller reads and writes, and hands what the host
//! answered to the functions here, which decide what the interpreted program
//! gets to see.

pub mod backend;
pub mod error;
pub mod import;
pub mod laws;
pub mod std_io;

pub use backend::{is_unit_interval, IoBackend};
pub use error::{Env, ErrorModel, RuntimeError, RuntimeResult, FILE_IO_UNSUPPORTED, IMPORT_UNSUPPORTED};
pub use import::{ImportOutcome, ImportStep};
pub use std_io::StdIo;

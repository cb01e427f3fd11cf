//! Decision core of a robust directory synchroniser.
//!
//! Everything here is a function from plain values to plain values: the
//! caller performs the file-system work and hands the outcomes back.

use vstd::prelude::*;

pub mod args;
pub mod cli;
pub mod copy;
pub mod engine;
pub mod erase;
pub mod progress;
pub mod stats;
pub mod text;
pub mod utils;

pub use args::CopyOptions;
pub use engine::CopyEngine;
pub use progress::{
    gate_of, CliProgress, Gate, NullProgress, ProgressCallback, ProgressInfo, ProgressState,
    SharedProgress,
};
pub use stats::Statistics;

verus! {

/// Name under which the program announces itself.
pub const APP_NAME: &'static str = "RBCP";

/// Version of the library.
pub const VERSION: &'static str = "0.1.0";

} // verus!

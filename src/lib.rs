//! Uniform error values for a command-line tool: a cause chain of owned
//! errors, adapters for foreign failures, failed-process records, and the
//! translation of a final error into a human-safe message and an exit code.
pub mod cli;
pub mod errors;
pub mod foreign;
pub mod laws;
pub mod process;

pub use cli::CliError;
pub use errors::{
    chain, error, human, internal_error, BoxError, BoxedError, CargoError, CargoResult,
    ChainError, ConcreteCargoError, FromError,
};
pub use process::{int_to_text, process_error, ProcessError, ProcessExit, ProcessOutput};

//! Backend of a desktop application shell: a command dispatch facade.
//!
//! Each exposed operation either inspects the host environment or asks the
//! surrounding process layer to spawn an external command-line program, then
//! translates the outcome into a uniform result value. This crate holds the
//! verified half of that facade: the value types, the construction of every
//! argument vector, the mapping of spawn outcomes to results, and the
//! assembly of the environment report. Spawning itself is process I/O and
//! lives with the caller, which hands the captured outcome back in.

pub mod dispatch;
pub mod inspect;
pub mod text;
pub mod types;

pub use types::CommandResult;
pub use types::SystemInfo;

//! Configuration and identifier management shared by the analysis tools:
//! derived option flags, fresh-name allocation, and small helpers for
//! paths, printing and the host system.

pub mod file;
pub mod naming;
pub mod options;
pub mod print;
pub mod system;
pub mod traits;

//! Making a process dump core when it panics, on a best-effort basis.
//!
//! The library holds the decisions: how the core-file size limit is raised,
//! in which order the steps of registration and of a dump happen, which error
//! each failure maps to, and when the working directory is put back. The
//! operating-system calls themselves are made by the caller, which hands
//! their outcomes to the state machines here and performs the actions they
//! return.
pub mod chain;
pub mod error;
pub mod limit;
pub mod registration;
pub mod trigger;

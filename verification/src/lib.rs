//! The engine that sets up a secondary working copy of a repository from
//! declarative configurations: what to link, copy, overwrite or
//! instantiate from the main working copy.
//!
//! The library decides and never acts. Its caller looks at the disk and
//! asks version control, hands over what it found, and carries out the
//! changes that the library returns:
//!
//! * [`scan`] lists what has to be looked at before a configuration is
//!   planned, and [`observe`] holds what was seen;
//! * [`plan`] turns a configuration and those observations into the
//!   ordered list of operations, each with its forecast;
//! * [`execute`] turns one operation and the state of its two paths into
//!   an outcome and the changes that lead to it, and [`transfer`] does the
//!   same for the copy of a file or of a directory tree;
//! * [`apply`] applies a configuration item by item, without a plan;
//! * [`effects`] says what each change means on a disk, and [`laws`]
//!   proves what follows for every plan and every execution.
//!
//! Around this core, [`paths`] resolves declared paths and [`text`] holds
//! the searches in texts; [`config`], [`git`], [`cli`] and [`prompts`]
//! hold the decisions of loading configurations, of version control, of
//! the command line and of the interactive questions. What is left to
//! `std` and to `glob` is called in [`trusted`], and nowhere else.

pub mod apply;
pub mod cli;
pub mod config;
pub mod effects;
pub mod execute;
pub mod git;
pub mod laws;
pub mod observe;
pub mod outcome;
pub mod paths;
pub mod plan;
pub mod progress;
pub mod prompts;
pub mod scan;
pub mod text;
pub mod transfer;
pub mod trusted;

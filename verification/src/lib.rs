//! Orchestration core of the Stelarc archiver front end.
//!
//! The crate holds the decisions that surround one run of the external
//! archiver: which arguments it is started with, how its output becomes log
//! lines, how its exit is classified, and how the user-interface state
//! follows the resulting events.
//!
//! - [`preset`]: the compression presets with their labels and flags.
//! - [`command`]: the command builder and the checks on a request.
//! - [`pump`]: the cutting of an output stream into log lines.
//! - [`event`]: the events of a job and the classification of its end.
//! - [`tracker`]: the guard that hands out the terminal event once.
//! - [`channel`]: the queue between a job and the user interface.
//! - [`console`]: the log, the job flag, the clock and the notification.
//! - [`protocol`]: what holds of every job, whatever its output.
//! - [`hash`], [`oneshot`], [`navigation`], [`theme`], [`text`]: checksums,
//!   the one-shot compression, the directory browser, the colour themes and
//!   the rendering of numbers.
//!
//! The functions are verified against their contracts.  The calls into the
//! checksum crates and into the standard library's path and text decoding
//! stand in small wrappers whose contracts are taken on trust; each says
//! which function it calls and what it claims of it.

pub mod channel;
pub mod command;
pub mod console;
pub mod event;
pub mod hash;
pub mod navigation;
pub mod oneshot;
pub mod preset;
pub mod protocol;
pub mod pump;
pub mod text;
pub mod theme;
pub mod tracker;

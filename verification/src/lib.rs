//! The core of a model viewer that swaps the displayed model while it runs.
//!
//! - [`catalog`] decides which entries of a directory walk are models and
//!   under which identifier each one is listed.
//! - [`tracker`] holds the one load that is waited for and tells its end
//!   apart from the end of every load that was superseded.
//! - [`scene`] owns the displayed scene and replaces it in one step.
//! - [`viewer`] advances the two together, once per tick, and [`history`]
//!   states what then holds of every run.
//!
//! The library does no I/O. The caller walks the directory, starts the loads
//! and asks the loader how they stand, and carries out the scene actions
//! that a tick hands back.

pub mod text;
pub mod path;
pub mod catalog;
pub mod asset;
pub mod tracker;
pub mod scene;
pub mod viewer;
pub mod history;

//! Build-and-push pipeline for deployment profiles.
//!
//! The library decides which external commands run, in which order, and how
//! their outcomes map to results; the caller runs the commands.
pub mod error;
pub mod command;
pub mod output;
pub mod buildca;
pub mod push;
pub mod laws;

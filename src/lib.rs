//! Release monitoring engine: polls configured release sources, decides when a
//! source is due for a check, detects version changes, renders notifications and
//! keeps the last seen version of every source in a keyed store.

pub mod assets;
pub mod cli;
pub mod configuration;
pub mod error;
pub mod forms;
pub mod frequency;
pub mod monitors;
pub mod release;
pub mod scheduler;
pub mod text;
pub mod tracker;

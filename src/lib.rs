//! Turns video-editing settings (trim points, fades, speed, audio mixing, codec
//! choice) into one ordered transcoder invocation, and supervises its run.
//!
//! The stages: `settings` validates, `probe` reads duration and frame rate from
//! the probe run's diagnostics, `timing` resolves clip bounds and fades,
//! `filters` builds the filter chains, `command` assembles the arguments,
//! `pipeline` chains them, and `supervisor` decides on the running process.

pub mod command;
pub mod decimal;
pub mod filters;
pub mod laws;
pub mod pipeline;
pub mod probe;
pub mod settings;
pub mod supervisor;
pub mod text;
pub mod timing;

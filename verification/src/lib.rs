//! Template rendering for command-line workflows.
//!
//! Variables of a template are resolved from overrides, interactive answers,
//! shell-computed defaults and static defaults, in that order of precedence,
//! and substituted into the template body.
pub mod text;
pub mod error;
pub mod overrides;
pub mod config;
pub mod args;
pub mod trust;
pub mod resolve;
pub mod render;
pub mod pipeline;
pub mod laws;

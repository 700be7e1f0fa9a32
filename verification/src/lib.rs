//! Observability configuration for the newsletter service: which filter the
//! process logs under, which rendering it logs with, and the one-shot
//! installation of the process-wide sink.

pub mod configuration;
pub mod filter;
pub mod format;
pub mod grammar;
pub mod install;
pub mod logger;
pub mod startup;
pub mod telemetry;
pub mod text;

//! The core of `cram`, a local gateway that accepts the static bearer token
//! an editor stores and re-signs requests for Vertex AI: configuration
//! resolution, model aliases, the release check, the systemd unit, the
//! start-up banner and the dashboard's request history.

pub mod aliases;
pub mod banner;
pub mod cli;
pub mod config;
pub mod dashboard;
pub mod paths;
pub mod service;
pub mod startup;
pub mod text;
pub mod update;

//! A DICOM storage service provider that runs one listener per configured
//! channel and reconciles the running listeners with the configuration.
//!
//! - `config`: channels, nodes and the configuration, with their equality.
//! - `diff`: the actions that bring the running state to the configuration.
//! - `settings`: settings of the single-listener program.
//! - `codec`: the calls into the DICOM codec.
//! - `command`: DIMSE command sets and the responses sent.
//! - `association`: what an association does with each received PDU.
//! - `endpoint`: what a listener negotiates, and its worker's life cycle.
//! - `sample`: sample channels and configurations.
pub mod config;
pub mod diff;
pub mod settings;
pub mod codec;
pub mod command;
pub mod association;
pub mod endpoint;
pub mod sample;

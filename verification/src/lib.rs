//! A small local service manager: declarative manifests describe named
//! services, each backed by shell scripts for health-check, start, stop,
//! pre-start and post-stop; the library parses the manifests, extracts the
//! placeholder variables embedded in their raw text, builds the shell command
//! lines, and drives the service lifecycle as a state machine over script
//! exit codes.

pub mod cmd;
pub mod executor;
pub mod manifest;
pub mod service;
pub mod template;
pub mod work;

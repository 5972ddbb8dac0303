//! Command-dispatch and job-orchestration layer of a batch audio-metadata
//! tool. The library resolves a canonical job configuration from layered
//! sources (built-in defaults, an optional config file, CLI overrides),
//! plans file enumeration, validates and builds external-process
//! invocations, drives the OAuth authorization state machine, computes
//! rename mappings, and drains progress channels of delegated jobs.

pub mod auth;
pub mod config;
pub mod dispatch;
pub mod files;
pub mod process;
pub mod progress;
pub mod rename;
pub mod tags;

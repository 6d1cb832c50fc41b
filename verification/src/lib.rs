//! Core logic of a game launcher: manifest resolution, download planning
//! with content-hash deduplication and size verification, platform rule
//! evaluation for conditional libraries, runtime version selection, launch
//! command synthesis, and supervision of the launched process's log stream.
//!
//! Everything here is pure decision logic over plain values; the surrounding
//! network, filesystem and process I/O hands values in and carries the
//! resulting plans out.

pub mod assets;
pub mod commands;
pub mod download;
pub mod errors;
pub mod filesystem;
pub mod java;
pub mod java_config;
pub mod layout;
pub mod libraries;
pub mod models;
pub mod platform;
pub mod progress;
pub mod rules;
pub mod strutil;
pub mod supervisor;

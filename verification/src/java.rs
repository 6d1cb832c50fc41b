//! Runtime concerns: the version-aware launch command builder and the
//! runtime manager that selects and locates a compatible virtual machine.

pub mod java_config;
pub mod java_downloader;

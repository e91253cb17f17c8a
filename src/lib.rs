//! Update and process-lifecycle engine of a router daemon that manages two
//! interchangeable proxy cores: release discovery, mirrored download,
//! archive extraction, backup and atomic installation, and process control.

pub mod archive;
pub mod backup;
pub mod download;
pub mod logquery;
pub mod process;
pub mod release;
pub mod settings;
pub mod text;
pub mod update;

//! Library side of the `info` command: everything that decides what the
//! report says, given what the machine answered.
pub mod text;
pub mod version;
pub mod pattern;
pub mod probe;
pub mod package_manager;
pub mod blocks;
pub mod cargo;
pub mod report;

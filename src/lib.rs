//! Lifecycle core for ephemeral, disk-backed database server instances.
//!
//! Everything here is logic without side effects: where each instance lives
//! on disk, the command lines of the control program, the metadata record
//! and the configuration file, how a status is read back from the disk, how
//! a data directory is cloned, and which steps each lifecycle operation
//! takes. The program around it performs those steps.

pub mod api;
pub mod config;
pub mod copy;
pub mod decimal;
pub mod lifecycle;
pub mod metadata;
pub mod paths;
pub mod pg_ctl;
pub mod reports;
mod text;

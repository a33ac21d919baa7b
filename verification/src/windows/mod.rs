//! The Windows helper: one root of save files kept in step with the cloud.
pub mod cli;
pub mod syncer;
pub mod files;

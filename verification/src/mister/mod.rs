pub mod cli;
pub mod config;
pub mod sources;
pub mod state;
pub mod syncer;
pub mod writeback;
pub mod flow;
pub mod restore;
pub mod scan;
pub mod scanner;
pub mod select;
pub mod watcher;
pub mod backend_config;
pub mod cloud_restore;
pub mod store_law;

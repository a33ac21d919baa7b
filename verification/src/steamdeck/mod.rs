pub mod api;
pub mod cli;
pub mod helper;
pub mod scanner;
pub mod sources;
pub mod syncer;
pub mod ports;
pub mod scheduler;
pub mod service;

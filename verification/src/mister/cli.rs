//! The MiSTer helper's command line.
use vstd::prelude::*;

verus! {

/// The command line: settings that hold for every command, and the command.
#[derive(Debug, Clone)]
pub struct Cli {
    pub config: Option<String>,
    pub url: Option<String>,
    pub api_url: Option<String>,
    pub port: Option<u16>,
    pub email: Option<String>,
    pub app_password: Option<String>,
    pub root: Option<String>,
    pub state_dir: Option<String>,
    pub route_prefix: Option<String>,
    pub verbose: bool,
    pub quiet: bool,
    pub command: Commands,
}

#[derive(Debug, Clone)]
pub enum Commands {
    Signup { email: Option<String>, display_name: Option<String>, password: Option<String>, skip_verification: bool },
    Login { email: Option<String>, app_password: Option<String>, device: bool },
    ResendVerification { email: Option<String> },
    Logout,
    Token { details: bool },
    Sync { force_upload: Option<bool>, dry_run: Option<bool>, slot_name: Option<String> },
    Watch {
        watch_interval: Option<u64>,
        force_upload: Option<bool>,
        dry_run: Option<bool>,
        slot_name: Option<String>,
        max_cycles: Option<u32>,
    },
    Source { command: SourceCommand },
    State { command: StateCommand },
    Config { command: ConfigCommand },
    DeviceAuth { poll_interval: u64 },
}

#[derive(Debug, Clone)]
pub enum SourceCommand {
    List,
    Add { source: SourceAddCommand },
    Remove { name: String },
}

#[derive(Debug, Clone)]
pub enum SourceAddCommand {
    Custom { name: String, saves: Vec<String>, roms: Vec<String>, recursive: Option<bool> },
    MisterFpga { name: String, root: String, recursive: Option<bool> },
    Retroarch { name: String, root: String, recursive: Option<bool> },
    Openemu { name: String, root: String, recursive: Option<bool> },
    AnaloguePocket { name: String, root: String, recursive: Option<bool> },
}

#[derive(Debug, Clone, Copy)]
pub enum StateCommand {
    List,
    Clean { missing: bool, all: bool },
}

#[derive(Debug, Clone, Copy)]
pub enum ConfigCommand {
    Show,
}

} // verus!

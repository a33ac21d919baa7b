//! The Windows helper's command line, and what its commands decide before
//! they reach the backend.
use vstd::prelude::*;
use crate::mister::config::{AppConfig, ConfigOverrides};
use crate::text::{owned, trim, trim_str};
use crate::windows::syncer::SyncOptions;

verus! {

/// The command line: settings that hold for every command, and the command.
#[derive(Debug, Clone)]
pub struct Cli {
    pub config: Option<String>,
    pub url: Option<String>,
    pub port: Option<u16>,
    pub email: Option<String>,
    pub app_password: Option<String>,
    pub root: Option<String>,
    pub state_dir: Option<String>,
    pub route_prefix: Option<String>,
    pub verbose: bool,
    pub quiet: bool,
    pub command: Commands,
}

#[derive(Debug, Clone)]
pub enum Commands {
    Login { email: Option<String>, app_password: Option<String> },
    Logout,
    Token,
    Sync { force_upload: Option<bool>, dry_run: Option<bool> },
    Watch { watch_interval: Option<u64>, force_upload: Option<bool>, dry_run: Option<bool>, max_cycles: Option<u32> },
    State { command: StateCommand },
    Config { command: ConfigCommand },
    DeviceAuth,
}

#[derive(Debug, Clone, Copy)]
pub enum StateCommand {
    List,
    Clean,
}

#[derive(Debug, Clone, Copy)]
pub enum ConfigCommand {
    Show,
}

/// What the command line refuses before any command runs.
#[derive(Debug, Clone, Copy, PartialEq, Eq, Structural)]
pub enum CliError {
    VerboseAndQuiet,
    MissingEmail,
    MissingAppPassword,
}

/// `--verbose` and `--quiet` exclude each other.
pub fn check_output_flags(cli: &Cli) -> (r: Result<(), CliError>)
    ensures
        r is Err <==> (cli.verbose && cli.quiet),
        r matches Err(e) ==> e == CliError::VerboseAndQuiet,
{
    if cli.verbose && cli.quiet {
        Err(CliError::VerboseAndQuiet)
    } else {
        Ok(())
    }
}

fn copy_opt(o: &Option<String>) -> (r: Option<String>)
    ensures
        r == *o,
{
    match o {
        Some(s) => Some(s.clone()),
        None => None,
    }
}

/// The settings the command line gives for every command: its server,
/// login and folder settings, nothing for watching, uploads or dry runs.
pub fn global_overrides(cli: &Cli) -> (r: ConfigOverrides)
    ensures
        r.url == cli.url,
        r.port == cli.port,
        r.email == cli.email,
        r.app_password == cli.app_password,
        r.root == cli.root,
        r.state_dir == cli.state_dir,
        r.route_prefix == cli.route_prefix,
        r.watch is None,
        r.watch_interval is None,
        r.force_upload is None,
        r.dry_run is None,
{
    ConfigOverrides {
        url: copy_opt(&cli.url),
        port: cli.port,
        email: copy_opt(&cli.email),
        app_password: copy_opt(&cli.app_password),
        root: copy_opt(&cli.root),
        state_dir: copy_opt(&cli.state_dir),
        watch: None,
        watch_interval: None,
        force_upload: None,
        dry_run: None,
        route_prefix: copy_opt(&cli.route_prefix),
    }
}

/// The login `login` uses: the command's e-mail and app password where it
/// gives them, else the configured ones; a blank one is refused, the e-mail
/// first.
pub open spec fn login_pair(cfg_email: Seq<char>, cfg_password: Seq<char>, email: Option<String>, password: Option<String>) -> Result<(Seq<char>, Seq<char>), CliError> {
    let e = match email {
        Some(x) => x@,
        None => cfg_email,
    };
    let p = match password {
        Some(x) => x@,
        None => cfg_password,
    };
    if trim(e).len() == 0 {
        Err(CliError::MissingEmail)
    } else if trim(p).len() == 0 {
        Err(CliError::MissingAppPassword)
    } else {
        Ok((e, p))
    }
}

pub fn login_credentials(
    config: &AppConfig,
    email: Option<String>,
    app_password: Option<String>,
) -> (r: Result<(String, String), CliError>)
    ensures
        match r {
            Ok((e, p)) => login_pair(config.email@, config.app_password@, email, app_password) == Ok::<(Seq<char>, Seq<char>), CliError>((e@, p@)),
            Err(x) => login_pair(config.email@, config.app_password@, email, app_password) == Err::<(Seq<char>, Seq<char>), CliError>(x),
        },
{
    let e = match email {
        Some(x) => x,
        None => config.email.clone(),
    };
    let p = match app_password {
        Some(x) => x,
        None => config.app_password.clone(),
    };
    if trim_str(e.as_str()).len() == 0 {
        Err(CliError::MissingEmail)
    } else if trim_str(p.as_str()).len() == 0 {
        Err(CliError::MissingAppPassword)
    } else {
        Ok((e, p))
    }
}

/// The options of `sync`: the command's flags where it gives them, else
/// the configured ones, always on the `default` slot.
pub fn sync_options_for(config: &AppConfig, force_upload: Option<bool>, dry_run: Option<bool>) -> (r: SyncOptions)
    ensures
        r.force_upload == match force_upload {
            Some(b) => b,
            None => config.force_upload,
        },
        r.dry_run == match dry_run {
            Some(b) => b,
            None => config.dry_run,
        },
        r.slot_name@ == "default"@,
{
    SyncOptions {
        force_upload: match force_upload {
            Some(b) => b,
            None => config.force_upload,
        },
        dry_run: match dry_run {
            Some(b) => b,
            None => config.dry_run,
        },
        slot_name: owned("default"),
    }
}

} // verus!

//! The Steam Deck helper's command line, and the decisions its commands
//! make before they reach the backend or the disk.
use vstd::prelude::*;
use crate::mister::sources::{
    EmulatorProfile, Source, SourceKind, default_profile, default_systems, profile_from_word, source_id,
};
use crate::paths::{join_path, path_join};
use crate::steamdeck::helper::{UnknownChoice, parse_emulator_profile};
use crate::text::{chars_of, find_char, first_index, lower, owned, slice_vec, string_of, trim, trim_str};

verus! {

/// The command line: settings that hold for every command, and the command.
#[derive(Debug, Clone)]
pub struct Cli {
    pub config: Option<String>,
    pub url: Option<String>,
    pub api_url: Option<String>,
    pub port: Option<u16>,
    pub email: Option<String>,
    pub app_password: Option<String>,
    pub root: Option<String>,
    pub state_dir: Option<String>,
    pub route_prefix: Option<String>,
    pub verbose: bool,
    pub quiet: bool,
    pub command: Commands,
}

#[derive(Debug, Clone)]
pub enum Commands {
    Signup { email: Option<String>, display_name: Option<String>, password: Option<String>, skip_verification: bool },
    Login { email: Option<String>, password: Option<String>, app_password: Option<String>, device: bool },
    Logout,
    ResendVerification { email: Option<String> },
    Token { details: bool },
    Sync {
        force_upload: Option<bool>,
        dry_run: Option<bool>,
        scan: bool,
        deep_scan: bool,
        apply_scan: bool,
        slot_name: Option<String>,
    },
    Convert { input: String, output: String, from: String, to: String },
    Watch {
        watch_interval: Option<u64>,
        force_upload: Option<bool>,
        dry_run: Option<bool>,
        scan: bool,
        deep_scan: bool,
        apply_scan: bool,
        slot_name: Option<String>,
        max_cycles: Option<u32>,
    },
    Source { command: SourceCommand },
    State { command: StateCommand },
    Config { command: ConfigCommand },
    Schedule { command: ScheduleCommand },
    Service { command: ServiceCommand },
    DeviceAuth { poll_interval: u64 },
}

#[derive(Debug, Clone)]
pub enum SourceCommand {
    List,
    Add { source: SourceAddCommand },
    Remove { name: String },
}

#[derive(Debug, Clone)]
pub enum SourceAddCommand {
    Custom { name: String, profile: Option<String>, saves: Vec<String>, roms: Vec<String>, recursive: Option<bool> },
    MisterFpga { name: String, profile: Option<String>, root: String, recursive: Option<bool> },
    Retroarch { name: String, profile: Option<String>, root: String, recursive: Option<bool> },
    Openemu { name: String, profile: Option<String>, root: String, recursive: Option<bool> },
    AnaloguePocket { name: String, profile: Option<String>, root: String, recursive: Option<bool> },
}

#[derive(Debug, Clone, Copy)]
pub enum StateCommand {
    List,
    Clean { missing: bool, all: bool },
}

#[derive(Debug, Clone, Copy)]
pub enum ConfigCommand {
    Show,
}

#[derive(Debug, Clone, Copy)]
pub enum ScheduleCommand {
    Install { every_minutes: u32 },
    Status,
    Uninstall,
}

#[derive(Debug, Clone)]
pub enum ServiceCommand {
    Run {
        heartbeat_interval: u64,
        reconcile_interval: u64,
        force_upload: Option<bool>,
        dry_run: Option<bool>,
        scan: bool,
        deep_scan: bool,
        apply_scan: bool,
        slot_name: Option<String>,
        max_cycles: Option<u32>,
    },
    Install { heartbeat_interval: u64, reconcile_interval: u64 },
    Status,
    Uninstall,
}

// ---------------------------------------------------------------------------
// Signing up and logging in
// ---------------------------------------------------------------------------

/// The display name `signup` uses: the given one, else what stands before
/// the first `@` of the e-mail.
pub open spec fn signup_name(email: Seq<char>, given: Option<Seq<char>>) -> Seq<char> {
    match given {
        Some(n) => n,
        None => if first_index(email, '@') >= 0 {
            email.subrange(0, first_index(email, '@'))
        } else {
            email
        },
    }
}

pub fn signup_display_name(email: &str, given: Option<String>) -> (r: String)
    ensures
        r@ == signup_name(
            email@,
            match given {
                Some(n) => Some(n@),
                None => None,
            },
        ),
{
    match given {
        Some(n) => n,
        None => {
            let v = chars_of(email);
            match find_char(v.as_slice(), '@') {
                Some(i) => string_of(slice_vec(v.as_slice(), 0, i).as_slice()),
                None => owned(email),
            }
        },
    }
}

/// The password `signup` uses: the given one, else the configured app
/// password where it is not blank, else `sgm-helper-password`.
pub open spec fn signup_pass(given: Option<Seq<char>>, app_password: Seq<char>) -> Seq<char> {
    match given {
        Some(p) => p,
        None => if trim(app_password).len() == 0 {
            "sgm-helper-password"@
        } else {
            app_password
        },
    }
}

pub fn signup_password(given: Option<String>, app_password: &str) -> (r: String)
    ensures
        r@ == signup_pass(
            match given {
                Some(p) => Some(p@),
                None => None,
            },
            app_password@,
        ),
{
    match given {
        Some(p) => p,
        None => if trim_str(app_password).len() == 0 {
            owned("sgm-helper-password")
        } else {
            owned(app_password)
        },
    }
}

/// Whether `login` signs in with a device code: when asked to, or when it
/// has neither a password nor an app password.
pub fn wants_device_login(device: bool, password_given: bool, app_password: &str) -> (r: bool)
    ensures
        r == (device || (!password_given && trim(app_password@).len() == 0)),
{
    device || (!password_given && trim_str(app_password).len() == 0)
}

// ---------------------------------------------------------------------------
// Adding a source
// ---------------------------------------------------------------------------

/// Why a source cannot be added.
#[derive(Debug, Clone)]
pub enum SourceAddError {
    NoSaveFolder,
    UnknownProfile(UnknownChoice),
}

/// The kind, save roots and ROM roots an added source gets: a custom source
/// its own folders (the ROM folders defaulting to the save folders); the
/// others the layout of their kind under the given root.
pub open spec fn add_layout(cmd: SourceAddCommand) -> (SourceKind, Seq<Seq<char>>, Seq<Seq<char>>) {
    match cmd {
        SourceAddCommand::Custom { saves, roms, .. } => (
            SourceKind::Custom,
            saves.deep_view(),
            if roms@.len() == 0 { saves.deep_view() } else { roms.deep_view() },
        ),
        SourceAddCommand::MisterFpga { root, .. } => (SourceKind::MisterFpga, seq![path_join(root@, "saves"@)], seq![path_join(root@, "games"@)]),
        SourceAddCommand::Retroarch { root, .. } => (
            SourceKind::RetroArch,
            seq![path_join(root@, "saves"@)],
            seq![path_join(root@, "roms"@), path_join(root@, "content"@)],
        ),
        SourceAddCommand::Openemu { root, .. } => (SourceKind::OpenEmu, seq![path_join(root@, "Save States"@)], seq![root@]),
        SourceAddCommand::AnaloguePocket { root, .. } => (
            SourceKind::AnaloguePocket,
            seq![path_join(root@, "Saves"@), path_join(root@, "saves"@)],
            seq![root@],
        ),
    }
}

pub open spec fn add_parts(cmd: SourceAddCommand) -> (String, Option<String>, Option<bool>) {
    match cmd {
        SourceAddCommand::Custom { name, profile, recursive, .. } => (name, profile, recursive),
        SourceAddCommand::MisterFpga { name, profile, recursive, .. } => (name, profile, recursive),
        SourceAddCommand::Retroarch { name, profile, recursive, .. } => (name, profile, recursive),
        SourceAddCommand::Openemu { name, profile, recursive, .. } => (name, profile, recursive),
        SourceAddCommand::AnaloguePocket { name, profile, recursive, .. } => (name, profile, recursive),
    }
}

fn one(a: String) -> (r: Vec<String>)
    ensures
        r.deep_view() == seq![a@],
{
    let v = vec![a];
    assert(v.deep_view() =~= seq![v@[0]@]);
    v
}

fn two(a: String, b: String) -> (r: Vec<String>)
    ensures
        r.deep_view() == seq![a@, b@],
{
    let v = vec![a, b];
    assert(v.deep_view() =~= seq![v@[0]@, v@[1]@]);
    v
}

/// The source `source add` stores: named and laid out by the command, with
/// its kind's profile unless it names one, recursive unless told otherwise.
/// A custom source without a save folder, or an unknown profile, is refused.
pub fn source_for_add_command(cmd: SourceAddCommand) -> (r: Result<Source, SourceAddError>)
    ensures
        ({
            let (kind, saves, roms) = add_layout(cmd);
            let (name, profile, recursive) = add_parts(cmd);
            match r {
                Ok(s) => {
                    &&& saves.len() > 0
                    &&& s.name@ == name@
                    &&& s.id@ == source_id(name@)
                    &&& s.kind == kind
                    &&& s.save_roots.deep_view() == saves
                    &&& s.rom_roots.deep_view() == roms
                    &&& s.recursive == match recursive {
                        Some(b) => b,
                        None => true,
                    }
                    &&& s.profile == match profile {
                        Some(p) => profile_from_word(lower(trim(p@)))->0,
                        None => default_profile(kind),
                    }
                    &&& profile matches Some(p) ==> profile_from_word(lower(trim(p@))) is Some
                    &&& s.systems.deep_view() == default_systems(kind)
                    &&& !s.managed
                    &&& s.origin@ == "manual"@
                },
                Err(SourceAddError::NoSaveFolder) => saves.len() == 0,
                Err(SourceAddError::UnknownProfile(e)) => saves.len() > 0 && (profile matches Some(p)
                    && profile_from_word(lower(trim(p@))) is None && e.value@ == p@),
            }
        }),
{
    let ghost layout = add_layout(cmd);
    let ghost parts = add_parts(cmd);
    let (name, profile, recursive, kind, saves, roms): (String, Option<String>, Option<bool>, SourceKind, Vec<String>, Vec<String>) = match cmd {
        SourceAddCommand::Custom { name, profile, saves, roms, recursive } => {
            if saves.len() == 0 {
                return Err(SourceAddError::NoSaveFolder);
            }
            let roms = if roms.len() == 0 {
                crate::mister::sources::copy_strings(&saves)
            } else {
                roms
            };
            (name, profile, recursive, SourceKind::Custom, saves, roms)
        },
        SourceAddCommand::MisterFpga { name, profile, root, recursive } => {
            let s = one(join_path(root.as_str(), "saves"));
            let r = one(join_path(root.as_str(), "games"));
            (name, profile, recursive, SourceKind::MisterFpga, s, r)
        },
        SourceAddCommand::Retroarch { name, profile, root, recursive } => {
            let s = one(join_path(root.as_str(), "saves"));
            let r = two(join_path(root.as_str(), "roms"), join_path(root.as_str(), "content"));
            (name, profile, recursive, SourceKind::RetroArch, s, r)
        },
        SourceAddCommand::Openemu { name, profile, root, recursive } => {
            let s = one(join_path(root.as_str(), "Save States"));
            let r = one(root.clone());
            (name, profile, recursive, SourceKind::OpenEmu, s, r)
        },
        SourceAddCommand::AnaloguePocket { name, profile, root, recursive } => {
            let s = two(join_path(root.as_str(), "Saves"), join_path(root.as_str(), "saves"));
            let r = one(root.clone());
            (name, profile, recursive, SourceKind::AnaloguePocket, s, r)
        },
    };
    assert(layout == (kind, saves.deep_view(), roms.deep_view()));
    let mut source = Source::new(
        name,
        kind,
        saves,
        roms,
        match recursive {
            Some(b) => b,
            None => true,
        },
    );
    match profile {
        Some(p) => match parse_emulator_profile(p.as_str()) {
            Ok(x) => {
                source.profile = x;
            },
            Err(e) => {
                return Err(SourceAddError::UnknownProfile(e));
            },
        },
        None => {},
    }
    Ok(source)
}

} // verus!

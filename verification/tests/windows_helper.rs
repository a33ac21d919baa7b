use sgm_helper::digest::{hex_lower, md5_hex, sha1_hex, sha256_bytes};
use sgm_helper::mister::config::AppConfig;
use sgm_helper::mister::flow::{SaveSyncAction, SaveSyncEvent, SaveSyncOutcome, SaveSyncPhase};
use sgm_helper::steamdeck::api::{LatestSaveResponse, LookupRomResponse, RomRecord};
use sgm_helper::windows::cli::{
    check_output_flags, global_overrides, login_credentials, sync_options_for, Cli, CliError, Commands,
};
use sgm_helper::windows::syncer::{next_windows_sync_step, rom_line, windows_synced_entry, WindowsSaveContext};

fn ctx(force: bool, dry: bool) -> WindowsSaveContext {
    WindowsSaveContext {
        upload_filename: "Zelda.sav".to_string(),
        force_upload: force,
        dry_run: dry,
        local_sha256: "aaa".to_string(),
    }
}

fn latest(exists: bool, sha: Option<&str>, id: Option<&str>) -> LatestSaveResponse {
    LatestSaveResponse {
        exists,
        sha256: sha.map(|s| s.to_string()),
        version: Some(4),
        id: id.map(|s| s.to_string()),
    }
}

fn step(c: &WindowsSaveContext, p: SaveSyncPhase, e: SaveSyncEvent) -> (SaveSyncPhase, SaveSyncAction) {
    next_windows_sync_step(c, &p, &e)
}

#[test]
fn windows_uploads_a_save_the_cloud_lacks() {
    let c = ctx(false, false);
    let (p, a) = step(&c, SaveSyncPhase::Start, SaveSyncEvent::Begin);
    assert!(matches!(a, SaveSyncAction::RequestLatest));
    let (p, a) = step(&c, p, SaveSyncEvent::Latest(latest(false, None, None)));
    assert!(matches!(a, SaveSyncAction::Upload { ref filename } if filename == "Zelda.sav"));
    let (p, a) = step(&c, p, SaveSyncEvent::UploadDone);
    assert!(matches!(a, SaveSyncAction::Finish(SaveSyncOutcome::Uploaded { version: Some(4) })));
    assert!(matches!(p, SaveSyncPhase::Finished));
    let (_, a) = step(&ctx(false, true), SaveSyncPhase::AwaitingLatest, SaveSyncEvent::Latest(latest(false, None, None)));
    assert!(matches!(a, SaveSyncAction::Finish(SaveSyncOutcome::Uploaded { version: None })));
}

#[test]
fn windows_equal_hash_is_in_sync_even_when_forced() {
    let (_, a) = step(&ctx(true, false), SaveSyncPhase::AwaitingLatest, SaveSyncEvent::Latest(latest(true, Some("aaa"), Some("9"))));
    assert!(matches!(a, SaveSyncAction::Finish(SaveSyncOutcome::InSync { version: Some(4) })));
    let (_, a) = step(&ctx(true, false), SaveSyncPhase::AwaitingLatest, SaveSyncEvent::Latest(latest(true, Some("bbb"), Some("9"))));
    assert!(matches!(a, SaveSyncAction::Upload { .. }));
}

#[test]
fn windows_conflict_or_download_after_check() {
    let c = ctx(false, false);
    let (p, a) = step(&c, SaveSyncPhase::AwaitingLatest, SaveSyncEvent::Latest(latest(true, Some("bbb"), Some("9"))));
    assert!(matches!(a, SaveSyncAction::RequestConflictCheck));
    let (_, a) = step(&c, p.clone(), SaveSyncEvent::ConflictCheck { exists: true });
    assert!(matches!(a, SaveSyncAction::ReportConflict));
    let (p2, a) = step(&c, p.clone(), SaveSyncEvent::ConflictCheck { exists: false });
    assert!(matches!(a, SaveSyncAction::Download { ref save_id } if save_id == "9"));
    let (_, a) = step(&c, p2, SaveSyncEvent::DownloadDone { sha256: "ccc".to_string() });
    assert!(matches!(a, SaveSyncAction::Finish(SaveSyncOutcome::Downloaded { version: Some(4), sha256: Some(ref s) }) if s == "ccc"));
    let (_, a) = step(&c, SaveSyncPhase::AwaitingLatest, SaveSyncEvent::LatestFailed("boom".to_string()));
    assert!(matches!(a, SaveSyncAction::Fail(ref m) if m == "boom"));
    let (p, a) = step(&c, SaveSyncPhase::Finished, SaveSyncEvent::UploadDone);
    assert!(matches!(a, SaveSyncAction::Ignore));
    assert!(matches!(p, SaveSyncPhase::Finished));
}

#[test]
fn windows_rom_line_and_entry() {
    let lookup = |rom: Option<RomRecord>| LookupRomResponse { count: None, rom };
    assert_eq!(rom_line(&lookup(None)), None);
    assert_eq!(rom_line(&lookup(Some(RomRecord { sha1: None, md5: None }))), None);
    assert_eq!(rom_line(&lookup(Some(RomRecord { sha1: Some("abc".to_string()), md5: None }))), Some("abc".to_string()));
    let e = windows_synced_entry("s".to_string(), Some("abc".to_string()), Some(2));
    assert_eq!(e.sha256, "s");
    assert_eq!(e.version, Some(2));
    assert!(e.system_slug.is_none() && e.slot_name.is_none());
}

fn config() -> AppConfig {
    AppConfig {
        url: "host".to_string(),
        port: 80,
        email: "me@x".to_string(),
        app_password: "  ".to_string(),
        root: "C:/saves".to_string(),
        state_dir: "state".to_string(),
        watch: false,
        watch_interval: 30,
        force_upload: true,
        dry_run: false,
        route_prefix: String::new(),
        binary_dir: ".".to_string(),
        config_path: "config.ini".to_string(),
    }
}

fn cli(verbose: bool, quiet: bool) -> Cli {
    Cli {
        config: None,
        url: Some("nas".to_string()),
        port: Some(8080),
        email: None,
        app_password: None,
        root: Some("D:/saves".to_string()),
        state_dir: None,
        route_prefix: None,
        verbose,
        quiet,
        command: Commands::Logout,
    }
}

#[test]
fn windows_command_line_decisions() {
    assert_eq!(check_output_flags(&cli(true, true)), Err(CliError::VerboseAndQuiet));
    assert_eq!(check_output_flags(&cli(true, false)), Ok(()));
    let o = global_overrides(&cli(false, false));
    assert_eq!(o.url.as_deref(), Some("nas"));
    assert_eq!(o.port, Some(8080));
    assert_eq!(o.root.as_deref(), Some("D:/saves"));
    assert!(o.force_upload.is_none() && o.watch.is_none());
    assert_eq!(login_credentials(&config(), None, None), Err(CliError::MissingAppPassword));
    assert_eq!(login_credentials(&config(), Some(" ".to_string()), Some("pw".to_string())), Err(CliError::MissingEmail));
    assert_eq!(
        login_credentials(&config(), None, Some("pw".to_string())),
        Ok(("me@x".to_string(), "pw".to_string()))
    );
    let s = sync_options_for(&config(), None, Some(true));
    assert!(s.force_upload && s.dry_run);
    assert_eq!(s.slot_name, "default");
}

#[test]
fn hashes_in_lower_case_hex() {
    assert_eq!(hex_lower(&[0x00, 0xab, 0x10, 0xff]), "00ab10ff");
    assert_eq!(sha256_bytes(b""), "e3b0c44298fc1c149afbf4c8996fb92427ae41e4649b934ca495991b7852b855");
    assert_eq!(sha256_bytes(b"abc"), "ba7816bf8f01cfea414140de5dae2223b00361a396177a9cb410ff61f20015ad");
    assert_eq!(sha1_hex(b"abc"), "a9993e364706816aba3e25717850c26c9cd0d89d");
    assert_eq!(md5_hex(b""), "d41d8cd98f00b204e9800998ecf8427e");
}

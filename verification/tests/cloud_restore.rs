use sgm_helper::mister::cloud_restore::{
    existing_local_save_is_valid, next_cloud_restore_step, restore_runtime_profile, target_parent_allowed,
    CloudRestoreAction, CloudRestoreContext, CloudRestoreEvent, CloudRestoreOutcome, CloudRestorePhase, RootFacts,
};
use sgm_helper::mister::config::AppConfig;
use sgm_helper::mister::flow::{choose_line, fixed_line_key, line_from_lookup, needs_local_rom_hashes};
use sgm_helper::mister::sources::{
    default_source, resolved_sources_or_default, EmulatorProfile, Source, SourceKind, SourceStore,
};
use sgm_helper::steamdeck::api::{LookupRomResponse, RomRecord, RuntimeTarget};
use sgm_helper::steamdeck::scanner::SaveContainerFormat;
use sgm_helper::steamdeck::scheduler::{check_cron_interval, ScheduleError};
use sgm_helper::steamdeck::service::{reported_config, shown_app_password};

fn config() -> AppConfig {
    AppConfig {
        url: "10.0.0.2".to_string(),
        port: 3001,
        email: "me@example.com".to_string(),
        app_password: "secret".to_string(),
        root: "/media/fat".to_string(),
        state_dir: "./state".to_string(),
        watch: false,
        watch_interval: 30,
        force_upload: false,
        dry_run: false,
        route_prefix: String::new(),
        binary_dir: "/opt/helper".to_string(),
        config_path: "/opt/helper/config.ini".to_string(),
    }
}

fn root(exists: bool, under: Option<Option<&str>>, folder_is_dir: bool) -> RootFacts {
    RootFacts { exists, under: under.map(|u| u.map(|f| f.to_string())), folder_is_dir }
}

#[test]
fn target_parent_policy_blocks_missing_system_folders() {
    // saves/SNES exists: a target in it may be written.
    assert!(target_parent_allowed(false, true, &vec![root(true, Some(Some("/x/saves/SNES")), true)]));
    // saves/Wii/SB4P is missing: the target is refused unless folders may be created.
    let missing = vec![root(true, Some(Some("/x/saves/Wii")), false)];
    assert!(!target_parent_allowed(false, false, &missing));
    assert!(target_parent_allowed(true, false, &missing));
    // Directly in an existing root.
    assert!(target_parent_allowed(false, false, &vec![root(true, Some(None), false)]));
    // Not under any root, or under a root that does not exist.
    assert!(!target_parent_allowed(false, false, &vec![root(true, None, false), root(false, Some(None), false)]));
}

fn ctx(dry_run: bool, restored: Vec<String>) -> CloudRestoreContext {
    CloudRestoreContext {
        system_slug: "snes".to_string(),
        provisional_path: "/saves/SNES/Game.srm".to_string(),
        native_path: "/saves/SNES/Game.sav".to_string(),
        source_kind: SourceKind::MisterFpga,
        source_profile: EmulatorProfile::Mister,
        dry_run,
        restored,
    }
}

fn run(c: &CloudRestoreContext, events: Vec<CloudRestoreEvent>) -> Vec<CloudRestoreAction> {
    let mut phase = CloudRestorePhase::Start;
    let mut actions = Vec::new();
    let mut all = vec![CloudRestoreEvent::Begin];
    all.extend(events);
    for ev in all {
        let (next, act) = next_cloud_restore_step(c, &phase, &ev);
        phase = next;
        actions.push(act);
    }
    actions
}

fn target(valid_save: bool, parent_allowed: bool) -> CloudRestoreEvent {
    CloudRestoreEvent::Target { valid_save, parent_allowed }
}

#[test]
fn cloud_restore_keeps_a_valid_save_and_overwrites_an_invalid_one() {
    let c = ctx(false, vec![]);
    let acts = run(&c, vec![target(true, true)]);
    assert!(matches!(&acts[0], CloudRestoreAction::Inspect { path } if path == "/saves/SNES/Game.srm"));
    assert!(matches!(acts[1], CloudRestoreAction::Finish(CloudRestoreOutcome::AlreadyPresent)));
    // An invalid file at both targets: the save is downloaded and written.
    let acts = run(
        &c,
        vec![
            target(false, true),
            target(false, true),
            CloudRestoreEvent::Downloaded { container: SaveContainerFormat::Native, size: 8192 },
            target(false, true),
            CloudRestoreEvent::Written,
        ],
    );
    assert!(matches!(&acts[1], CloudRestoreAction::Inspect { path } if path == "/saves/SNES/Game.sav"));
    assert!(matches!(acts[2], CloudRestoreAction::Download));
    let CloudRestoreAction::Inspect { path: final_path } = &acts[3] else { panic!("no final inspection") };
    assert!(matches!(&acts[4], CloudRestoreAction::Write { target, .. } if target == final_path));
    assert!(matches!(&acts[5], CloudRestoreAction::Finish(CloudRestoreOutcome::Restored { target, .. }) if target == final_path));
}

#[test]
fn cloud_restore_skips_disallowed_folders_and_dry_runs() {
    let acts = run(&ctx(false, vec![]), vec![target(false, false), target(false, false)]);
    assert!(matches!(acts[2], CloudRestoreAction::Finish(CloudRestoreOutcome::Skipped)));
    let acts = run(&ctx(true, vec![]), vec![target(false, true), target(false, true)]);
    assert!(matches!(acts[2], CloudRestoreAction::Finish(CloudRestoreOutcome::WouldDownload)));
    let acts = run(&ctx(false, vec!["/saves/SNES/Game.srm".to_string()]), vec![target(false, true), target(false, true)]);
    assert!(matches!(acts[2], CloudRestoreAction::Finish(CloudRestoreOutcome::AlreadyPresent)));
    // A final target that may not be written is skipped.
    let acts = run(
        &ctx(false, vec![]),
        vec![
            target(false, true),
            target(false, true),
            CloudRestoreEvent::Downloaded { container: SaveContainerFormat::Native, size: 8192 },
            target(false, false),
        ],
    );
    assert!(matches!(acts[4], CloudRestoreAction::Finish(CloudRestoreOutcome::Skipped)));
}

#[test]
fn cloud_restore_skips_missing_playstation_projection() {
    let mut c = ctx(false, vec![]);
    c.system_slug = "psx".to_string();
    let unavailable = "status=404 Not Found: PlayStation projection not found".to_string();
    let acts = run(&c, vec![target(false, true), target(false, true), CloudRestoreEvent::DownloadFailed(unavailable)]);
    assert!(matches!(acts[3], CloudRestoreAction::Finish(CloudRestoreOutcome::Skipped)));
    let acts = run(&c, vec![target(false, true), target(false, true), CloudRestoreEvent::DownloadFailed("timeout".to_string())]);
    assert!(matches!(&acts[3], CloudRestoreAction::Fail(m) if m == "timeout"));
}

#[test]
fn existing_save_check_and_runtime_profile() {
    assert!(!existing_local_save_is_valid("/saves/SNES/Game.srm", None, "snes"));
    assert!(!existing_local_save_is_valid("/saves/SNES/Game.srm", Some(b"hello world text"), "snes"));
    let t = RuntimeTarget {
        runtime_profile: Some("snes/snes9x".to_string()),
        emulator_profile: None,
        system_profile_key: Some("snes".to_string()),
        system_profile_value: Some("snes/mister".to_string()),
    };
    assert_eq!(restore_runtime_profile(&t), Some("snes/mister".to_string()));
    let t = RuntimeTarget { system_profile_value: None, ..t };
    assert_eq!(restore_runtime_profile(&t), Some("snes/snes9x".to_string()));
}

#[test]
fn line_key_prefers_fixed_then_lookup_then_local_rom() {
    assert!(fixed_line_key("snes", "mister", "default", None).is_none());
    assert!(fixed_line_key("psx", "mister", "default", None).is_some());
    let lookup = line_from_lookup(&Some(LookupRomResponse {
        count: Some(1),
        rom: Some(RomRecord { sha1: Some("abc".to_string()), md5: Some("m".to_string()) }),
    }));
    assert!(!needs_local_rom_hashes(&None, &lookup));
    assert_eq!(choose_line(None, lookup.clone(), None), Some(("abc".to_string(), Some("m".to_string()))));
    assert_eq!(choose_line(Some("fixed".to_string()), lookup, None), Some(("fixed".to_string(), None)));
    let failed = line_from_lookup(&None);
    assert!(needs_local_rom_hashes(&None, &failed));
    assert_eq!(
        choose_line(None, failed.clone(), Some(("s1".to_string(), "m1".to_string()))),
        Some(("s1".to_string(), Some("m1".to_string())))
    );
    assert_eq!(choose_line(None, failed, None), None);
}

#[test]
fn resolved_sources_keep_every_field_and_default_when_empty() {
    let cfg = config();
    let mut s = Source::new("Main".to_string(), SourceKind::Custom, vec!["saves".to_string()], vec![], false);
    s.managed = true;
    s.origin = "autoscan".to_string();
    let store = SourceStore { sources: vec![s] };
    let r = resolved_sources_or_default(&store, &cfg, SourceKind::MisterFpga, None);
    assert_eq!(r.len(), 1);
    assert_eq!(r[0].name, "Main");
    assert!(r[0].managed && !r[0].recursive);
    assert_eq!(r[0].origin, "autoscan");
    assert_eq!(r[0].save_roots, vec!["/opt/helper/saves".to_string()]);
    let empty = SourceStore { sources: vec![] };
    let r = resolved_sources_or_default(&empty, &cfg, SourceKind::MisterFpga, None);
    let d = default_source(&cfg, SourceKind::MisterFpga, None);
    assert_eq!(r.len(), 1);
    assert_eq!(r[0].name, d.name);
    assert_eq!(r[0].save_roots, d.save_roots);
    assert!(r[0].recursive);
}

#[test]
fn heartbeat_settings_hide_the_app_password() {
    let r = reported_config(&config());
    assert!(r.app_password_configured);
    assert_eq!(r.base_url, "http://10.0.0.2:3001");
    assert_eq!(shown_app_password("secret"), "***redacted***");
    assert_eq!(shown_app_password(""), "");
}

#[test]
fn cron_interval_is_checked_first() {
    assert_eq!(check_cron_interval(0), Err(ScheduleError::ZeroInterval));
    assert_eq!(check_cron_interval(60), Err(ScheduleError::CronIntervalTooLong));
    assert_eq!(check_cron_interval(15), Ok(()));
}

#[test]
fn kind_and_profile_names_read_back() {
    for k in [SourceKind::MisterFpga, SourceKind::RetroArch, SourceKind::SteamDeck, SourceKind::Windows] {
        assert_eq!(SourceKind::parse(k.as_str()), Some(k));
        assert_eq!(SourceKind::parse(&format!("  {}  ", k.as_str().to_uppercase())), Some(k));
    }
    for p in [EmulatorProfile::Mister, EmulatorProfile::Project64, EmulatorProfile::MupenFamily, EmulatorProfile::Generic] {
        assert_eq!(EmulatorProfile::parse(p.as_str()), Some(p));
    }
    assert_eq!(EmulatorProfile::parse("pj64"), Some(EmulatorProfile::Project64));
    assert_eq!(EmulatorProfile::parse("snes"), None);
    let s = Source::new("  My--Fancy / Source!! ".to_string(), SourceKind::Custom, vec![], vec![], true);
    assert_eq!(s.id, "my_fancy_source");
}

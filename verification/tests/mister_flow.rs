use sgm_helper::mister::backend_config::{
    apply_backend_response, normalize_systems, runtime_overrides, BackendConfigSyncResponse,
    BackendGlobalPolicy, BackendPolicy, BackendSourcePolicy, RuntimeConfigOverrides,
};
use sgm_helper::mister::flow::{
    count_outcome, entry_for_outcome, next_restore_step, restore_gate_open, RestoreGate, next_save_sync_step, record_processed,
    state_key_for_outcome, ProcessedEntry, SaveSyncAction, SaveSyncContext, SaveSyncEvent,
    SaveSyncOutcome, SaveSyncPhase,
};
use sgm_helper::mister::restore::{
    cloud_restore_filename, cloud_target_extension, cloud_target_path, cloud_wii_title_code,
    local_container_for_cloud_download, next_page_offset, normalize_path_token,
    root_is_system_specific, system_directory_aliases,
};
use sgm_helper::mister::cloud_restore::RootFacts;
use sgm_helper::mister::sources::{EmulatorProfile, ResolvedSource, SourceKind};
use sgm_helper::mister::state::{SyncState, SyncedEntry};
use sgm_helper::mister::syncer::SyncReport;
use sgm_helper::steamdeck::api::{CloudSaveSummary, DownloadProfile, LatestSaveResponse, RuntimeTarget};
use sgm_helper::steamdeck::scanner::{SaveAdapterProfile, SaveContainerFormat};

fn ctx(force: bool, dry: bool) -> SaveSyncContext {
    SaveSyncContext {
        system_slug: "snes".to_string(),
        upload_filename: "zelda.sav".to_string(),
        runtime_target: RuntimeTarget {
            runtime_profile: None,
            emulator_profile: None,
            system_profile_key: None,
            system_profile_value: None,
        },
        force_upload: force,
        dry_run: dry,
        local_sha256: "aaa".to_string(),
    }
}

fn latest(exists: bool, sha: Option<&str>, id: Option<&str>) -> LatestSaveResponse {
    LatestSaveResponse {
        exists,
        sha256: sha.map(|s| s.to_string()),
        version: Some(3),
        id: id.map(|s| s.to_string()),
    }
}

#[test]
fn equal_hash_is_in_sync() {
    let (next, act) =
        next_save_sync_step(&ctx(false, false), &SaveSyncPhase::AwaitingLatest, &SaveSyncEvent::Latest(latest(true, Some("aaa"), Some("1"))));
    assert!(matches!(next, SaveSyncPhase::Finished));
    assert!(matches!(act, SaveSyncAction::Finish(SaveSyncOutcome::InSync { version: Some(3) })));
}

#[test]
fn missing_cloud_save_is_uploaded_or_counted_in_dry_run() {
    let (next, act) =
        next_save_sync_step(&ctx(false, false), &SaveSyncPhase::AwaitingLatest, &SaveSyncEvent::Latest(latest(false, None, None)));
    assert!(matches!(next, SaveSyncPhase::AwaitingUpload { fallback: true, .. }));
    match act {
        SaveSyncAction::Upload { filename } => assert_eq!(filename, "zelda.sav"),
        _ => panic!("expected upload"),
    }
    let (_, act) =
        next_save_sync_step(&ctx(false, true), &SaveSyncPhase::AwaitingLatest, &SaveSyncEvent::Latest(latest(false, None, None)));
    assert!(matches!(act, SaveSyncAction::Finish(SaveSyncOutcome::Uploaded { version: None })));
}

#[test]
fn differing_hash_checks_for_conflict_then_downloads() {
    let c = ctx(false, false);
    let (next, act) = next_save_sync_step(&c, &SaveSyncPhase::AwaitingLatest, &SaveSyncEvent::Latest(latest(true, Some("bbb"), Some("42"))));
    assert!(matches!(act, SaveSyncAction::RequestConflictCheck));
    let (next, act) = next_save_sync_step(&c, &next, &SaveSyncEvent::ConflictCheck { exists: false });
    match act {
        SaveSyncAction::Download { save_id } => assert_eq!(save_id, "42"),
        _ => panic!("expected download"),
    }
    let (_, act) = next_save_sync_step(&c, &next, &SaveSyncEvent::DownloadDone { sha256: "ccc".to_string() });
    match act {
        SaveSyncAction::Finish(SaveSyncOutcome::Downloaded { version, sha256 }) => {
            assert_eq!(version, Some(3));
            assert_eq!(sha256.as_deref(), Some("ccc"));
        }
        _ => panic!("expected download outcome"),
    }
}

#[test]
fn conflict_is_reported() {
    let c = ctx(false, false);
    let phase = SaveSyncPhase::AwaitingConflictCheck { version: Some(3), id: Some("1".to_string()) };
    let (next, act) = next_save_sync_step(&c, &phase, &SaveSyncEvent::ConflictCheck { exists: true });
    assert!(matches!(act, SaveSyncAction::ReportConflict));
    let (_, act) = next_save_sync_step(&c, &next, &SaveSyncEvent::ConflictReportDone);
    assert!(matches!(act, SaveSyncAction::Finish(SaveSyncOutcome::Conflict { version: Some(3) })));
    let (_, act) = next_save_sync_step(&ctx(false, true), &phase, &SaveSyncEvent::ConflictCheck { exists: true });
    assert!(matches!(act, SaveSyncAction::Finish(SaveSyncOutcome::Conflict { .. })));
}

#[test]
fn missing_playstation_projection_is_repaired_by_upload() {
    let mut c = ctx(false, false);
    c.system_slug = "psx".to_string();
    let phase = SaveSyncPhase::AwaitingDownload { version: Some(3) };
    let msg = "status=404 Not Found: PlayStation projection not found".to_string();
    let (next, act) = next_save_sync_step(&c, &phase, &SaveSyncEvent::DownloadFailed(msg));
    assert!(matches!(next, SaveSyncPhase::AwaitingUpload { fallback: false, .. }));
    assert!(matches!(act, SaveSyncAction::Upload { .. }));
    let (_, act) = next_save_sync_step(&c, &phase, &SaveSyncEvent::DownloadFailed("status=500 boom".to_string()));
    assert!(matches!(act, SaveSyncAction::Fail(_)));
}

#[test]
fn mister_cpk_upload_is_retried_as_mpk() {
    let mut c = ctx(false, false);
    c.system_slug = "n64".to_string();
    c.upload_filename = "Mario Kart 64 (USA)_1.cpk".to_string();
    c.runtime_target.system_profile_value = Some("n64/mister".to_string());
    let phase = SaveSyncPhase::AwaitingUpload { version: None, fallback: true };
    let msg = "status=422 Unprocessable Entity: unsupported N64 upload form for n64/mister (.cpk)".to_string();
    let (next, act) = next_save_sync_step(&c, &phase, &SaveSyncEvent::UploadFailed(msg));
    assert!(matches!(next, SaveSyncPhase::AwaitingRetryUpload { .. }));
    match act {
        SaveSyncAction::Upload { filename } => assert_eq!(filename, "Mario Kart 64 (USA)_1.mpk"),
        _ => panic!("expected retry"),
    }
}

fn gate(systems: &[&str], slug: &str, create_missing: bool, parent_exists: bool, roots: Vec<RootFacts>) -> RestoreGate {
    RestoreGate {
        systems: systems.iter().map(|s| s.to_string()).collect(),
        system_slug: slug.to_string(),
        create_missing,
        parent_exists,
        roots,
    }
}

#[test]
fn restore_downloads_missing_save() {
    let g = gate(&["snes"], "snes", false, true, vec![]);
    let (next, act) = next_restore_step(false, &g, &SaveSyncPhase::Start, &SaveSyncEvent::Begin);
    assert!(matches!(act, SaveSyncAction::RequestLatest));
    let (next2, act) = next_restore_step(false, &g, &next, &SaveSyncEvent::Latest(latest(true, None, Some("7"))));
    assert!(matches!(act, SaveSyncAction::Download { .. }));
    let (_, act) = next_restore_step(false, &g, &next2, &SaveSyncEvent::DownloadDone { sha256: "d".to_string() });
    assert!(matches!(act, SaveSyncAction::Finish(SaveSyncOutcome::Downloaded { .. })));
    let (_, act) = next_restore_step(false, &g, &next, &SaveSyncEvent::Latest(latest(false, None, None)));
    assert!(matches!(act, SaveSyncAction::Finish(SaveSyncOutcome::Skipped)));
}

#[test]
fn restore_skips_disabled_systems_and_missing_folders() {
    let begin = |g: &RestoreGate| next_restore_step(false, g, &SaveSyncPhase::Start, &SaveSyncEvent::Begin);
    let disabled = gate(&["gba"], "snes", true, true, vec![]);
    let (next, act) = begin(&disabled);
    assert!(matches!(next, SaveSyncPhase::Finished));
    assert!(matches!(act, SaveSyncAction::Finish(SaveSyncOutcome::Skipped)));
    let no_folder = gate(&["*"], "snes", false, false, vec![RootFacts {
        exists: true,
        under: Some(Some("/saves/SNES".to_string())),
        folder_is_dir: false,
    }]);
    assert!(matches!(begin(&no_folder).1, SaveSyncAction::Finish(SaveSyncOutcome::Skipped)));
    let may_create = gate(&["*"], "snes", true, false, vec![]);
    assert!(matches!(begin(&may_create).1, SaveSyncAction::RequestLatest));
    let folder_there = gate(&["SNES"], "snes", false, false, vec![RootFacts {
        exists: true,
        under: Some(Some("/saves/SNES".to_string())),
        folder_is_dir: true,
    }]);
    assert!(matches!(begin(&folder_there).1, SaveSyncAction::RequestLatest));
    assert!(!restore_gate_open(&disabled));
    assert!(restore_gate_open(&may_create));
}

#[test]
fn outcomes_are_counted_and_recorded() {
    let mut report = SyncReport { scanned: 0, uploaded: 0, downloaded: 0, in_sync: 0, conflicts: 0, skipped: 0, errors: 0 };
    count_outcome(&mut report, &SaveSyncOutcome::InSync { version: None });
    count_outcome(&mut report, &SaveSyncOutcome::Skipped);
    assert_eq!(report.in_sync, 1);
    assert_eq!(report.skipped, 1);
    let entry = entry_for_outcome(
        &SaveSyncOutcome::Downloaded { version: Some(9), sha256: Some("new".to_string()) },
        &"old".to_string(),
        &"line".to_string(),
        "snes",
        SaveContainerFormat::Native,
        SaveAdapterProfile::Identity,
        &SourceKind::MisterFpga,
        "MiSTer",
        "default",
    )
    .unwrap();
    assert_eq!(entry.sha256, "new");
    assert_eq!(entry.version, Some(9));
    assert_eq!(entry.source_kind.as_deref(), Some("mister-fpga"));
    assert!(entry_for_outcome(
        &SaveSyncOutcome::Skipped,
        &"old".to_string(),
        &"line".to_string(),
        "snes",
        SaveContainerFormat::Native,
        SaveAdapterProfile::Identity,
        &SourceKind::MisterFpga,
        "MiSTer",
        "default",
    )
    .is_none());
    assert_eq!(
        state_key_for_outcome(&SaveSyncOutcome::Downloaded { version: None, sha256: None }, "/a.srm", "/a.sav"),
        "/a.sav"
    );
    assert_eq!(state_key_for_outcome(&SaveSyncOutcome::InSync { version: None }, "/a.srm", "/a.sav"), "/a.srm");
}

fn entry(sha: &str) -> SyncedEntry {
    SyncedEntry {
        sha256: sha.to_string(),
        rom_sha1: None,
        version: None,
        system_slug: None,
        local_container: None,
        adapter_profile: None,
        source_kind: None,
        source_name: None,
        slot_name: None,
        updated_at: "t".to_string(),
    }
}

#[test]
fn sync_state_reads_back_what_was_written() {
    let mut state = SyncState { entries: Vec::new() };
    state.insert("/a".to_string(), entry("1"));
    state.insert("/b".to_string(), entry("2"));
    state.insert("/a".to_string(), entry("3"));
    assert_eq!(state.entries.len(), 2);
    assert_eq!(state.get("/a").unwrap().sha256, "3");
    record_processed(&mut state, "/b", ProcessedEntry { state_key: "/c".to_string(), entry: entry("4") });
    assert!(state.get("/b").is_none());
    assert_eq!(state.get("/c").unwrap().sha256, "4");
    state.remove("/a");
    assert!(state.get("/a").is_none());
}

fn source() -> ResolvedSource {
    ResolvedSource {
        id: "mister_default".to_string(),
        name: "MiSTer Default".to_string(),
        kind: SourceKind::MisterFpga,
        profile: EmulatorProfile::Mister,
        save_roots: vec!["/media/fat/saves".to_string()],
        rom_roots: vec!["/media/fat/games".to_string()],
        recursive: true,
        systems: vec!["snes".to_string(), "n64".to_string()],
        create_missing_system_dirs: false,
        managed: false,
        origin: "manual".to_string(),
    }
}

fn source_policy() -> BackendSourcePolicy {
    BackendSourcePolicy {
        id: None,
        name: None,
        enabled: None,
        kind: None,
        profile: None,
        save_roots: Vec::new(),
        save_path: None,
        rom_roots: Vec::new(),
        rom_path: None,
        recursive: None,
        systems: None,
        managed: None,
        origin: None,
        create_missing_system_dirs: None,
    }
}

fn global_policy() -> BackendGlobalPolicy {
    BackendGlobalPolicy {
        url: None,
        port: None,
        email: None,
        root: None,
        state_dir: None,
        watch: None,
        watch_interval: None,
        force_upload: None,
        dry_run: None,
        route_prefix: None,
    }
}

fn empty_response() -> BackendConfigSyncResponse {
    BackendConfigSyncResponse {
        accepted: false,
        policy: None,
        desired_config: None,
        effective_config: None,
        sources: Vec::new(),
        global: None,
    }
}

fn manual_sources_response() -> BackendConfigSyncResponse {
    let mut policy = source_policy();
    policy.id = Some("mister_default".to_string());
    policy.systems = Some(vec!["snes".to_string()]);
    policy.create_missing_system_dirs = Some(true);
    let mut response = empty_response();
    response.policy = Some(BackendPolicy { sources: vec![policy], global: None });
    response
}

fn disable_response() -> BackendConfigSyncResponse {
    let mut global = global_policy();
    global.force_upload = Some(true);
    global.dry_run = Some(false);
    let mut policy = source_policy();
    policy.id = Some("mister_default".to_string());
    policy.enabled = Some(false);
    let mut response = empty_response();
    response.global = Some(global);
    response.sources = vec![policy];
    response
}

#[test]
fn backend_policy_applies_to_manual_sources() {
    let mut sources = vec![source()];
    let overrides = apply_backend_response(&mut sources, &manual_sources_response(), false);
    assert_eq!(overrides, RuntimeConfigOverrides::default());
    assert_eq!(sources[0].systems, vec!["snes"]);
    assert!(sources[0].create_missing_system_dirs);
    assert!(!sources[0].managed);
}

#[test]
fn backend_policy_applies_to_manual_sources_without_writeback() {
    let mut sources = vec![source()];
    let overrides = apply_backend_response(&mut sources, &manual_sources_response(), false);
    assert_eq!(overrides, RuntimeConfigOverrides::default());
    assert_eq!(sources[0].systems, vec!["snes"]);
    assert!(sources[0].create_missing_system_dirs);
    assert!(!sources[0].managed);
}

#[test]
fn backend_policy_can_disable_source_and_override_runtime_flags() {
    let mut sources = vec![source()];
    let overrides = apply_backend_response(&mut sources, &disable_response(), false);
    assert_eq!(overrides.force_upload, Some(true));
    assert_eq!(overrides.dry_run, Some(false));
    assert!(sources[0].systems.is_empty());
}

#[test]
fn backend_config_backend_policy_can_disable_source_and_override_runtime_flags() {
    let mut sources = vec![source()];
    let overrides = apply_backend_response(&mut sources, &disable_response(), false);
    assert_eq!(overrides.force_upload, Some(true));
    assert_eq!(overrides.dry_run, Some(false));
    assert!(sources[0].systems.is_empty());
}

#[test]
fn later_global_policy_wins() {
    let mut first = global_policy();
    first.force_upload = Some(true);
    first.dry_run = Some(true);
    let mut last = global_policy();
    last.dry_run = Some(false);
    let mut response = empty_response();
    response.global = Some(first);
    response.effective_config = Some(BackendPolicy { sources: Vec::new(), global: Some(last) });
    let o = runtime_overrides(&response);
    assert_eq!(o.force_upload, Some(true));
    assert_eq!(o.dry_run, Some(false));
}

#[test]
fn system_lists_are_normalized() {
    let v = vec![" Sega_CD ".to_string(), "snes".to_string(), "SNES".to_string(), "  ".to_string(), "game gear".to_string()];
    assert_eq!(normalize_systems(&v), vec!["game-gear".to_string(), "sega-cd".to_string(), "snes".to_string()]);
}

fn cloud_save(filename: &str) -> CloudSaveSummary {
    CloudSaveSummary {
        id: "1".to_string(),
        filename: filename.to_string(),
        display_title: "Zelda".to_string(),
        system_slug: "snes".to_string(),
        game: None,
        sha256: None,
        version: None,
        file_size: None,
        latest_size_bytes: None,
        media_type: None,
        runtime_profile: None,
        source_artifact_profile: None,
        logical_key: None,
        card_slot: None,
        download_profiles: Vec::new(),
        wii_title_fields: Vec::new(),
        inspection_evidence: Vec::new(),
        rom_sha1: None,
        rom_md5: None,
    }
}

#[test]
fn cloud_restore_names_and_extensions() {
    let mut c = cloud_save("zelda.srm");
    assert_eq!(cloud_target_extension(&c, None).as_deref(), Some("srm"));
    c.download_profiles = vec![
        DownloadProfile { id: "original".to_string(), label: "o".to_string(), target_extension: Some(".SRM".to_string()), note: None },
        DownloadProfile { id: "snes/mister".to_string(), label: "m".to_string(), target_extension: Some("sav".to_string()), note: None },
    ];
    assert_eq!(cloud_target_extension(&c, Some("SNES/MiSTer")).as_deref(), Some("sav"));
    assert_eq!(cloud_target_extension(&c, Some("other")).as_deref(), Some("srm"));
    assert_eq!(cloud_restore_filename(&c, Some("sav")), "zelda.sav");
    assert_eq!(cloud_restore_filename(&cloud_save("a:b"), None), "a_b.sav");
    assert_eq!(cloud_restore_filename(&cloud_save(" "), None), "Zelda.sav");
}

#[test]
fn cloud_restore_targets_wii_title_code_directory() {
    let mut c = cloud_save("data.bin");
    c.system_slug = "wii".to_string();
    c.wii_title_fields = vec!["  ".to_string(), "sb4p".to_string()];
    assert_eq!(cloud_wii_title_code(&c).as_deref(), Some("SB4P"));
    let target = cloud_target_path(&c, "/media/fat/saves", "Wii", None, &EmulatorProfile::Mister, "wii", None);
    assert_eq!(target, "/media/fat/saves/Wii/SB4P/data.bin");
    let mut e = cloud_save("data.bin");
    e.inspection_evidence = vec!["gameCode=xx".to_string(), " TitleCode =rmgp".to_string()];
    assert_eq!(cloud_wii_title_code(&e).as_deref(), Some("RMGP"));
}

#[test]
fn cloud_restore_folders() {
    assert_eq!(system_directory_aliases("snes"), vec!["snes", "sfc", "super nintendo", "supernintendo"]);
    assert_eq!(normalize_path_token("Super Nintendo!"), "supernintendo");
    assert!(root_is_system_specific("/roms/Super Nintendo", &EmulatorProfile::RetroArch, "snes"));
    assert!(!root_is_system_specific("/roms/all", &EmulatorProfile::RetroArch, "snes"));
    assert!(root_is_system_specific("/roms/all", &EmulatorProfile::Snes9x, "snes"));
    let c = cloud_save("zelda.srm");
    assert_eq!(
        cloud_target_path(&c, "/media/fat/saves", "SNES", None, &EmulatorProfile::Mister, "snes", Some("sav")),
        "/media/fat/saves/SNES/zelda.sav"
    );
    assert_eq!(
        cloud_target_path(&c, "/media/fat/saves", "SNES", Some("/media/fat/saves/snes/zelda.sav"), &EmulatorProfile::Mister, "snes", Some("sav")),
        "/media/fat/saves/snes/zelda.sav"
    );
    assert_eq!(local_container_for_cloud_download("snes", "/x.sav", &[1, 2]).unwrap(), SaveContainerFormat::Native);
    assert!(local_container_for_cloud_download("psx", "/x.mcr", &[1, 2]).is_err());
}

#[test]
fn cloud_listing_is_paged_to_its_end() {
    assert_eq!(next_page_offset(0, 100, 250, 100), Some(100));
    assert_eq!(next_page_offset(200, 50, 250, 100), None);
    assert_eq!(next_page_offset(0, 100, 0, 100), Some(100));
    assert_eq!(next_page_offset(100, 20, 0, 100), None);
    assert_eq!(next_page_offset(100, 0, 0, 100), None);
}

use sgm_helper::mister::config::AppConfig;
use sgm_helper::mister::flow::{SaveSyncAction, SaveSyncEvent, SaveSyncOutcome, SaveSyncPhase};
use sgm_helper::mister::sources::{EmulatorProfile, SourceKind as MisterKind};
use sgm_helper::steamdeck::api::LatestSaveResponse;
use sgm_helper::steamdeck::ports::{
    canonical_token, port_manifests, port_save_match, safe_relative_path, slot_id_from_relative_path,
    slot_label_from_relative_path, sort_port_matches, titleize_token, wildcard_match,
};
use sgm_helper::steamdeck::scanner::SaveContainerFormat;
use sgm_helper::steamdeck::scheduler::{
    build_sync_command, cron_marker, cron_schedule_status, crontab_missing, crontab_payload,
    plan_cron_install, plan_cron_uninstall, ScheduleError,
};
use sgm_helper::steamdeck::service::{
    build_service_run_command, combined_output, next_service_step, service_marker,
    service_signal_from_event, sse_read_line, systemd_unit_name, validate_service_intervals,
    DataField, ServiceCommand, ServiceEvent, ServiceRunOptions, ServiceRuntimeState, ServiceSignal,
    SignalData, SseFrame,
};
use sgm_helper::steamdeck::sources::{default_source, remove_source, upsert_source, Source, SourceKind, SourceStore};
use sgm_helper::steamdeck::syncer::{
    infer_playstation_slot_from_path, next_deck_sync_step, parse_playstation_slot,
    preferred_extension_for_system, preferred_save_path,
};

fn config(root: &str) -> AppConfig {
    AppConfig {
        url: "127.0.0.1".to_string(),
        port: 3001,
        email: String::new(),
        app_password: String::new(),
        root: root.to_string(),
        state_dir: "./state".to_string(),
        watch: false,
        watch_interval: 30,
        force_upload: false,
        dry_run: false,
        route_prefix: String::new(),
        binary_dir: "/tmp".to_string(),
        config_path: "/tmp/config.ini".to_string(),
    }
}

#[test]
fn builds_sync_command_with_config() {
    let cmd = build_sync_command("/opt/sgm/sgm-steamdeck-helper", "/opt/sgm/config.ini");
    assert!(cmd.contains("--config"));
    assert!(cmd.contains("sync --quiet"));
}

#[test]
fn cron_marker_is_stable() {
    assert_eq!(cron_marker("SGM SteamDeck Helper Sync"), "sgm-helper:SGM SteamDeck Helper Sync");
}

#[test]
fn cron_install_replaces_the_job_line() {
    let lines = vec![
        "0 * * * * backup".to_string(),
        "*/5 * * * * old # sgm-helper:Sync".to_string(),
    ];
    let (new_lines, message) = plan_cron_install(&lines, "Sync", "\"/bin/h\" sync", 10).unwrap();
    assert_eq!(
        new_lines,
        vec!["0 * * * * backup".to_string(), "*/10 * * * * \"/bin/h\" sync # sgm-helper:Sync".to_string()]
    );
    assert_eq!(message, "Cron job installed: */10 * * * * \"/bin/h\" sync # sgm-helper:Sync");
    assert_eq!(plan_cron_install(&lines, "Sync", "x", 0), Err(ScheduleError::ZeroInterval));
    assert_eq!(plan_cron_install(&lines, "Sync", "x", 60), Err(ScheduleError::CronIntervalTooLong));
}

#[test]
fn cron_status_and_uninstall() {
    let lines = vec!["*/5 * * * * x # sgm-helper:Sync".to_string()];
    let status = cron_schedule_status(&lines, "Sync", "nothing");
    assert!(status.installed);
    assert_eq!(status.details, lines[0]);
    let status = cron_schedule_status(&lines, "Other", "nothing");
    assert!(!status.installed);
    let (kept, message) = plan_cron_uninstall(&lines, "Sync");
    assert_eq!(kept, Some(Vec::new()));
    assert_eq!(message, "Cron job verwijderd");
    let (kept, message) = plan_cron_uninstall(&lines, "Other");
    assert!(kept.is_none());
    assert_eq!(message, "Geen cron job gevonden om te verwijderen");
    assert_eq!(crontab_payload(&lines), "*/5 * * * * x # sgm-helper:Sync\n");
    assert_eq!(crontab_payload(&Vec::new()), "");
    assert!(crontab_missing("no crontab for deck"));
    assert!(!crontab_missing("permission denied"));
}

#[test]
fn builds_service_run_command_with_config_and_intervals() {
    let command = build_service_run_command("/opt/sgm/sgm-helper", "/opt/sgm/config.ini", 15, 900);
    assert!(command.contains("--config \"/opt/sgm/config.ini\""));
    assert!(command.contains("service run --quiet"));
    assert!(command.contains("--heartbeat-interval 15"));
    assert!(command.contains("--reconcile-interval 900"));
}

#[test]
fn service_names_and_markers() {
    assert_eq!(systemd_unit_name("  SGM Helper_Service! "), "sgm-helper-service.service");
    assert_eq!(service_marker("SGM"), "sgm-helper-service:SGM");
    assert!(validate_service_intervals(0, 5).is_err());
    assert!(validate_service_intervals(5, 0).is_err());
    assert!(validate_service_intervals(5, 5).is_ok());
    assert_eq!(combined_output("out", " "), "out");
    assert_eq!(combined_output("", "err"), "err");
    assert_eq!(combined_output("out", "err"), "out\nerr");
}

#[test]
fn backend_events_become_signals() {
    assert_eq!(
        service_signal_from_event(" Sync.Requested ", &None),
        Some(ServiceSignal::SyncRequested(" Sync.Requested ".to_string()))
    );
    assert_eq!(
        service_signal_from_event("save_created", &None),
        Some(ServiceSignal::SaveChanged("save_created".to_string()))
    );
    let data = SignalData { action: DataField::Text(" Deep-Scan ".to_string()), command: DataField::Absent };
    assert_eq!(
        service_signal_from_event("message", &Some(data)),
        Some(ServiceSignal::DeepScanRequested("data.action:deep_scan".to_string()))
    );
    let data = SignalData { action: DataField::Other, command: DataField::Text("sync".to_string()) };
    assert_eq!(service_signal_from_event("message", &Some(data)), None);
    let data = SignalData { action: DataField::Absent, command: DataField::Text("reload_config".to_string()) };
    assert_eq!(
        service_signal_from_event("message", &Some(data)),
        Some(ServiceSignal::ConfigChanged("data.action:config".to_string()))
    );
}

#[test]
fn event_stream_lines_are_framed() {
    let mut frame = SseFrame { event: None, data: String::new() };
    assert_eq!(sse_read_line(&mut frame, "event: sync.requested"), None);
    assert_eq!(sse_read_line(&mut frame, "data: {\"a\":1}"), None);
    assert_eq!(sse_read_line(&mut frame, "data: more"), None);
    assert_eq!(
        sse_read_line(&mut frame, ""),
        Some(("sync.requested".to_string(), "{\"a\":1}\nmore".to_string()))
    );
    assert_eq!(sse_read_line(&mut frame, "data: x"), None);
    assert_eq!(sse_read_line(&mut frame, "  "), None);
    assert_eq!(frame.data, "");
}

fn service_options(max_cycles: Option<u32>) -> ServiceRunOptions {
    ServiceRunOptions {
        heartbeat_interval_secs: 30,
        reconcile_interval_secs: 1800,
        force_upload: false,
        dry_run: false,
        scan: true,
        deep_scan: false,
        apply_scan: true,
        slot_name: "default".to_string(),
        default_source_kind: MisterKind::SteamDeck,
        max_cycles,
    }
}

#[test]
fn service_loop_runs_syncs_and_stops_at_max_cycles() {
    let options = service_options(Some(2));
    let rt = ServiceRuntimeState::new("2026-04-25T00:00:00Z".to_string());
    let (rt, cmd) = next_service_step(&options, &rt, &ServiceEvent::Started);
    match cmd {
        ServiceCommand::RunSync(a) => {
            assert_eq!(a.reason, "startup");
            assert!(a.scan);
        }
        _ => panic!("expected a sync"),
    }
    let report = sgm_helper::mister::syncer::SyncReport {
        scanned: 3,
        uploaded: 1,
        downloaded: 0,
        in_sync: 2,
        conflicts: 0,
        skipped: 0,
        errors: 0,
    };
    let (rt, cmd) = next_service_step(
        &options,
        &rt,
        &ServiceEvent::SyncFinished { report, finished_at: "t1".to_string() },
    );
    assert_eq!(rt.cycles, 1);
    assert_eq!(rt.last_sync_ok, Some(true));
    assert!(matches!(cmd, ServiceCommand::AfterSync { status: "idle", stop: false }));
    let (rt, cmd) = next_service_step(
        &options,
        &rt,
        &ServiceEvent::SyncFailed { message: "boom".to_string(), finished_at: "t2".to_string() },
    );
    assert_eq!(rt.cycles, 2);
    assert_eq!(rt.last_error.as_deref(), Some("boom"));
    assert!(matches!(cmd, ServiceCommand::AfterSync { status: "backoff", stop: true }));
    let (_, cmd) = next_service_step(&options, &rt, &ServiceEvent::Tick { reconcile_due: false, heartbeat_due: true });
    assert!(matches!(cmd, ServiceCommand::Heartbeat("idle")));
    let (_, cmd) = next_service_step(
        &options,
        &rt,
        &ServiceEvent::Signal(ServiceSignal::DeepScanRequested("x".to_string())),
    );
    match cmd {
        ServiceCommand::RunSync(a) => {
            assert!(a.deep_scan);
            assert!(a.apply_scan);
        }
        _ => panic!("expected a sync"),
    }
}

#[test]
fn default_steamdeck_source_uses_compatdata_layout() {
    let cfg = config("/home/deck/.steam/steam/steamapps/compatdata");
    let source = default_source(&cfg, SourceKind::SteamDeck, None);
    assert_eq!(source.save_roots[0], "/home/deck/.steam/steam/steamapps/compatdata");
    assert_eq!(source.rom_roots[1], "/home/deck/Emulation/roms");
}

#[test]
fn emudeck_root_is_used_when_found() {
    let cfg = config("/root");
    let source = default_source(&cfg, SourceKind::SteamDeck, Some("/run/media/sd/Emulation"));
    assert_eq!(source.name, "auto-emudeck");
    assert_eq!(source.save_roots, vec!["/run/media/sd/Emulation/saves".to_string()]);
}

#[test]
fn sources_are_kept_by_name() {
    let mut store = SourceStore { sources: Vec::new() };
    upsert_source(&mut store, Source::new("a".to_string(), SourceKind::Custom, vec![], vec![], true));
    upsert_source(&mut store, Source::new("b".to_string(), SourceKind::Custom, vec![], vec![], true));
    upsert_source(&mut store, Source::new("a".to_string(), SourceKind::RetroArch, vec![], vec![], false));
    assert_eq!(store.sources.len(), 2);
    assert_eq!(store.sources[0].kind, SourceKind::RetroArch);
    assert!(remove_source(&mut store, "a"));
    assert!(!remove_source(&mut store, "a"));
    assert_eq!(store.sources.len(), 1);
    assert_eq!(store.sources[0].name, "b");
}

#[test]
fn prefers_sav_for_mister_snes() {
    let ext = preferred_extension_for_system(&MisterKind::MisterFpga, &EmulatorProfile::Mister, "snes", None);
    assert_eq!(ext, Some("sav"));
}

#[test]
fn prefers_srm_for_retroarch_snes() {
    let ext = preferred_extension_for_system(&MisterKind::RetroArch, &EmulatorProfile::RetroArch, "snes", None);
    assert_eq!(ext, Some("srm"));
}

#[test]
fn prefers_srm_for_zsnes_profile() {
    let ext = preferred_extension_for_system(&MisterKind::Custom, &EmulatorProfile::Zsnes, "snes", None);
    assert_eq!(ext, Some("srm"));
}

#[test]
fn rewrites_native_save_to_preferred_extension() {
    let target = preferred_save_path(
        "/userdata/saves/snes/zelda.srm",
        &MisterKind::MisterFpga,
        &EmulatorProfile::Mister,
        Some("snes"),
        SaveContainerFormat::Native,
        None,
    );
    assert_eq!(target, "/userdata/saves/snes/zelda.sav");
}

#[test]
fn does_not_rewrite_non_native_container() {
    let path = "/userdata/saves/psx/card.srm";
    let target = preferred_save_path(
        path,
        &MisterKind::MisterFpga,
        &EmulatorProfile::Mister,
        Some("psx"),
        SaveContainerFormat::Ps1Raw,
        None,
    );
    assert_eq!(target, path);
}

#[test]
fn prefers_n64_native_extension_on_mister_by_size() {
    assert_eq!(
        preferred_extension_for_system(&MisterKind::MisterFpga, &EmulatorProfile::Mister, "n64", Some(512)),
        Some("eep")
    );
    assert_eq!(
        preferred_extension_for_system(&MisterKind::MisterFpga, &EmulatorProfile::Mister, "n64", Some(32_768)),
        Some("sra")
    );
    assert_eq!(
        preferred_extension_for_system(&MisterKind::MisterFpga, &EmulatorProfile::Mister, "n64", Some(131_072)),
        Some("fla")
    );
}

#[test]
fn prefers_n64_sav_for_non_mister_sources() {
    assert_eq!(
        preferred_extension_for_system(&MisterKind::RetroArch, &EmulatorProfile::RetroArch, "n64", Some(32_768)),
        Some("sav")
    );
}

#[test]
fn prefers_n64_native_extension_for_everdrive_profile() {
    assert_eq!(
        preferred_extension_for_system(&MisterKind::Custom, &EmulatorProfile::EverDrive, "n64", Some(32_768)),
        Some("sra")
    );
}

#[test]
fn parses_playstation_slot_aliases() {
    assert_eq!(parse_playstation_slot("memory_card_1"), Some("Memory Card 1".to_string()));
    assert_eq!(parse_playstation_slot("memory card 2"), Some("Memory Card 2".to_string()));
    assert_eq!(parse_playstation_slot("Mcd001.ps2"), Some("Memory Card 1".to_string()));
    assert_eq!(parse_playstation_slot("Mcd002.ps2"), Some("Memory Card 2".to_string()));
}

#[test]
fn infers_playstation_slot_from_path_with_default() {
    assert_eq!(infer_playstation_slot_from_path("/games/psx/memory_card_2.mcd"), "Memory Card 2".to_string());
    assert_eq!(infer_playstation_slot_from_path("/games/ps2/custom.ps2"), "Memory Card 1".to_string());
}

#[test]
fn deck_sync_prefers_in_sync_over_forced_upload() {
    let sha = "abc".to_string();
    let name = "game.srm".to_string();
    let latest = LatestSaveResponse { exists: true, sha256: Some("abc".to_string()), version: Some(4), id: Some("9".to_string()) };
    let (next, act) = next_deck_sync_step(false, true, &sha, &name, &SaveSyncPhase::AwaitingLatest, &SaveSyncEvent::Latest(latest));
    assert!(matches!(next, SaveSyncPhase::Finished));
    assert!(matches!(act, SaveSyncAction::Finish(SaveSyncOutcome::InSync { version: Some(4) })));
    let latest = LatestSaveResponse { exists: false, sha256: None, version: None, id: None };
    let (_, act) = next_deck_sync_step(false, false, &sha, &name, &SaveSyncPhase::AwaitingLatest, &SaveSyncEvent::Latest(latest));
    match act {
        SaveSyncAction::Upload { filename } => assert_eq!(filename, "game.srm"),
        _ => panic!("expected an upload"),
    }
}

#[test]
fn port_patterns_match_file_names() {
    assert!(wildcard_match("file*.sav", "File1.SAV"));
    assert!(!wildcard_match("file*.sav", "global.sav"));
    assert!(wildcard_match("*.srm", "save.srm"));
    assert!(wildcard_match("default.sav", "DEFAULT.sav"));
    assert!(!wildcard_match("*.sav", "save.sav.bak"));
    assert!(wildcard_match("save*", "savegame"));
}

#[test]
fn port_slot_names() {
    assert_eq!(canonical_token("  Save Slot #2 "), "save-slot-2");
    assert_eq!(titleize_token("super_metroid-save"), "Super Metroid Save");
    assert_eq!(titleize_token(" - "), "Default");
    assert_eq!(slot_id_from_relative_path("Save/file1.sav"), "file1");
    assert_eq!(slot_label_from_relative_path("Save/file1.sav"), "File 1");
    assert_eq!(slot_label_from_relative_path("Save/global.sav"), "Global");
    assert_eq!(slot_label_from_relative_path("Scripts/Save/SaveSel.txt"), "Save Select");
    assert_eq!(slot_label_from_relative_path("saves/my_game.srm"), "My Game");
    assert!(safe_relative_path("Save/file1.sav"));
    assert!(!safe_relative_path("/abs/path"));
    assert!(!safe_relative_path("a/../b"));
    assert!(!safe_relative_path("  "));
}

/// Whether a rule names a file at `rest` under a port's folder: the exact
/// path, or a file in the pattern's folder whose name fits its wildcard.
fn rule_names(pattern: &str, rest: &str) -> bool {
    if !pattern.contains('*') {
        return pattern == rest;
    }
    let (dir, file_pattern) = pattern.rsplit_once('/').unwrap_or(("", pattern));
    let (rest_dir, name) = rest.rsplit_once('/').unwrap_or(("", rest));
    dir == rest_dir && !name.is_empty() && wildcard_match(file_pattern, name)
}

#[test]
fn discovers_known_progress_saves_and_excludes_assets() {
    // The files of a ports folder, by path under it, with their sizes.
    let files: [(&str, u64); 7] = [
        ("OcarinaOfTime/Save/file1.sav", 3),
        ("OcarinaOfTime/Save/global.sav", 1),
        ("MarioKart64/default.sav", 2),
        ("MarioKart64/controllerPak_header.sav", 0),
        ("Sonic1Forever/Scripts/Save/SaveSlot.txt", 6),
        ("Sonic1Forever/Data/SData.bin", 1),
        ("Sonic3AIR/saves/states/level_select.state", 1),
    ];
    let mut found = Vec::new();
    for manifest in &port_manifests() {
        for alias in &manifest.root_aliases {
            for rule in &manifest.rules {
                for (rel, size) in files {
                    let Some(rest) = rel.strip_prefix(&format!("{}/", alias)) else { continue };
                    if !rule_names(rule.pattern, rest) {
                        continue;
                    }
                    let path = format!("/ports/{}", rel);
                    if let Some(m) = port_save_match("/ports", &path, size, alias, manifest, rule).unwrap() {
                        found.push(m);
                    }
                }
            }
        }
    }
    let found = sort_port_matches(found);
    let rels: Vec<&str> = found.iter().map(|m| m.root_relative_path.as_str()).collect();
    assert!(rels.contains(&"OcarinaOfTime/Save/file1.sav"));
    assert!(rels.contains(&"OcarinaOfTime/Save/global.sav"));
    assert!(rels.contains(&"MarioKart64/default.sav"));
    assert!(rels.contains(&"Sonic1Forever/Scripts/Save/SaveSlot.txt"));
    let oot_file1 = found.iter().find(|m| m.root_relative_path == "OcarinaOfTime/Save/file1.sav").unwrap();
    let sonic_slot = found.iter().find(|m| m.root_relative_path == "Sonic1Forever/Scripts/Save/SaveSlot.txt").unwrap();
    assert_eq!(oot_file1.slot_id, "file1");
    assert_eq!(sonic_slot.slot_id, "saveslot");
    assert!(!rels.contains(&"MarioKart64/controllerPak_header.sav"));
    assert!(!rels.contains(&"Sonic1Forever/Data/SData.bin"));
    assert!(!rels.contains(&"Sonic3AIR/saves/states/level_select.state"));
    assert_eq!(rels.len(), 4);
}

#[test]
fn port_save_match_records_one_file() {
    let manifests = port_manifests();
    let soh = &manifests[0];
    let rule = soh.rules[1];
    let m = port_save_match("/home/deck/ports", "/home/deck/ports/ShipOfHarkinian/Save/file1.sav", 100, "ShipOfHarkinian", soh, &rule)
        .unwrap()
        .unwrap();
    assert_eq!(m.port_id, "ship-of-harkinian");
    assert_eq!(m.origin_system_slug, "n64");
    assert_eq!(m.root_relative_path, "ShipOfHarkinian/Save/file1.sav");
    assert_eq!(m.relative_path, "Save/file1.sav");
    assert_eq!(m.slot_id, "file1");
    assert_eq!(m.display_title, "The Legend of Zelda: Ocarina of Time (Ship of Harkinian) - File 1");
    let empty = port_save_match("/home/deck/ports", "/home/deck/ports/ShipOfHarkinian/Save/file2.sav", 0, "ShipOfHarkinian", soh, &rule)
        .unwrap();
    assert!(empty.is_none());
    assert!(port_save_match("/other", "/home/deck/ports/x.sav", 10, "x", soh, &rule).is_err());
}

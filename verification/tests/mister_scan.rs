use sgm_helper::mister::config::AppConfig;
use sgm_helper::mister::scan::{
    dedupe_id, deep_scan_candidates, evaluate_candidates, is_skipped_deep_scan_path, known_scan_candidates,
    migrate_legacy_sources, replace_managed_sources, tally_systems, CandidateFinding, DirFinding, LegacySource,
};
use sgm_helper::mister::scanner::{is_save_file, known_extensions};
use sgm_helper::mister::select::{
    deck_save_preference_score, save_preference_score, select_preferred_save_per_stem, SaveChoice,
};
use sgm_helper::mister::sources::{EmulatorProfile, Source, SourceKind};
use sgm_helper::mister::watcher::{
    is_sync_event, next_watch_step, read_event_line, WatchAction, WatchEvent, WatchOptions, WatchState,
};

fn config() -> AppConfig {
    AppConfig {
        url: "192.168.2.10".to_string(),
        port: 80,
        email: String::new(),
        app_password: String::new(),
        root: "/media/fat".to_string(),
        state_dir: "state".to_string(),
        watch: false,
        watch_interval: 30,
        force_upload: false,
        dry_run: false,
        route_prefix: String::new(),
        binary_dir: "/opt/helper".to_string(),
        config_path: "/opt/helper/config.ini".to_string(),
    }
}

fn source(id: &str, managed: bool) -> Source {
    let mut s = Source::new(id.to_string(), SourceKind::Custom, vec!["/s".to_string()], vec!["/r".to_string()], true);
    s.id = id.to_string();
    s.managed = managed;
    s
}

#[test]
fn deep_scan_skips_system_and_build_folders() {
    assert!(is_skipped_deep_scan_path("/proc/1"));
    assert!(is_skipped_deep_scan_path("/home/me/Project/TARGET/debug"));
    assert!(is_skipped_deep_scan_path("C:\\Windows\\WinSxS\\x"));
    assert!(!is_skipped_deep_scan_path("/home/deck/Emulation/saves"));
}

#[test]
fn ids_are_made_unique() {
    let taken = vec!["snes".to_string(), "snes_2".to_string()];
    assert_eq!(dedupe_id("gba", &taken), "gba");
    assert_eq!(dedupe_id("snes", &taken), "snes_3");
}

#[test]
fn scanned_sources_replace_managed_ones() {
    let existing = vec![source("manual", false), source("auto", true), source("other", false)];
    let replacements = vec![source("manual", true), source("fresh", true)];
    let out = replace_managed_sources(existing, replacements);
    let ids: Vec<&str> = out.iter().map(|s| s.id.as_str()).collect();
    assert_eq!(ids, vec!["manual", "other", "manual_2", "fresh"]);
}

#[test]
fn legacy_sources_are_migrated_with_unique_ids() {
    let item = |name: &str, saves: Vec<&str>| LegacySource {
        name: name.to_string(),
        kind: SourceKind::RetroArch,
        save_roots: saves.into_iter().map(|s| s.to_string()).collect(),
        rom_roots: Vec::new(),
        recursive: false,
        created_at: Some("2024-01-01T00:00:00Z".to_string()),
    };
    let out = migrate_legacy_sources(vec![item("Deck Saves", vec!["/a", "/b"]), item("deck saves", vec![]), item("!!", vec![])]);
    let ids: Vec<&str> = out.iter().map(|s| s.id.as_str()).collect();
    assert_eq!(ids, vec!["deck_saves", "deck_saves_2", "source"]);
    assert_eq!(out[0].save_roots, vec!["/a".to_string()]);
    assert_eq!(out[0].rom_roots, vec!["/a".to_string()]);
    assert_eq!(out[1].save_roots, vec![".".to_string()]);
    assert_eq!(out[0].profile, EmulatorProfile::RetroArch);
    assert_eq!(out[0].origin, "legacy-migrated");
    assert_eq!(out[0].created_at, "2024-01-01T00:00:00Z");
    assert!(!out[0].managed);
}

#[test]
fn known_candidates_are_sorted_by_id() {
    let c = known_scan_candidates(&config(), SourceKind::MisterFpga, None, Some("/home/me"));
    let ids: Vec<&str> = c.iter().map(|c| c.id.as_str()).collect();
    assert_eq!(ids, vec!["mister-fpga_default", "mister-fpga_root", "mister_sd", "retroarch_home", "retroarch_system", "snes9x_home"]);
    assert_eq!(c[0].save_path, "/media/fat/saves");
    assert_eq!(c[1].save_path, "/media/fat");
    assert_eq!(c[3].save_path, "/home/me/.config/retroarch/saves");
    assert!(c.iter().all(|c| c.recursive && c.origin == "autoscan-known"));
}

#[test]
fn known_candidates_drop_a_repeated_folder_pair() {
    let c = known_scan_candidates(&config(), SourceKind::Custom, Some("/home/deck/Emulation"), None);
    let ids: Vec<&str> = c.iter().map(|c| c.id.as_str()).collect();
    // custom_root has the folders of custom_default, which sorts just before it.
    assert_eq!(ids, vec!["custom_default", "mister_sd", "retroarch_system", "steamdeck_emudeck"]);
    assert_eq!(c[0].save_path, "/media/fat");
    assert_eq!(c[3].save_path, "/home/deck/Emulation/saves");
}

#[test]
fn candidates_with_saves_become_ranked_proposals() {
    let base = known_scan_candidates(&config(), SourceKind::MisterFpga, None, None);
    let sd = base.iter().find(|c| c.id == "mister_sd").unwrap().clone();
    let sys = base.iter().find(|c| c.id == "retroarch_system").unwrap().clone();
    let root = base.iter().find(|c| c.id == "mister-fpga_root").unwrap().clone();
    let (count, systems) = tally_systems(&vec![Some("snes".to_string()), None, Some("n64".to_string()), Some("snes".to_string())]);
    assert_eq!(count, 3);
    assert_eq!(systems, vec!["n64".to_string(), "snes".to_string()]);
    let out = evaluate_candidates(vec![
        CandidateFinding { candidate: sys, valid_saves: 2, systems: vec!["wii".to_string()] },
        CandidateFinding { candidate: root, valid_saves: 0, systems: vec!["snes".to_string()] },
        CandidateFinding { candidate: sd, valid_saves: count, systems },
    ]);
    assert_eq!(out.len(), 2);
    assert_eq!(out[0].source.id, "mister_sd");
    assert_eq!(out[0].detected_saves, 3);
    assert_eq!(out[0].evidence, "3 valid save(s) gevonden in /media/fat/saves");
    assert!(out[0].source.managed);
    assert_eq!(out[1].source.id, "retroarch_system");
    assert_eq!(out[1].source.systems, vec!["wii".to_string()]);
}

#[test]
fn deep_scan_proposes_folders_most_saves_first() {
    let d = |dir: &str, count: usize| DirFinding { dir: dir.to_string(), count, systems: vec!["gba".to_string()] };
    let out = deep_scan_candidates(vec![d("/data/gba saves", 2), d("/empty", 0), d("/x/SNES", 5)]);
    assert_eq!(out.len(), 2);
    assert_eq!(out[0].source.id, "deep_3_x_snes");
    assert_eq!(out[0].source.name, "SNES");
    assert_eq!(out[0].evidence, "5 valid save(s) in /x/SNES");
    assert_eq!(out[1].source.id, "deep_1_data_gba_saves");
    assert_eq!(out[1].source.kind, SourceKind::Custom);
    assert_eq!(out[1].source.origin, "deep-scan");
}

#[test]
fn mister_save_extensions() {
    assert_eq!(known_extensions(), vec!["dat", "eep", "fgp", "fla", "ram", "rtc", "sa1", "sav", "srm", "ss", "state"]);
    assert!(is_save_file("/games/test.sav"));
    assert!(is_save_file("/games/TEST.SRM"));
    assert!(!is_save_file("/games/ignore.txt"));
    assert!(!is_save_file("/games/noext"));
}

#[test]
fn preferred_save_wins_per_game() {
    assert_eq!(save_preference_score(&SourceKind::MisterFpga, &EmulatorProfile::Mister, "snes", "/s/Zelda.sav", None), 2);
    assert_eq!(save_preference_score(&SourceKind::MisterFpga, &EmulatorProfile::Mister, "snes", "/s/Zelda.srm", None), 1);
    assert_eq!(save_preference_score(&SourceKind::MisterFpga, &EmulatorProfile::Mister, "n64", "/s/Mario.eep", Some(512)), 2);
    assert_eq!(deck_save_preference_score(&SourceKind::SteamDeck, &EmulatorProfile::RetroArch, "snes", "/s/Zelda.srm", None), 2);
    let c = |key: &str, path: &str, score: u8| SaveChoice { key: key.to_string(), path: path.to_string(), score };
    let picked = select_preferred_save_per_stem(vec![
        c("zelda", "/s/zelda.srm", 1),
        c("mario", "/s/mario.sav", 1),
        c("zelda", "/s/zelda.sav", 2),
        c("zelda", "/s/zelda.bak.sav", 2),
    ]);
    let paths: Vec<&str> = picked.iter().map(|c| c.path.as_str()).collect();
    assert_eq!(paths, vec!["/s/zelda.sav", "/s/mario.sav"]);
}

fn watch_options(max: Option<u32>) -> WatchOptions {
    WatchOptions {
        interval_secs: 0,
        force_upload: false,
        dry_run: true,
        scan: true,
        deep_scan: false,
        apply_scan: false,
        slot_name: "default".to_string(),
        default_source_kind: SourceKind::MisterFpga,
        max_cycles: max,
    }
}

#[test]
fn watch_scans_once_and_stops_at_its_limit() {
    let o = watch_options(Some(2));
    let (st, act) = next_watch_step(&o, WatchState { cycles: 0 }, WatchEvent::Begin);
    match act {
        WatchAction::Sync(s) => assert!(s.scan && s.dry_run),
        _ => panic!("expected a sync"),
    }
    let (st, act) = next_watch_step(&o, st, WatchEvent::SyncDone);
    assert_eq!(st.cycles, 1);
    assert!(matches!(act, WatchAction::Wait { secs: 1 }));
    let (st, act) = next_watch_step(&o, st, WatchEvent::WaitOver);
    match act {
        WatchAction::Sync(s) => assert!(!s.scan),
        _ => panic!("expected a sync"),
    }
    let (st, act) = next_watch_step(&o, st, WatchEvent::SyncDone);
    assert_eq!(st.cycles, 2);
    assert!(matches!(act, WatchAction::Stop));
    let (_, act) = next_watch_step(&watch_options(None), WatchState { cycles: 3 }, WatchEvent::StopRequested);
    assert!(matches!(act, WatchAction::Stop));
}

#[test]
fn watch_event_stream_announces_sync_events() {
    assert!(is_sync_event("save_created"));
    assert!(!is_sync_event("config.changed"));
    let mut current = None;
    assert_eq!(read_event_line(&mut current, "event: save_parsed"), None);
    assert_eq!(read_event_line(&mut current, "data: {}"), None);
    assert_eq!(read_event_line(&mut current, "  "), Some("save_parsed".to_string()));
    assert_eq!(current, None);
    assert_eq!(read_event_line(&mut current, "event:event: ping"), None);
    assert_eq!(current, Some("ping".to_string()));
    assert_eq!(read_event_line(&mut current, ""), None);
    assert_eq!(current, None);
}

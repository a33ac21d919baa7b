use sgm_helper::ini::IniValues;
use sgm_helper::mister::config::{AppConfig, ConfigError, ConfigOverrides};
use sgm_helper::mister::flow::is_missing_entry;
use sgm_helper::mister::scan::{check_scan_flags, found_or_fallback, plan_source_scans, replace_managed_sources, ScanStep};
use sgm_helper::mister::scanner::is_save_extension;
use sgm_helper::windows::files::{is_platform_save_file, save_extension_found, save_stem, stem_or_unknown_text};
use sgm_helper::mister::sources::{
    remove_source, upsert_source, EmulatorProfile, ResolvedSource, Source, SourceKind, SourceStore,
};
use sgm_helper::mister::state::{now_rfc3339, SyncedEntry};
use sgm_helper::steamdeck::ports::{port_manifests, port_save_match, wildcard_match};
use sgm_helper::steamdeck::scanner::{is_rom_file, rom_index_entries};
use sgm_helper::steamdeck::scheduler::cron_schedule_status;

fn values(pairs: &[(&str, &str)]) -> IniValues {
    let mut v = IniValues::new();
    for (k, val) in pairs {
        v.insert((*k).to_string(), (*val).to_string());
    }
    v
}

fn settings(env: &[(&str, &str)]) -> Result<AppConfig, ConfigError> {
    AppConfig::from_sources(
        &ConfigOverrides::default(),
        &values(env),
        &values(&[]),
        "/tmp/bin".to_string(),
        "/tmp/bin/config.ini".to_string(),
    )
}

#[test]
fn refused_settings_name_their_key() {
    assert_eq!(settings(&[("PORT", "x")]).unwrap_err(), ConfigError::InvalidU16 { key: "PORT".to_string() });
    assert_eq!(settings(&[("PORT", "70000")]).unwrap_err(), ConfigError::InvalidU16 { key: "PORT".to_string() });
    assert_eq!(settings(&[("WATCH", "maybe")]).unwrap_err(), ConfigError::InvalidBool { key: "WATCH".to_string() });
    assert_eq!(
        settings(&[("WATCH_INTERVAL", "-1")]).unwrap_err(),
        ConfigError::InvalidU64 { key: "WATCH_INTERVAL".to_string() }
    );
    assert_eq!(
        settings(&[("FORCE_UPLOAD", "2")]).unwrap_err(),
        ConfigError::InvalidBool { key: "FORCE_UPLOAD".to_string() }
    );
    assert_eq!(settings(&[("DRY_RUN", "nee")]).unwrap_err(), ConfigError::InvalidBool { key: "DRY_RUN".to_string() });
    assert_eq!(settings(&[("WATCH_INTERVAL", "0")]).unwrap_err(), ConfigError::ZeroWatchInterval);
    assert_eq!(settings(&[("URL", "http://x")]).unwrap_err(), ConfigError::UrlHasScheme);
    let cfg = settings(&[("URL", "10.0.0.2"), ("WATCH_INTERVAL", "45")]).unwrap();
    assert_eq!(cfg.url, "10.0.0.2");
    assert_eq!(cfg.watch_interval, 45);
}

#[test]
fn rom_index_keeps_the_first_rom_per_lowercased_stem() {
    let paths: Vec<String> = vec![
        "/roms/snes/Zelda.sfc".to_string(),
        "".to_string(),
        "/roms/snes/Mario.sfc".to_string(),
        "/roms/snes/sub/zelda.smc".to_string(),
    ];
    let index = rom_index_entries(&paths);
    assert_eq!(index.len(), 2);
    assert_eq!(index[0].0, "zelda");
    assert_eq!(index[0].1.stem, "Zelda");
    assert_eq!(index[0].1.path, "/roms/snes/Zelda.sfc");
    assert_eq!(index[1].0, "mario");
    assert_eq!(index[1].1.path, "/roms/snes/Mario.sfc");
    assert!(rom_index_entries(&Vec::new()).is_empty());
}

fn entry(kind: Option<&str>, name: Option<&str>) -> SyncedEntry {
    SyncedEntry {
        sha256: "abc".to_string(),
        rom_sha1: None,
        version: Some(1),
        system_slug: Some("snes".to_string()),
        local_container: None,
        adapter_profile: None,
        source_kind: kind.map(str::to_string),
        source_name: name.map(str::to_string),
        slot_name: None,
        updated_at: "2024-01-01T00:00:00Z".to_string(),
    }
}

fn retroarch_source() -> ResolvedSource {
    ResolvedSource {
        id: "retroarch".to_string(),
        name: "RetroArch".to_string(),
        kind: SourceKind::RetroArch,
        profile: EmulatorProfile::RetroArch,
        save_roots: vec!["/saves".to_string(), "/more/saves".to_string()],
        rom_roots: vec!["/roms".to_string()],
        recursive: true,
        systems: vec!["snes".to_string()],
        create_missing_system_dirs: false,
        managed: false,
        origin: "manual".to_string(),
    }
}

#[test]
fn missing_entries_are_gone_files_of_the_source() {
    let source = retroarch_source();
    let unlinked = entry(None, None);
    let linked = entry(Some("retroarch"), Some("RetroArch"));
    assert!(is_missing_entry("/saves/snes/a.srm", false, &unlinked, &source));
    assert!(is_missing_entry("/more/saves/a.srm", false, &unlinked, &source));
    assert!(!is_missing_entry("/saves/snes/a.srm", true, &unlinked, &source));
    assert!(!is_missing_entry("/other/a.srm", false, &unlinked, &source));
    assert!(!is_missing_entry("/savesx/a.srm", false, &unlinked, &source));
    assert!(is_missing_entry("/other/a.srm", false, &linked, &source));
    assert!(!is_missing_entry("/other/a.srm", false, &entry(Some("retroarch"), Some("Other")), &source));
    assert!(!is_missing_entry("/other/a.srm", true, &linked, &source));
}

#[test]
fn port_rules_leave_out_headers_assets_and_states() {
    let manifests = port_manifests();
    let kart = manifests.iter().find(|m| m.id == "spaghettikart").unwrap();
    for rule in &kart.rules {
        assert!(!wildcard_match(rule.pattern, "controllerPak_header.sav"));
        let r = port_save_match(
            "/ports",
            "/ports/MarioKart64/controllerPak_header.sav",
            0,
            "MarioKart64",
            kart,
            rule,
        );
        assert!(r.unwrap().is_none());
    }
    let sonic1 = manifests.iter().find(|m| m.id == "sonic1-forever").unwrap();
    for rule in &sonic1.rules {
        assert!(!wildcard_match(rule.pattern, "Data/SData.bin"));
        assert!(!wildcard_match(rule.pattern, "SData.bin"));
    }
    let air = manifests.iter().find(|m| m.id == "sonic3-air").unwrap();
    for rule in &air.rules {
        let file_pattern = rule.pattern.rsplit('/').next().unwrap();
        assert!(!wildcard_match(file_pattern, "level_select.state"));
    }
    let sav = air.rules.iter().find(|r| r.pattern == "saves/*.sav").unwrap();
    assert!(wildcard_match(sav.pattern.rsplit('/').next().unwrap(), "slot1.sav"));
}

#[test]
fn cron_status_names_the_first_job_line() {
    let lines = vec![
        "0 * * * * other".to_string(),
        "*/15 * * * * /bin/helper sync # sgm-helper:Sync".to_string(),
        "*/5 * * * * /bin/helper sync".to_string(),
    ];
    let status = cron_schedule_status(&lines, "Sync", "/bin/helper sync");
    assert!(status.installed);
    assert_eq!(status.details, "*/15 * * * * /bin/helper sync # sgm-helper:Sync");
    let status = cron_schedule_status(&lines[..1].to_vec(), "Sync", "/bin/helper sync");
    assert!(!status.installed);
    assert_eq!(status.details, "Cron job niet gevonden");
}

fn stored(id: &str, name: &str, managed: bool) -> Source {
    let mut s = Source::new(name.to_string(), SourceKind::RetroArch, vec!["/s".to_string()], vec!["/r".to_string()], true);
    s.id = id.to_string();
    s.managed = managed;
    s
}

#[test]
fn upsert_replaces_the_first_source_with_its_id_or_name() {
    let mut store = SourceStore { sources: vec![stored("a", "A", false), stored("b", "B", false), stored("c", "B", false)] };
    upsert_source(&mut store, stored("z", "B", false));
    let ids: Vec<&str> = store.sources.iter().map(|s| s.id.as_str()).collect();
    assert_eq!(ids, vec!["a", "z", "c"]);
    upsert_source(&mut store, stored("n", "New", false));
    let ids: Vec<&str> = store.sources.iter().map(|s| s.id.as_str()).collect();
    assert_eq!(ids, vec!["a", "z", "c", "n"]);
}

#[test]
fn remove_keeps_the_other_sources_in_order() {
    let mut store = SourceStore {
        sources: vec![stored("snes", "Other", false), stored("x", "Keep", false), stored("y", "SNES", false)],
    };
    assert!(remove_source(&mut store, "snes"));
    let ids: Vec<&str> = store.sources.iter().map(|s| s.id.as_str()).collect();
    assert_eq!(ids, vec!["x"]);
    assert!(!remove_source(&mut store, "absent"));
    assert_eq!(store.sources.len(), 1);
}

#[test]
fn scan_keeps_unmanaged_and_renames_taken_ids() {
    let existing = vec![stored("snes", "SNES", false), stored("old", "Old", true), stored("snes_2", "SNES 2", false)];
    let found = vec![stored("snes", "Found", true), stored("gba", "GBA", true)];
    let out = replace_managed_sources(existing, found);
    let ids: Vec<&str> = out.iter().map(|s| s.id.as_str()).collect();
    assert_eq!(ids, vec!["snes", "snes_2", "snes_3", "gba"]);
    assert!(!out[0].managed && !out[1].managed);
    assert_eq!(out[2].name, "Found");
}

#[test]
fn the_clock_text_is_never_empty() {
    assert!(!now_rfc3339().is_empty());
}

#[test]
fn lower_case_keys_are_read_upper_cased() {
    let parsed = sgm_helper::ini::parse_ini_content("url = \"10.0.0.7\"\nwatch_interval=5\n").unwrap();
    assert_eq!(parsed.get("URL").unwrap(), "10.0.0.7");
    assert_eq!(parsed.get("WATCH_INTERVAL").unwrap(), "5");
}

#[test]
fn a_store_without_sources_reads_back_empty() {
    let text = sgm_helper::mister::sources::render_config_with_sources("URL=\"x\"", &[]);
    let store = sgm_helper::mister::sources::load_source_store(&text).unwrap();
    assert!(store.sources.is_empty());
    let text = sgm_helper::mister::sources::render_config_with_sources("", &[]);
    assert_eq!(text, "\n");
    assert!(sgm_helper::mister::sources::load_source_store(&text).unwrap().sources.is_empty());
}

#[test]
fn roms_are_found_by_the_rom_extensions() {
    for p in ["/r/a.nes", "/r/a.SFC", "/r/a.cue", "/r/a.iso", "/r/a.chd", "/r/a.bin", "/r/a.zip", "/r/a.7z", "/r/a.pce", "/r/a.a26", "/r/a.a78", "/r/a.col", "/r/a.vpk"] {
        assert!(is_rom_file(p), "{}", p);
    }
    for p in ["/r/a.srm", "/r/a.txt", "/r/readme", "/r/a.state"] {
        assert!(!is_rom_file(p), "{}", p);
    }
}

#[test]
fn scans_run_first_run_then_known_then_deep() {
    let err = check_scan_flags(false, true).unwrap_err();
    assert_eq!(err.message(), "--apply-scan werkt alleen samen met --deep-scan");
    assert!(check_scan_flags(true, true).is_ok());
    assert!(check_scan_flags(false, false).is_ok());
    assert_eq!(
        plan_source_scans(true, true, true, true),
        vec![ScanStep::FirstRun, ScanStep::KnownScan, ScanStep::DeepScan { apply: true }]
    );
    assert_eq!(plan_source_scans(false, false, true, false), vec![ScanStep::DeepScan { apply: false }]);
    assert!(plan_source_scans(false, false, false, false).is_empty());
    let fallback = stored("default", "Default", true);
    let out = found_or_fallback(Vec::new(), fallback);
    assert_eq!(out.len(), 1);
    assert_eq!(out[0].id, "default");
    let out = found_or_fallback(vec![stored("a", "A", true), stored("b", "B", true)], stored("d", "D", true));
    assert_eq!(out.iter().map(|s| s.id.as_str()).collect::<Vec<_>>(), vec!["a", "b"]);
}

#[test]
fn windows_saves_are_read_by_the_platform_path_rules() {
    assert!(is_save_extension("SRM"));
    assert!(is_save_extension("state"));
    assert!(!is_save_extension("txt"));
    assert!(save_extension_found(Some("Sav".to_string())));
    assert!(!save_extension_found(None));
    assert_eq!(stem_or_unknown_text(None), "Unknown");
    assert_eq!(stem_or_unknown_text(Some("Zelda".to_string())), "Zelda");
    assert_eq!(save_stem("/saves/snes/Zelda.srm"), "Zelda");
    assert_eq!(save_stem(""), "Unknown");
    assert!(is_platform_save_file("/saves/snes/Zelda.SRM"));
    assert!(!is_platform_save_file("/saves/snes/Zelda.txt"));
}

#[test]
fn saving_replaces_old_source_sections() {
    let existing = "URL=\"x\"\n[source.old]\nSAVE_PATH=\"/old\"\n[other]\nA=1\n";
    let mut a = Source::new("Snes".to_string(), SourceKind::RetroArch, vec!["/s".to_string()], vec!["/r".to_string()], true);
    a.systems = vec!["snes".to_string()];
    let text = sgm_helper::mister::sources::saved_config_text(existing, &[a.clone()]);
    assert!(!text.contains("[source.old]"));
    assert!(text.starts_with("URL=\"x\"\n[other]\nA=1"));
    let store = sgm_helper::mister::sources::load_source_store(&text).unwrap();
    assert_eq!(store.sources.len(), 1);
    assert_eq!(store.sources[0].id, a.id);
    assert_eq!(store.sources[0].save_roots, a.save_roots);
    assert_eq!(store.sources[0].systems, a.systems);
}

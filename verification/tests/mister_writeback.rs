use sgm_helper::mister::backend_config::{
    BackendConfigSyncResponse, BackendGlobalPolicy, BackendPolicy, BackendSourcePolicy,
};
use sgm_helper::mister::sources::{
    load_source_store, render_config_with_sources, strip_source_sections, EmulatorProfile, SourceKind,
};
use sgm_helper::mister::writeback::{
    apply_global_writeback_to_ini, apply_source_writeback, collect_global_writeback, response_has_writeback,
    source_from_policy, source_policy_rom_roots, source_policy_save_roots,
};

fn no_global() -> BackendGlobalPolicy {
    BackendGlobalPolicy {
        url: None,
        port: None,
        email: None,
        root: None,
        state_dir: None,
        watch: None,
        watch_interval: None,
        force_upload: None,
        dry_run: None,
        route_prefix: None,
    }
}

fn empty_policy() -> BackendSourcePolicy {
    BackendSourcePolicy {
        id: None,
        name: None,
        enabled: None,
        kind: None,
        profile: None,
        save_roots: Vec::new(),
        save_path: None,
        rom_roots: Vec::new(),
        rom_path: None,
        recursive: None,
        systems: None,
        managed: None,
        origin: None,
        create_missing_system_dirs: None,
    }
}

fn empty_response() -> BackendConfigSyncResponse {
    BackendConfigSyncResponse {
        accepted: true,
        policy: None,
        desired_config: None,
        effective_config: None,
        sources: Vec::new(),
        global: None,
    }
}

/// The configuration file after the writeback, as the helper writes it:
/// global settings first, then the source sections.
fn written_back(existing: &str, response: &BackendConfigSyncResponse) -> String {
    let with_globals = apply_global_writeback_to_ini(existing, &collect_global_writeback(response));
    let mut store = load_source_store(&with_globals).unwrap();
    apply_source_writeback(&mut store, response);
    render_config_with_sources(&strip_source_sections(&with_globals), &store.sources)
}

#[test]
fn backend_policy_writes_new_source_and_globals_to_config_ini() {
    let existing = "URL=\"192.168.2.10\"\nPORT=\"80\"\n\n[source.old]\nLABEL=\"Old\"\nKIND=\"custom\"\nSAVE_PATH=\"/old/saves\"\nROM_PATH=\"/old/roms\"\nRECURSIVE=\"true\"\nSYSTEMS=\"snes\"\nMANAGED=\"false\"\nORIGIN=\"manual\"\n";
    let mut global = no_global();
    global.force_upload = Some(true);
    global.dry_run = Some(false);
    global.watch_interval = Some(15);
    let mut source = empty_policy();
    source.id = Some("super_nintendo_snes9x".to_string());
    source.name = Some("Super Nintendo Snes9x".to_string());
    source.kind = Some("retroarch".to_string());
    source.profile = Some("snes9x".to_string());
    source.save_path = Some("/media/snes9x/saves".to_string());
    source.rom_path = Some("/media/snes9x/roms".to_string());
    source.recursive = Some(true);
    source.systems = Some(vec!["snes".to_string()]);
    source.create_missing_system_dirs = Some(false);
    source.origin = Some("backend-ui".to_string());
    let mut response = empty_response();
    response.policy = Some(BackendPolicy { sources: vec![source], global: Some(global) });
    assert!(response_has_writeback(&response));

    let body = written_back(existing, &response);
    assert!(body.contains("FORCE_UPLOAD=\"true\""));
    assert!(body.contains("DRY_RUN=\"false\""));
    assert!(body.contains("WATCH_INTERVAL=\"15\""));
    assert!(body.contains("[source.super_nintendo_snes9x]"));
    assert!(body.contains("PROFILE=\"snes9x\""));
    assert!(body.contains("SAVE_PATH=\"/media/snes9x/saves\""));

    let store = load_source_store(&body).unwrap();
    let added = store.sources.iter().find(|s| s.id == "super_nintendo_snes9x").unwrap();
    assert_eq!(added.systems, vec!["snes"]);
    assert_eq!(added.profile, EmulatorProfile::Snes9x);
    assert_eq!(added.origin, "backend-ui");
}

#[test]
fn backend_disabled_source_is_persisted_as_none_systems() {
    let existing = "URL=\"192.168.2.10\"\nPORT=\"80\"\n\n[source.snes]\nLABEL=\"SNES\"\nKIND=\"retroarch\"\nSAVE_PATH=\"/saves\"\nROM_PATH=\"/roms\"\nRECURSIVE=\"true\"\nSYSTEMS=\"snes\"\nMANAGED=\"false\"\nORIGIN=\"manual\"\n";
    let mut source = empty_policy();
    source.id = Some("snes".to_string());
    source.enabled = Some(false);
    let mut response = empty_response();
    response.sources = vec![source];
    let body = written_back(existing, &response);
    assert!(body.contains("SYSTEMS=\"none\""));
    let store = load_source_store(&body).unwrap();
    assert!(store.sources[0].systems.is_empty());
}

#[test]
fn global_settings_replace_lines_and_are_added_before_sections() {
    let mut g = no_global();
    g.url = Some("nas.local".to_string());
    g.port = Some(8080);
    g.watch = Some(true);
    let mut response = empty_response();
    response.global = Some(g);
    let updates = collect_global_writeback(&response);
    assert_eq!(
        updates,
        vec![
            ("PORT".to_string(), "8080".to_string()),
            ("URL".to_string(), "nas.local".to_string()),
            ("WATCH".to_string(), "true".to_string()),
        ]
    );
    let text = "url = old\n# keep\n\n[source.a]\nURL=\"inside\"\n\n";
    assert_eq!(
        apply_global_writeback_to_ini(text, &updates),
        "URL=\"nas.local\"\n# keep\n\nPORT=\"8080\"\nWATCH=\"true\"\n[source.a]\nURL=\"inside\"\n"
    );
    assert_eq!(
        apply_global_writeback_to_ini("EMAIL=\"a@b\"\n", &updates),
        "EMAIL=\"a@b\"\nPORT=\"8080\"\nURL=\"nas.local\"\nWATCH=\"true\"\n"
    );
    assert_eq!(apply_global_writeback_to_ini("as is", &Vec::new()), "as is");
}

#[test]
fn later_global_policy_wins_and_quotes_are_escaped() {
    let mut first = no_global();
    first.email = Some("a@b".to_string());
    first.dry_run = Some(true);
    let mut last = no_global();
    last.dry_run = Some(false);
    last.route_prefix = Some("/x\"y".to_string());
    let mut response = empty_response();
    response.global = Some(first);
    response.effective_config = Some(BackendPolicy { sources: Vec::new(), global: Some(last) });
    let updates = collect_global_writeback(&response);
    assert_eq!(
        updates,
        vec![
            ("DRY_RUN".to_string(), "false".to_string()),
            ("EMAIL".to_string(), "a@b".to_string()),
            ("ROUTE_PREFIX".to_string(), "/x\"y".to_string()),
        ]
    );
    assert_eq!(
        apply_global_writeback_to_ini("", &updates),
        "DRY_RUN=\"false\"\nEMAIL=\"a@b\"\nROUTE_PREFIX=\"/x\\\"y\"\n"
    );
    assert!(!response_has_writeback(&empty_response()));
}

#[test]
fn policy_roots_and_new_sources() {
    let mut p = empty_policy();
    assert!(source_policy_save_roots(&p).is_empty());
    assert!(source_from_policy(&p).is_none());
    p.save_roots = vec!["/a".to_string(), "/b".to_string()];
    p.save_path = Some("/ignored".to_string());
    assert_eq!(source_policy_save_roots(&p), vec!["/a".to_string(), "/b".to_string()]);
    assert_eq!(source_policy_rom_roots(&p, &vec!["/a".to_string()]), vec!["/a".to_string()]);
    p.rom_path = Some("/roms".to_string());
    assert_eq!(source_policy_rom_roots(&p, &vec!["/a".to_string()]), vec!["/roms".to_string()]);
    p.name = Some("My Deck".to_string());
    p.kind = Some("steamdeck".to_string());
    p.enabled = Some(false);
    p.systems = Some(vec!["snes".to_string()]);
    let s = source_from_policy(&p).unwrap();
    assert_eq!(s.id, "my_deck");
    assert_eq!(s.name, "My Deck");
    assert_eq!(s.kind, SourceKind::SteamDeck);
    assert!(s.systems.is_empty());
    assert!(s.recursive);
    assert!(!s.managed);
    assert_eq!(s.origin, "backend-policy");
}

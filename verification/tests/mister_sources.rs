use sgm_helper::mister::config::AppConfig;
use sgm_helper::mister::sources::{
    default_source, default_systems_for_kind, load_source_store, normalize_source_id, normalize_system_slug,
    parse_bool, parse_source_sections, parse_systems, remove_source, render_config_with_sources,
    source_from_section, strip_source_sections, upsert_source, EmulatorProfile, Source,
    SourceKind, SourceStore,
};

fn fat_config() -> AppConfig {
    AppConfig {
        url: "127.0.0.1".to_string(),
        port: 3001,
        email: String::new(),
        app_password: String::new(),
        root: "/media/fat".to_string(),
        state_dir: "./state".to_string(),
        watch: false,
        watch_interval: 30,
        force_upload: false,
        dry_run: false,
        route_prefix: String::new(),
        binary_dir: "/tmp".to_string(),
        config_path: "/tmp/config.ini".to_string(),
    }
}

#[test]
fn helper_device_type_matches_backend_identity_names() {
    assert_eq!(SourceKind::MisterFpga.helper_device_type(), "mister");
    assert_eq!(SourceKind::SteamDeck.helper_device_type(), "steamdeck");
    assert_eq!(SourceKind::Windows.helper_device_type(), "windows");
}

#[test]
fn default_mister_systems_exclude_non_mister_consoles() {
    let systems = default_systems_for_kind(&SourceKind::MisterFpga);
    assert!(systems.contains(&"snes".to_string()));
    assert!(systems.contains(&"saturn".to_string()));
    assert!(systems.contains(&"psx".to_string()));
    assert!(!systems.contains(&"wii".to_string()));
    assert!(!systems.contains(&"ps2".to_string()));

    let deck_systems = default_systems_for_kind(&SourceKind::SteamDeck);
    assert!(deck_systems.contains(&"wii".to_string()));
}

#[test]
fn default_mister_source_uses_media_fat_layout() {
    let cfg = fat_config();
    let source = default_source(&cfg, SourceKind::MisterFpga, None);
    assert_eq!(source.save_roots[0], "/media/fat/saves");
    assert_eq!(source.rom_roots[0], "/media/fat/games");
}

#[test]
fn parses_source_sections_from_config() {
    let content = r#"
URL="127.0.0.1"

[source.super_nintendo]
LABEL="Super Nintendo"
KIND="retroarch"
PROFILE="snes9x"
SAVE_PATH="/home/snes9x/save"
ROM_PATH="/home/roms/snes"
RECURSIVE="true"
SYSTEMS="Super Nintendo, n64, Wii"
CREATE_MISSING_SYSTEM_DIRS="true"
MANAGED="false"
ORIGIN="manual"
"#;

    let sections = parse_source_sections(content).unwrap();
    assert_eq!(sections.len(), 1);
    let source = source_from_section(&sections[0]).unwrap();
    assert_eq!(source.id, "super_nintendo");
    assert_eq!(source.name, "Super Nintendo");
    assert_eq!(source.kind, SourceKind::RetroArch);
    assert_eq!(source.profile, EmulatorProfile::Snes9x);
    assert_eq!(source.save_path(), "/home/snes9x/save");
    assert!(source.systems.contains(&"snes".to_string()));
    assert!(source.systems.contains(&"n64".to_string()));
    assert!(source.systems.contains(&"wii".to_string()));
    assert!(source.create_missing_system_dirs);
    assert!(!source.managed);
}

#[test]
fn profile_defaults_to_kind_mapping_when_omitted() {
    let content = r#"
[source.legacy]
LABEL="Legacy"
KIND="mister-fpga"
SAVE_PATH="/media/fat/saves"
"#;

    let sections = parse_source_sections(content).unwrap();
    let source = source_from_section(&sections[0]).unwrap();
    assert_eq!(source.profile, EmulatorProfile::Mister);
    assert!(source.systems.contains(&"psx".to_string()));
    assert!(!source.systems.contains(&"wii".to_string()));
    assert!(!source.create_missing_system_dirs);
}

#[test]
fn strip_and_render_replaces_source_sections_only() {
    let existing = r#"URL="127.0.0.1"
PORT="9096"

[source.old]
LABEL="Old"
SAVE_PATH="/tmp/old"

[other.section]
HELLO="world"
"#;

    let base = strip_source_sections(existing);
    assert!(base.contains("URL=\"127.0.0.1\""));
    assert!(base.contains("[other.section]"));
    assert!(!base.contains("[source.old]"));

    let rendered = render_config_with_sources(
        &base,
        &[Source::managed(
            "new_source".to_string(),
            "New Source".to_string(),
            SourceKind::Custom,
            EmulatorProfile::Generic,
            "/tmp/new".to_string(),
            "/tmp/new".to_string(),
            true,
            "autoscan-known".to_string(),
        )],
    );
    assert!(rendered.contains("[source.new_source]"));
    assert!(rendered.contains("SYSTEMS=\""));
    assert!(rendered.contains("CREATE_MISSING_SYSTEM_DIRS=\"false\""));
    assert!(rendered.contains("[other.section]"));
}

#[test]
fn system_slugs_accept_aliases_and_reject_unknown_names() {
    assert_eq!(normalize_system_slug("Super Nintendo").as_deref(), Some("snes"));
    assert_eq!(normalize_system_slug(" mega_drive ").as_deref(), Some("genesis"));
    assert_eq!(normalize_system_slug("Sega 32X").as_deref(), Some("sega-32x"));
    assert_eq!(normalize_system_slug("\"PS1\"").as_deref(), Some("psx"));
    assert_eq!(normalize_system_slug("amiga"), None);
    assert_eq!(normalize_system_slug(""), None);
}

#[test]
fn system_lists_are_sorted_deduplicated_and_keyword_aware() {
    let kind = SourceKind::RetroArch;
    assert_eq!(
        parse_systems(Some("wii; snes | SNES,gba\nfoo"), &kind),
        vec!["gba".to_string(), "snes".to_string(), "wii".to_string()]
    );
    assert!(parse_systems(Some(" Off "), &kind).is_empty());
    assert_eq!(parse_systems(Some("auto"), &kind).len(), 22);
    assert_eq!(parse_systems(Some("*"), &kind)[0], "nes");
    assert_eq!(parse_systems(None, &SourceKind::MisterFpga).len(), 13);
}

#[test]
fn source_ids_collapse_separators() {
    assert_eq!(normalize_source_id("  My Saves / SNES--Main_ "), "my_saves_snes_main");
    assert_eq!(normalize_source_id("__x__"), "x");
    assert_eq!(normalize_source_id("Ému"), "mu");
}

#[test]
fn bool_words_are_case_insensitive() {
    assert_eq!(parse_bool(" YES ").unwrap(), true);
    assert_eq!(parse_bool("off").unwrap(), false);
    let err = parse_bool("maybe").unwrap_err();
    assert_eq!(err.message(), "ongeldige bool 'maybe'");
}

#[test]
fn kind_and_profile_parsing_accepts_aliases() {
    assert_eq!(SourceKind::parse(" Steam-Deck "), Some(SourceKind::SteamDeck));
    assert_eq!(SourceKind::parse("mister"), Some(SourceKind::MisterFpga));
    assert_eq!(SourceKind::parse("amiga"), None);
    assert_eq!(EmulatorProfile::parse("PJ64"), Some(EmulatorProfile::Project64));
    assert_eq!(EmulatorProfile::parse("mupen64plus"), Some(EmulatorProfile::MupenFamily));
    assert_eq!(EmulatorProfile::MupenFamily.as_str(), "mupen-family");
}

#[test]
fn section_without_save_path_is_not_a_source() {
    let sections = parse_source_sections("[source.x]\nLABEL=\"X\"\n").unwrap();
    assert!(source_from_section(&sections[0]).is_none());
}

#[test]
fn line_without_equals_inside_source_section_is_an_error() {
    let err = parse_source_sections("[source.x]\nSAVE_PATH=/a\nbroken\n").unwrap_err();
    assert_eq!(err.line, 3);
    assert!(parse_source_sections("[other]\nbroken\n").is_ok());
}

#[test]
fn rendered_sources_read_back_the_same() {
    let mut s = Source::new(
        "Pocket \"A\"".to_string(),
        SourceKind::AnaloguePocket,
        vec!["/mnt/pocket/Saves".to_string()],
        vec![],
        false,
    );
    s.systems = vec!["gba".to_string(), "gameboy".to_string()];
    let rendered = render_config_with_sources("", &[s.clone()]);
    let sections = parse_source_sections(&rendered).unwrap();
    let back = source_from_section(&sections[0]).unwrap();
    assert_eq!(back.id, s.id);
    assert_eq!(back.kind, SourceKind::AnaloguePocket);
    assert!(!back.recursive);
    assert_eq!(back.save_roots, vec!["/mnt/pocket/Saves".to_string()]);
    assert_eq!(back.rom_roots, vec!["/mnt/pocket/Saves".to_string()]);
    assert_eq!(back.systems, vec!["gameboy".to_string(), "gba".to_string()]);
}

#[test]
fn rendering_sorts_sources_by_id() {
    let a = Source::new("zeta".to_string(), SourceKind::Custom, vec!["/z".to_string()], vec![], true);
    let b = Source::new("alpha".to_string(), SourceKind::Custom, vec!["/a".to_string()], vec![], true);
    let rendered = render_config_with_sources("URL=\"x\"", &[a, b]);
    let pa = rendered.find("[source.alpha]").unwrap();
    let pz = rendered.find("[source.zeta]").unwrap();
    assert!(rendered.starts_with("URL=\"x\"\n\n[source.alpha]"));
    assert!(pa < pz);
    assert!(rendered.ends_with("ORIGIN=\"manual\"\n"));
}

#[test]
fn upsert_replaces_by_id_or_name_and_remove_matches_ids() {
    let mut store = SourceStore { sources: vec![] };
    upsert_source(
        &mut store,
        Source::new("Main".to_string(), SourceKind::Custom, vec!["/a".to_string()], vec![], true),
    );
    upsert_source(
        &mut store,
        Source::new("main".to_string(), SourceKind::RetroArch, vec!["/b".to_string()], vec![], true),
    );
    assert_eq!(store.sources.len(), 1);
    assert_eq!(store.sources[0].kind, SourceKind::RetroArch);
    assert!(!remove_source(&mut store, "other"));
    assert!(remove_source(&mut store, "MAIN"));
    assert!(store.sources.is_empty());
}

#[test]
fn steamdeck_default_source_prefers_emudeck_folder() {
    let cfg = fat_config();
    let s = default_source(&cfg, SourceKind::SteamDeck, Some("/home/deck/Emulation"));
    assert_eq!(s.id, "auto_emudeck");
    assert_eq!(s.save_roots[0], "/home/deck/Emulation/saves");
    let s = default_source(&cfg, SourceKind::SteamDeck, None);
    assert_eq!(s.save_roots[0], "/media/fat");
    assert_eq!(s.origin, "default");
}

#[test]
fn rendered_sources_load_back() {
    let mut a = Source::new("Zeta Saves".to_string(), SourceKind::RetroArch, vec!["/ra/saves".to_string()], vec!["/ra/roms".to_string()], false);
    a.systems = vec!["gba".to_string(), "snes".to_string()];
    a.managed = true;
    a.origin = "autoscan".to_string();
    let mut b = Source::new("Alpha".to_string(), SourceKind::Custom, vec!["/c/saves".to_string()], vec!["/c/roms".to_string()], true);
    b.systems = vec![];
    b.create_missing_system_dirs = true;
    let text = render_config_with_sources("URL=\"x\"", &[a.clone(), b.clone()]);
    let store = load_source_store(&text).unwrap();
    assert_eq!(store.sources.len(), 2);
    let (la, lb) = (&store.sources[1], &store.sources[0]);
    for (loaded, orig) in [(la, &a), (lb, &b)] {
        assert_eq!(loaded.id, orig.id);
        assert_eq!(loaded.name, orig.name);
        assert_eq!(loaded.kind, orig.kind);
        assert_eq!(loaded.profile, orig.profile);
        assert_eq!(loaded.save_roots, orig.save_roots);
        assert_eq!(loaded.rom_roots, orig.rom_roots);
        assert_eq!(loaded.recursive, orig.recursive);
        assert_eq!(loaded.systems, orig.systems);
        assert_eq!(loaded.create_missing_system_dirs, orig.create_missing_system_dirs);
        assert_eq!(loaded.managed, orig.managed);
        assert_eq!(loaded.origin, orig.origin);
    }
}

use sgm_helper::mister::sources::{EmulatorProfile, ResolvedSource, SourceKind};
use sgm_helper::steamdeck::helper::{
    auto_enroll_email, auto_provision_request, collect_auto_enroll_sync_paths, device_poll_plan, helper_display_name,
    helper_platform_name, input_path_for_from_override, parse_emulator_profile, parse_ps1_target_container,
};
use sgm_helper::steamdeck::cli::{
    signup_display_name, signup_password, source_for_add_command, wants_device_login, SourceAddCommand, SourceAddError,
};
use sgm_helper::steamdeck::ports::{sort_port_matches, PortSaveMatch};
use sgm_helper::steamdeck::scanner::SaveContainerFormat;
use sgm_helper::steamdeck::service::{detect_service_backend, source_counts, ServiceBackend};

fn resolved(id: &str, saves: &[&str], roms: &[&str], systems: &[&str]) -> ResolvedSource {
    ResolvedSource {
        id: id.to_string(),
        name: id.to_string(),
        kind: SourceKind::SteamDeck,
        profile: EmulatorProfile::RetroArch,
        save_roots: saves.iter().map(|s| s.to_string()).collect(),
        rom_roots: roms.iter().map(|s| s.to_string()).collect(),
        recursive: true,
        systems: systems.iter().map(|s| s.to_string()).collect(),
        create_missing_system_dirs: false,
        managed: false,
        origin: "manual".to_string(),
    }
}

#[test]
fn helper_names_itself_by_kind() {
    assert_eq!(helper_display_name(&SourceKind::SteamDeck), "SGM SteamDeck Helper");
    assert_eq!(helper_platform_name(&SourceKind::AnaloguePocket), "Analogue Pocket");
    let r = auto_provision_request(SourceKind::SteamDeck, "deck", "sgm-steamdeck-helper", "0.1.0", vec!["/saves".to_string()]);
    assert_eq!(r.name, "SGM SteamDeck Helper (deck)");
    assert_eq!(r.device_type, "steamdeck");
    assert_eq!(r.fingerprint, "deck");
    assert_eq!(r.platform, "SteamDeck");
    assert_eq!(r.sync_paths, vec!["/saves".to_string()]);
    assert!(r.systems.is_empty());
    assert_eq!(auto_enroll_email("  ", SourceKind::SteamDeck), "steamdeck@local");
    assert_eq!(auto_enroll_email("me@x", SourceKind::SteamDeck), "me@x");
}

#[test]
fn ps1_conversion_choices() {
    assert_eq!(parse_ps1_target_container(" VMP ").unwrap(), SaveContainerFormat::Ps1Vmp);
    assert_eq!(parse_ps1_target_container("dexdrive").unwrap(), SaveContainerFormat::Ps1DexDrive);
    assert_eq!(parse_ps1_target_container("ps1-raw").unwrap(), SaveContainerFormat::Ps1Raw);
    assert_eq!(parse_ps1_target_container("zip").unwrap_err().value, "zip");
    assert_eq!(input_path_for_from_override("/x/card.bin", "auto").unwrap(), "/x/card.bin");
    assert_eq!(input_path_for_from_override("/x/card.bin", "raw").unwrap(), "/x/card.mcr");
    assert_eq!(input_path_for_from_override("/x/card", "GME").unwrap(), "/x/card.gme");
    assert!(input_path_for_from_override("/x/card", "tape").is_err());
    assert_eq!(parse_emulator_profile("snes9x").unwrap(), EmulatorProfile::Snes9x);
    assert!(parse_emulator_profile("nope").is_err());
}

#[test]
fn enrolment_names_each_save_folder_once() {
    let sources = vec![resolved("a", &["/s/b", "/s/a"], &[], &[]), resolved("b", &["/s/a", "/s/c"], &[], &[])];
    assert_eq!(
        collect_auto_enroll_sync_paths(&sources),
        vec!["/s/a".to_string(), "/s/b".to_string(), "/s/c".to_string()]
    );
}

#[test]
fn device_login_is_polled_within_its_validity() {
    assert_eq!(device_poll_plan(600, 5), (5, 120));
    assert_eq!(device_poll_plan(600, 0), (1, 600));
    assert_eq!(device_poll_plan(3, 5), (5, 1));
}

#[test]
fn heartbeat_counts_sources() {
    let sources = vec![
        resolved("a", &["/s1", "/s2"], &["/r1"], &["snes", "gba"]),
        resolved("b", &["/s3"], &["/r2", "/r3"], &["snes", "n64"]),
    ];
    let c = source_counts(&sources);
    assert_eq!(c.source_count, 2);
    assert_eq!(c.save_path_count, 3);
    assert_eq!(c.rom_path_count, 3);
    assert_eq!(c.configured_systems, vec!["gba".to_string(), "n64".to_string(), "snes".to_string()]);
}

#[test]
fn service_backend_follows_the_machine() {
    assert_eq!(detect_service_backend(true, true, true), ServiceBackend::WindowsTask);
    assert_eq!(detect_service_backend(false, true, true), ServiceBackend::LinuxSystemdSystem);
    assert_eq!(detect_service_backend(false, true, false), ServiceBackend::LinuxSystemdUser);
    assert_eq!(detect_service_backend(false, false, true), ServiceBackend::LinuxCron);
}

fn port_match(path: &str, id: &str) -> PortSaveMatch {
    PortSaveMatch {
        path: path.to_string(),
        port_id: id.to_string(),
        port_name: id.to_string(),
        origin_system_slug: "pc".to_string(),
        runtime_profile: "pc".to_string(),
        relative_path: "x".to_string(),
        root_relative_path: "x".to_string(),
        slot_id: "x".to_string(),
        display_title: "x".to_string(),
    }
}

#[test]
fn port_matches_sorted_by_path_each_once() {
    let out = sort_port_matches(vec![
        port_match("/g/b/save.dat", "one"),
        port_match("/g/a-c/save.dat", "two"),
        port_match("/g/a/save.dat", "three"),
        port_match("/g//b/save.dat", "four"),
    ]);
    let paths: Vec<(&str, &str)> = out.iter().map(|m| (m.path.as_str(), m.port_id.as_str())).collect();
    // Folder by folder: "a" comes before "a-c"; "/g//b" is the same path as "/g/b".
    assert_eq!(paths, vec![("/g/a/save.dat", "three"), ("/g/a-c/save.dat", "two"), ("/g/b/save.dat", "one")]);
}

#[test]
fn signup_and_login_choices() {
    assert_eq!(signup_display_name("player@example.com", None), "player");
    assert_eq!(signup_display_name("nobody", None), "nobody");
    assert_eq!(signup_display_name("a@b", Some("Given".to_string())), "Given");
    assert_eq!(signup_password(None, "  "), "sgm-helper-password");
    assert_eq!(signup_password(None, "app-pw"), "app-pw");
    assert_eq!(signup_password(Some("pw".to_string()), "app-pw"), "pw");
    assert!(wants_device_login(false, false, " "));
    assert!(!wants_device_login(false, true, ""));
    assert!(!wants_device_login(false, false, "app-pw"));
    assert!(wants_device_login(true, true, "app-pw"));
}

#[test]
fn sources_added_from_the_command_line() {
    let s = source_for_add_command(SourceAddCommand::Retroarch {
        name: "Deck RA".to_string(),
        profile: None,
        root: "/home/deck/ra".to_string(),
        recursive: None,
    })
    .unwrap();
    assert_eq!(s.id, "deck_ra");
    assert_eq!(s.kind, SourceKind::RetroArch);
    assert_eq!(s.save_roots, vec!["/home/deck/ra/saves".to_string()]);
    assert_eq!(s.rom_roots, vec!["/home/deck/ra/roms".to_string(), "/home/deck/ra/content".to_string()]);
    assert!(s.recursive);
    let c = source_for_add_command(SourceAddCommand::Custom {
        name: "Mine".to_string(),
        profile: Some("snes9x".to_string()),
        saves: vec!["/s".to_string()],
        roms: Vec::new(),
        recursive: Some(false),
    })
    .unwrap();
    assert_eq!(c.rom_roots, vec!["/s".to_string()]);
    assert_eq!(c.profile, EmulatorProfile::Snes9x);
    assert!(!c.recursive);
    assert!(matches!(
        source_for_add_command(SourceAddCommand::Custom { name: "x".to_string(), profile: None, saves: Vec::new(), roms: Vec::new(), recursive: None }),
        Err(SourceAddError::NoSaveFolder)
    ));
    assert!(matches!(
        source_for_add_command(SourceAddCommand::Openemu { name: "x".to_string(), profile: Some("zzz".to_string()), root: "/o".to_string(), recursive: None }),
        Err(SourceAddError::UnknownProfile(_))
    ));
}

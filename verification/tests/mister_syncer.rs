use sgm_helper::mister::sources::{EmulatorProfile, SourceKind};
use sgm_helper::mister::syncer::{
    dreamcast_line_key, effective_profile_for_save, filename_with_extension,
    infer_playstation_slot_from_path, infer_wii_slot_from_path, is_empty_n64_controller_pak_rejection,
    is_legacy_n64_latest_mismatch, is_missing_cloud_payload_reference,
    is_playstation_projection_unavailable, parse_playstation_slot, playstation_line_key,
    preferred_extension_for_system, preferred_save_path, resolve_slot_name_for_sync,
    runtime_target_for_system, sanitize_filename, save_selection_key,
    should_retry_n64_mister_cpk_as_mpk, source_allows_system, system_directory_for_source,
    system_profile_field_key, upload_filename_for_sync, wii_line_key,
};
use sgm_helper::steamdeck::api::RuntimeTarget;
use sgm_helper::steamdeck::scanner::{wii_title_code_from_path, SaveContainerFormat};

#[test]
fn source_system_policy_allows_only_configured_slugs() {
    let systems = vec!["snes".to_string(), "n64".to_string()];
    assert!(source_allows_system(&systems, "snes"));
    assert!(source_allows_system(&systems, "N64"));
    assert!(!source_allows_system(&systems, "wii"));
    assert!(!source_allows_system(&[], "snes"));
}

#[test]
fn runtime_target_uses_explicit_n64_profile_key() {
    let target = runtime_target_for_system(
        &SourceKind::MisterFpga,
        &EmulatorProfile::Mister,
        "n64",
        "mister",
    );
    assert_eq!(target.runtime_profile.as_deref(), Some("n64/mister"));
    assert_eq!(target.emulator_profile.as_deref(), Some("mister"));
    assert_eq!(target.system_profile_key.as_deref(), Some("n64Profile"));
    assert_eq!(target.system_profile_value.as_deref(), Some("n64/mister"));
}

#[test]
fn runtime_target_supports_n64_project64_profile() {
    let target = runtime_target_for_system(
        &SourceKind::Custom,
        &EmulatorProfile::Project64,
        "n64",
        "custom",
    );
    assert_eq!(target.runtime_profile.as_deref(), Some("n64/project64"));
    assert_eq!(target.system_profile_key.as_deref(), Some("n64Profile"));
    assert_eq!(target.system_profile_value.as_deref(), Some("n64/project64"));
}

#[test]
fn runtime_target_supports_n64_mupen_family_profile() {
    let target = runtime_target_for_system(
        &SourceKind::Custom,
        &EmulatorProfile::MupenFamily,
        "n64",
        "custom",
    );
    assert_eq!(target.runtime_profile.as_deref(), Some("n64/mupen-family"));
    assert_eq!(target.system_profile_key.as_deref(), Some("n64Profile"));
    assert_eq!(target.system_profile_value.as_deref(), Some("n64/mupen-family"));
}

#[test]
fn runtime_target_uses_profile_based_runtime_for_snes() {
    let target = runtime_target_for_system(
        &SourceKind::Custom,
        &EmulatorProfile::Snes9x,
        "snes",
        "custom",
    );
    assert_eq!(target.runtime_profile.as_deref(), Some("snes/snes9x"));
    assert_eq!(target.emulator_profile.as_deref(), Some("snes9x"));
    assert_eq!(target.system_profile_key.as_deref(), Some("snesProfile"));
    assert_eq!(target.system_profile_value.as_deref(), Some("snes/snes9x"));
}

#[test]
fn runtime_target_returns_empty_for_non_projection_systems() {
    let target = runtime_target_for_system(
        &SourceKind::RetroArch,
        &EmulatorProfile::RetroArch,
        "nds",
        "retroarch",
    );
    assert!(target.runtime_profile.is_none());
    assert!(target.system_profile_key.is_none());
    assert!(target.system_profile_value.is_none());
}

#[test]
fn runtime_target_maps_retroarch_snes_to_backend_profile_id() {
    let target = runtime_target_for_system(
        &SourceKind::RetroArch,
        &EmulatorProfile::RetroArch,
        "snes",
        "retroarch",
    );
    assert_eq!(target.runtime_profile.as_deref(), Some("snes/retroarch-snes9x"));
}

#[test]
fn runtime_target_maps_saturn_to_saturn_format_alias() {
    let target = runtime_target_for_system(
        &SourceKind::RetroArch,
        &EmulatorProfile::RetroArch,
        "saturn",
        "retroarch",
    );
    assert_eq!(target.runtime_profile.as_deref(), Some("saturn/mednafen"));
    assert_eq!(target.system_profile_key.as_deref(), Some("saturnFormat"));
}

#[test]
fn system_profile_key_handles_hyphenated_slugs() {
    assert_eq!(system_profile_field_key("sega-cd"), "segaCdProfile");
    assert_eq!(system_profile_field_key("saturn"), "saturnFormat");
    assert_eq!(system_profile_field_key("n64"), "n64Profile");
    assert_eq!(system_profile_field_key("master-system"), "masterSystemProfile");
}

#[test]
fn syncer_prefers_sav_for_mister_snes() {
    let ext = preferred_extension_for_system(
        &SourceKind::MisterFpga,
        &EmulatorProfile::Mister,
        "snes",
        None,
    );
    assert_eq!(ext, Some("sav"));
}

#[test]
fn syncer_prefers_srm_for_retroarch_snes() {
    let ext = preferred_extension_for_system(
        &SourceKind::RetroArch,
        &EmulatorProfile::RetroArch,
        "snes",
        None,
    );
    assert_eq!(ext, Some("srm"));
}

#[test]
fn syncer_prefers_srm_for_zsnes_profile() {
    let ext =
        preferred_extension_for_system(&SourceKind::Custom, &EmulatorProfile::Zsnes, "snes", None);
    assert_eq!(ext, Some("srm"));
}

#[test]
fn syncer_rewrites_native_save_to_preferred_extension() {
    let path = "/userdata/saves/snes/zelda.srm";
    let target = preferred_save_path(
        path,
        &SourceKind::MisterFpga,
        &EmulatorProfile::Mister,
        Some("snes"),
        SaveContainerFormat::Native,
        None,
    );
    assert_eq!(target, "/userdata/saves/snes/zelda.sav");
}

#[test]
fn syncer_does_not_rewrite_non_native_container() {
    let path = "/userdata/saves/psx/card.srm";
    let target = preferred_save_path(
        path,
        &SourceKind::MisterFpga,
        &EmulatorProfile::Mister,
        Some("psx"),
        SaveContainerFormat::Ps1Raw,
        None,
    );
    assert_eq!(target, path);
}

#[test]
fn syncer_prefers_n64_native_extension_on_mister_by_size() {
    assert_eq!(
        preferred_extension_for_system(
            &SourceKind::MisterFpga,
            &EmulatorProfile::Mister,
            "n64",
            Some(512)
        ),
        Some("eep")
    );
    assert_eq!(
        preferred_extension_for_system(
            &SourceKind::MisterFpga,
            &EmulatorProfile::Mister,
            "n64",
            Some(32_768)
        ),
        Some("sra")
    );
    assert_eq!(
        preferred_extension_for_system(
            &SourceKind::MisterFpga,
            &EmulatorProfile::Mister,
            "n64",
            Some(131_072)
        ),
        Some("fla")
    );
}

#[test]
fn prefers_n64_native_extension_for_non_mister_sources() {
    assert_eq!(
        preferred_extension_for_system(
            &SourceKind::RetroArch,
            &EmulatorProfile::RetroArch,
            "n64",
            Some(32_768)
        ),
        Some("sra")
    );
}

#[test]
fn syncer_prefers_n64_native_extension_for_everdrive_profile() {
    assert_eq!(
        preferred_extension_for_system(
            &SourceKind::Custom,
            &EmulatorProfile::EverDrive,
            "n64",
            Some(32_768)
        ),
        Some("sra")
    );
}

#[test]
fn prefers_cartridge_mapping_for_sega_cd_and_32x() {
    assert_eq!(
        preferred_extension_for_system(
            &SourceKind::RetroArch,
            &EmulatorProfile::RetroArch,
            "sega-cd",
            Some(8192)
        ),
        Some("srm")
    );
    assert_eq!(
        preferred_extension_for_system(
            &SourceKind::MisterFpga,
            &EmulatorProfile::Mister,
            "sega-32x",
            Some(8192)
        ),
        Some("sav")
    );
}

#[test]
fn saturn_keeps_native_extension_without_forced_rewrite() {
    assert_eq!(
        preferred_extension_for_system(
            &SourceKind::RetroArch,
            &EmulatorProfile::RetroArch,
            "saturn",
            Some(32768)
        ),
        None
    );
}

#[test]
fn n64_unknown_size_has_no_forced_extension() {
    assert_eq!(
        preferred_extension_for_system(
            &SourceKind::RetroArch,
            &EmulatorProfile::RetroArch,
            "n64",
            Some(786_432)
        ),
        None
    );
}

#[test]
fn keeps_native_n64_mpk_extension_on_download_path() {
    let path = "/userdata/saves/n64/Mario Kart 64.mpk";
    let target = preferred_save_path(
        path,
        &SourceKind::RetroArch,
        &EmulatorProfile::RetroArch,
        Some("n64"),
        SaveContainerFormat::Native,
        Some(32_768),
    );
    assert_eq!(target, path);
}

#[test]
fn keeps_native_n64_cpk_extension_on_download_path() {
    let path = "/media/fat/saves/N64/Mario Kart 64 (USA)_1.cpk";
    let target = preferred_save_path(
        path,
        &SourceKind::MisterFpga,
        &EmulatorProfile::Mister,
        Some("n64"),
        SaveContainerFormat::Native,
        Some(32_768),
    );
    assert_eq!(target, path);
}

#[test]
fn n64_cpk_upload_filename_keeps_cpk() {
    let file = "/media/fat/saves/N64/Mario Kart 64 (USA)_1.cpk";
    assert_eq!(upload_filename_for_sync(file, "n64"), "Mario Kart 64 (USA)_1.cpk");
}

#[test]
fn wii_slot_and_line_key_use_title_code() {
    let file = "/home/deck/Emulation/saves/wii/SB4P/data.bin";
    assert_eq!(infer_wii_slot_from_path(file), "SB4P/data.bin");
    assert_eq!(
        wii_line_key(wii_title_code_from_path(file).as_deref(), "ignored"),
        "wii-title:SB4P"
    );
    assert_eq!(upload_filename_for_sync(file, "wii"), "data.bin");
    assert_eq!(save_selection_key(file), "wii:sb4p");
}

#[test]
fn infers_n64_project64_profile_from_path() {
    let file =
        "/home/deck/Emulation/saves/project64/N64/The Legend of Zelda - Ocarina of Time.sra";
    let profile =
        effective_profile_for_save(&SourceKind::Custom, &EmulatorProfile::Generic, "n64", file);
    assert_eq!(profile, EmulatorProfile::Project64);
}

#[test]
fn detects_legacy_n64_latest_payload_mismatch() {
    let err = "HTTP request faalde: status=400 Bad Request body={\"error\":\"Bad Request\",\"message\":\"N64 canonical payload size 512 does not match expected 2048 for eeprom\",\"statusCode\":400}";
    assert!(is_legacy_n64_latest_mismatch(err, "n64"));
    assert!(!is_legacy_n64_latest_mismatch(err, "snes"));
}

#[test]
fn detects_missing_cloud_payload_reference() {
    let err = "HTTP request faalde: status=500 Internal Server Error body={\"error\":\"Internal Server Error\",\"message\":\"open /saves/Nintendo 64/Test/payload.mpk: no such file or directory\",\"statusCode\":500}";
    assert!(is_missing_cloud_payload_reference(err));

    let not_missing = "HTTP request faalde: status=500 Internal Server Error body={\"error\":\"Internal Server Error\",\"message\":\"database unavailable\",\"statusCode\":500}";
    assert!(!is_missing_cloud_payload_reference(not_missing));
}

#[test]
fn detects_empty_n64_controller_pak_rejection() {
    let err = "HTTP request faalde: status=422 Unprocessable Entity body={\"error\":\"Unprocessable Entity\",\"message\":\"unsupported\",\"reason\":\"n64 controller-pak does not contain any save entries\",\"statusCode\":422}";
    assert!(is_empty_n64_controller_pak_rejection(err, "n64"));
    assert!(!is_empty_n64_controller_pak_rejection(err, "snes"));
}

#[test]
fn detects_unavailable_playstation_projection() {
    let err = "download faalde: status=400 Bad Request body={\"message\":\"save is not a playstation projection\"}";
    assert!(is_playstation_projection_unavailable(err, "psx"));
    assert!(!is_playstation_projection_unavailable(err, "saturn"));
}

#[test]
fn retries_n64_mister_cpk_for_legacy_backend_upload_form() {
    let err = "HTTP request faalde: status=422 Unprocessable Entity body={\"error\":\"Unprocessable Entity\",\"message\":\"unsupported N64 upload form for n64/mister: .cpk (32768 bytes)\",\"statusCode\":422}";
    let target = RuntimeTarget {
        runtime_profile: Some("n64/mister".to_string()),
        emulator_profile: Some("mister".to_string()),
        system_profile_key: Some("n64Profile".to_string()),
        system_profile_value: Some("n64/mister".to_string()),
    };
    assert!(should_retry_n64_mister_cpk_as_mpk(err, "n64", &target, "mk64_1.cpk"));
    assert_eq!(
        filename_with_extension("mk64_1.cpk", "mpk").as_deref(),
        Some("mk64_1.mpk")
    );
}

#[test]
fn syncer_parses_playstation_slot_aliases() {
    assert_eq!(parse_playstation_slot("memory_card_1"), Some("Memory Card 1".to_string()));
    assert_eq!(parse_playstation_slot("memory card 2"), Some("Memory Card 2".to_string()));
    assert_eq!(parse_playstation_slot("Mcd001.ps2"), Some("Memory Card 1".to_string()));
    assert_eq!(parse_playstation_slot("Mcd002.ps2"), Some("Memory Card 2".to_string()));
}

#[test]
fn syncer_infers_playstation_slot_from_path_with_default() {
    assert_eq!(
        infer_playstation_slot_from_path("/games/psx/memory_card_2.mcd"),
        "Memory Card 2".to_string()
    );
    assert_eq!(
        infer_playstation_slot_from_path("/games/ps2/custom.ps2"),
        "Memory Card 1".to_string()
    );
}

#[test]
fn resolves_dreamcast_slot_from_path() {
    assert_eq!(
        resolve_slot_name_for_sync(
            "dreamcast",
            "/userdata/saves/dreamcast/Sonic Adventure 2.A3.bin",
            "default",
        ),
        "A3"
    );
    assert_eq!(
        resolve_slot_name_for_sync("dreamcast", "/userdata/saves/dreamcast/unknown.bin", "default"),
        "A1"
    );
}

#[test]
fn dreamcast_line_key_uses_slot_and_device() {
    assert_eq!(
        dreamcast_line_key("dreamcast", "retroarch", "A2"),
        "dc-line:dreamcast:retroarch:a2"
    );
}

#[test]
fn playstation_line_key_dashes_the_slot() {
    assert_eq!(
        playstation_line_key("psx", "mister", " Memory Card 2 "),
        "ps-line:psx:mister:memory-card-2"
    );
    assert_eq!(wii_line_key(Some("  "), "Some Slot\\x"), "wii-title:some-slot/x");
}

#[test]
fn sanitized_names_and_system_folders() {
    assert_eq!(sanitize_filename("  a/b:c?.srm "), "a_b_c_.srm");
    assert_eq!(sanitize_filename(" ... "), "save");
    assert_eq!(
        system_directory_for_source(&SourceKind::MisterFpga, &EmulatorProfile::Mister, "genesis"),
        "MegaDrive"
    );
    assert_eq!(
        system_directory_for_source(&SourceKind::RetroArch, &EmulatorProfile::RetroArch, "gameboy"),
        "gb"
    );
    assert_eq!(
        system_directory_for_source(&SourceKind::RetroArch, &EmulatorProfile::RetroArch, "amiga"),
        "unknown"
    );
}

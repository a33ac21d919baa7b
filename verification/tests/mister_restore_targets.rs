use sgm_helper::mister::restore::{
    cloud_restore_native_target_path, cloud_target_extension, cloud_target_path, first_folder_under,
    restore_directory_candidates, select_cloud_restore_root,
};
use sgm_helper::mister::sources::{EmulatorProfile, SourceKind};
use sgm_helper::mister::syncer::{preferred_save_path, system_directory_for_source};
use sgm_helper::steamdeck::api::{CloudSaveSummary, DownloadProfile};
use sgm_helper::steamdeck::scanner::SaveContainerFormat;

fn cloud_save(filename: &str, title: &str, system_slug: &str, profile_id: &str, target_extension: &str) -> CloudSaveSummary {
    CloudSaveSummary {
        id: "save-cloud".to_string(),
        filename: filename.to_string(),
        display_title: title.to_string(),
        system_slug: system_slug.to_string(),
        game: None,
        sha256: Some("sha".to_string()),
        version: Some(1),
        file_size: Some(8192),
        latest_size_bytes: Some(8192),
        media_type: None,
        runtime_profile: None,
        source_artifact_profile: None,
        logical_key: None,
        card_slot: None,
        download_profiles: vec![DownloadProfile {
            id: profile_id.to_string(),
            label: profile_id.to_string(),
            target_extension: Some(target_extension.to_string()),
            note: None,
        }],
        wii_title_fields: Vec::new(),
        inspection_evidence: Vec::new(),
        rom_sha1: None,
        rom_md5: None,
    }
}

/// The target of a restore under roots none of which exist on this machine:
/// the first root, the source's own folder for the system, no earlier file.
fn target_under(save: &CloudSaveSummary, roots: &[&str], kind: SourceKind, profile: EmulatorProfile, slug: &str, ext: Option<&str>) -> String {
    let roots: Vec<String> = roots.iter().map(|r| r.to_string()).collect();
    let exists = vec![false; roots.len()];
    let root = &roots[select_cloud_restore_root(&roots, &exists)];
    let dir = system_directory_for_source(&kind, &profile, slug);
    cloud_target_path(save, root, &dir, None, &profile, slug, ext)
}

#[test]
fn cloud_restore_reads_wii_title_code_from_backend_metadata() {
    let mut save = cloud_save("data.bin", "Super Mario Galaxy 2", "wii", "original", ".bin");
    // The titleCode and sourcePath of the backend's `rsm.wii` metadata.
    save.wii_title_fields = vec!["SB4P".to_string(), "Super Mario Galaxy 2/SB4P/data.bin".to_string()];
    let target = target_under(&save, &["/media/fat/saves"], SourceKind::MisterFpga, EmulatorProfile::Mister, "wii", Some("bin"));
    assert_eq!(target, "/media/fat/saves/Wii/SB4P/data.bin");
}

#[test]
fn cloud_restore_targets_mister_snes_sav_even_when_backend_profile_is_srm() {
    let save = cloud_save("Super Mario Kart (USA).srm", "Super Mario Kart", "snes", "snes/snes9x", ".srm");
    let extension = cloud_target_extension(&save, Some("snes/snes9x"));
    let provisional = target_under(&save, &["/media/fat/saves"], SourceKind::MisterFpga, EmulatorProfile::Mister, "snes", extension.as_deref());
    assert_eq!(provisional, "/media/fat/saves/SNES/Super Mario Kart (USA).srm");
    let final_path = preferred_save_path(
        &provisional,
        &SourceKind::MisterFpga,
        &EmulatorProfile::Mister,
        Some("snes"),
        SaveContainerFormat::Native,
        Some(2048),
    );
    assert_eq!(final_path, "/media/fat/saves/SNES/Super Mario Kart (USA).sav");
}

#[test]
fn cloud_restore_prechecks_retroarch_preferred_extension_before_download() {
    let save = cloud_save("Super Mario Bros. Deluxe.sav", "Super Mario Bros. Deluxe", "gameboy", "original", ".sav");
    let extension = cloud_target_extension(&save, None);
    let provisional = target_under(&save, &["/userdata/saves"], SourceKind::RetroArch, EmulatorProfile::RetroArch, "gameboy", extension.as_deref());
    assert_eq!(provisional, "/userdata/saves/gb/Super Mario Bros. Deluxe.sav");
    let existing_target = cloud_restore_native_target_path(&provisional, &SourceKind::RetroArch, &EmulatorProfile::RetroArch, "gameboy", &save);
    assert_eq!(existing_target, "/userdata/saves/gb/Super Mario Bros. Deluxe.srm");
}

#[test]
fn cloud_restore_targets_mister_n64_controller_pak_cpk() {
    let mut save = cloud_save("Mario Kart 64 (USA)_1.mpk", "Mario Kart 64", "n64", "n64/mister", ".cpk");
    save.media_type = Some("controller-pak".to_string());
    let extension = cloud_target_extension(&save, Some("n64/mister"));
    let target = target_under(&save, &["/media/fat/saves"], SourceKind::MisterFpga, EmulatorProfile::Mister, "n64", extension.as_deref());
    assert_eq!(target, "/media/fat/saves/N64/Mario Kart 64 (USA)_1.cpk");
}

#[test]
fn cloud_restore_keeps_single_system_emulator_root_direct() {
    let save = cloud_save("Chrono Trigger (USA).srm", "Chrono Trigger", "snes", "snes/snes9x", ".srm");
    let target = target_under(&save, &["/home/snes9x/save"], SourceKind::Custom, EmulatorProfile::Snes9x, "snes", Some("srm"));
    assert_eq!(target, "/home/snes9x/save/Chrono Trigger (USA).srm");
}

#[test]
fn restore_looks_in_own_folder_then_aliases() {
    assert_eq!(
        restore_directory_candidates(&SourceKind::MisterFpga, &EmulatorProfile::Mister, "n64"),
        vec!["N64".to_string(), "n64".to_string(), "nintendo 64".to_string(), "nintendo64".to_string()]
    );
    assert_eq!(
        restore_directory_candidates(&SourceKind::RetroArch, &EmulatorProfile::RetroArch, "nes"),
        vec!["nes".to_string(), "famicom".to_string()]
    );
}

#[test]
fn restore_root_is_first_existing_one() {
    let roots = vec!["/a".to_string(), "/b".to_string(), "/c".to_string()];
    assert_eq!(select_cloud_restore_root(&roots, &vec![false, true, true]), 1);
    assert_eq!(select_cloud_restore_root(&roots, &vec![false, false, false]), 0);
}

#[test]
fn restore_target_folder_on_the_way() {
    assert_eq!(first_folder_under("/saves", "/saves/game.sav"), Some(None));
    assert_eq!(first_folder_under("/saves", "/saves/SNES/game.sav"), Some(Some("/saves/SNES".to_string())));
    assert_eq!(first_folder_under("/saves", "/other/game.sav"), None);
}

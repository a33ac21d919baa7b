use sgm_helper::steamdeck::scanner::{
    SaveAdapterProfile, SaveContainerFormat, classify_supported_save, decode_ps1_dexdrive,
    decode_ps1_vmp, dreamcast_skip_reason, encode_download_for_local_container,
    encode_ps1_dexdrive, encode_ps1_vmp, infer_supported_console_slug, infer_system_slug,
    normalize_save_bytes_for_sync, saturn_skip_reason, wii_skip_reason, wii_title_code_from_path,
};

const PS1_MEMCARD_SIZE: usize = 131_072;
const PS1_FRAME_SIZE: usize = 128;
const DC_BLOCK_SIZE: usize = 512;
const DC_VMU_BLOCK_COUNT: usize = 256;
const DC_VMU_SIZE: usize = DC_BLOCK_SIZE * DC_VMU_BLOCK_COUNT;
const DC_ROOT_BLOCK: usize = 255;
const DC_FILETYPE_DATA: u8 = 0x33;
const DC_FAT_FREE: u16 = 0xFFFC;
const DC_FAT_END: u16 = 0xFFFA;
const SATURN_HEADER_MAGIC: &[u8] = b"BackUpRam Format";
const SATURN_INTERNAL_RAW_SIZE: usize = 0x8000;
const SATURN_INTERNAL_BLOCK_SIZE: usize = 0x40;
const WII_BACKUP_HEADER_OFFSET: usize = 0xF0C0;
const WII_FILE_HEADER_OFFSET: usize = 0xF140;

fn set_frame_checksum(bytes: &mut [u8], frame_index: usize) {
    let start = frame_index * PS1_FRAME_SIZE;
    let end = start + PS1_FRAME_SIZE;
    let frame = &mut bytes[start..end];
    let checksum = frame[..PS1_FRAME_SIZE - 1].iter().fold(0u8, |acc, value| acc ^ value);
    frame[PS1_FRAME_SIZE - 1] = checksum;
}

fn build_valid_ps1_memcard() -> Vec<u8> {
    let mut bytes = vec![0u8; PS1_MEMCARD_SIZE];
    bytes[0] = b'M';
    bytes[1] = b'C';
    for frame_index in 1..=15 {
        let start = frame_index * PS1_FRAME_SIZE;
        bytes[start] = 0xA0;
        bytes[start + 8] = 0xFF;
        bytes[start + 9] = 0xFF;
        set_frame_checksum(&mut bytes, frame_index);
    }
    let trailing_start = 63 * PS1_FRAME_SIZE;
    bytes[trailing_start] = b'M';
    bytes[trailing_start + 1] = b'C';
    set_frame_checksum(&mut bytes, 0);
    set_frame_checksum(&mut bytes, 63);
    bytes
}

fn build_empty_saturn_internal_backup_ram() -> Vec<u8> {
    let mut bytes = vec![0u8; SATURN_INTERNAL_RAW_SIZE];
    for index in 0..SATURN_INTERNAL_BLOCK_SIZE {
        bytes[index] = SATURN_HEADER_MAGIC[index % SATURN_HEADER_MAGIC.len()];
    }
    bytes
}

fn build_valid_saturn_internal_backup_ram() -> Vec<u8> {
    let mut bytes = build_empty_saturn_internal_backup_ram();
    let offset = 2 * SATURN_INTERNAL_BLOCK_SIZE;
    bytes[offset..offset + 4].copy_from_slice(&0x8000_0000u32.to_be_bytes());
    let mut filename = [0u8; 11];
    filename[..8].copy_from_slice(b"TESTSAVE");
    bytes[offset + 0x04..offset + 0x0F].copy_from_slice(&filename);
    bytes[offset + 0x0F] = 1;
    let mut comment = [0u8; 10];
    comment[..9].copy_from_slice(b"test save");
    bytes[offset + 0x10..offset + 0x1A].copy_from_slice(&comment);
    bytes[offset + 0x1A..offset + 0x1E].copy_from_slice(&12345u32.to_be_bytes());
    let payload = b"SATURN-OK";
    bytes[offset + 0x1E..offset + 0x22].copy_from_slice(&(payload.len() as u32).to_be_bytes());
    bytes[offset + 0x22..offset + 0x24].copy_from_slice(&0u16.to_be_bytes());
    bytes[offset + 0x24..offset + 0x24 + payload.len()].copy_from_slice(payload);
    bytes
}

fn build_ps2_memory_card() -> Vec<u8> {
    let mut bytes = vec![0u8; 8 * 1024 * 1024];
    let magic = b"Sony PS2 Memory Card Format ";
    bytes[..magic.len()].copy_from_slice(magic);
    bytes
}

fn build_empty_dreamcast_vmu() -> Vec<u8> {
    let mut bytes = vec![0u8; DC_VMU_SIZE];
    let root_offset = DC_ROOT_BLOCK * DC_BLOCK_SIZE;
    bytes[root_offset..root_offset + 16].fill(0x55);
    bytes[root_offset + 0x46..root_offset + 0x48].copy_from_slice(&(254u16).to_le_bytes());
    bytes[root_offset + 0x48..root_offset + 0x4A].copy_from_slice(&(1u16).to_le_bytes());
    bytes[root_offset + 0x4A..root_offset + 0x4C].copy_from_slice(&(253u16).to_le_bytes());
    bytes[root_offset + 0x4C..root_offset + 0x4E].copy_from_slice(&(13u16).to_le_bytes());
    bytes[root_offset + 0x50..root_offset + 0x52].copy_from_slice(&(200u16).to_le_bytes());
    let fat_offset = 254 * DC_BLOCK_SIZE;
    for block in 0..DC_VMU_BLOCK_COUNT {
        let offset = fat_offset + block * 2;
        bytes[offset..offset + 2].copy_from_slice(&DC_FAT_FREE.to_le_bytes());
    }
    for block in (241..=253).rev() {
        let value = if block == 241 { DC_FAT_END } else { (block - 1) as u16 };
        let offset = fat_offset + block * 2;
        bytes[offset..offset + 2].copy_from_slice(&value.to_le_bytes());
    }
    for block in [254usize, 255] {
        let offset = fat_offset + block * 2;
        bytes[offset..offset + 2].copy_from_slice(&DC_FAT_END.to_le_bytes());
    }
    bytes
}

fn build_dreamcast_vmu_with_single_save() -> Vec<u8> {
    let mut bytes = build_empty_dreamcast_vmu();
    let fat_offset = 254 * DC_BLOCK_SIZE;
    let save_block = 10usize;
    let next_save_block = 11usize;
    let offset = fat_offset + save_block * 2;
    bytes[offset..offset + 2].copy_from_slice(&(next_save_block as u16).to_le_bytes());
    let next_offset = fat_offset + next_save_block * 2;
    bytes[next_offset..next_offset + 2].copy_from_slice(&DC_FAT_END.to_le_bytes());
    let dir_offset = 253 * DC_BLOCK_SIZE;
    bytes[dir_offset] = DC_FILETYPE_DATA;
    bytes[dir_offset + 1] = 0x00;
    bytes[dir_offset + 2..dir_offset + 4].copy_from_slice(&(save_block as u16).to_le_bytes());
    let mut filename = [0u8; 12];
    filename[..9].copy_from_slice(b"SONICADV2");
    bytes[dir_offset + 4..dir_offset + 16].copy_from_slice(&filename);
    bytes[dir_offset + 0x18..dir_offset + 0x1A].copy_from_slice(&(2u16).to_le_bytes());
    bytes[dir_offset + 0x1A..dir_offset + 0x1C].copy_from_slice(&(0u16).to_le_bytes());
    let save_offset = save_block * DC_BLOCK_SIZE;
    let mut short = [0u8; 16];
    short[..10].copy_from_slice(b"SONIC ADV2");
    bytes[save_offset..save_offset + 16].copy_from_slice(&short);
    let mut app = [0u8; 16];
    app[..7].copy_from_slice(b"FLYCAST");
    bytes[save_offset + 0x30..save_offset + 0x40].copy_from_slice(&app);
    bytes[save_offset + 0x40..save_offset + 0x42].copy_from_slice(&(1u16).to_le_bytes());
    bytes[save_offset + 0x42..save_offset + 0x44].copy_from_slice(&(8u16).to_le_bytes());
    bytes[save_offset + 0x44..save_offset + 0x46].copy_from_slice(&(0u16).to_le_bytes());
    bytes[save_offset + 0x48..save_offset + 0x4C].copy_from_slice(&(64u32).to_le_bytes());
    bytes
}

fn write_be_u32(payload: &mut [u8], offset: usize, value: u32) {
    payload[offset..offset + 4].copy_from_slice(&value.to_be_bytes());
}

fn wii_data_bin_fixture() -> Vec<u8> {
    let mut payload = vec![0x5A; 75_200];
    for (idx, value) in payload.iter_mut().enumerate() {
        *value = ((idx * 31 + 7) & 0xFF) as u8;
    }
    write_be_u32(&mut payload, WII_BACKUP_HEADER_OFFSET, 0x70);
    payload[WII_BACKUP_HEADER_OFFSET + 4..WII_BACKUP_HEADER_OFFSET + 8].copy_from_slice(b"Bk\0\x01");
    write_be_u32(&mut payload, WII_BACKUP_HEADER_OFFSET + 0x0C, 1);
    write_be_u32(&mut payload, WII_BACKUP_HEADER_OFFSET + 0x10, 0x3140);
    write_be_u32(&mut payload, WII_FILE_HEADER_OFFSET, 0x03AD_F17E);
    write_be_u32(&mut payload, WII_FILE_HEADER_OFFSET + 4, 0x30A0);
    let name = b"GameData.bin";
    payload[WII_FILE_HEADER_OFFSET + 0x0B..WII_FILE_HEADER_OFFSET + 0x0B + name.len()].copy_from_slice(name);
    let cert = b"Root-CA00000001-MS00000002-NG02";
    let offset = payload.len() - 640;
    payload[offset..offset + cert.len()].copy_from_slice(cert);
    payload
}

#[test]
fn infer_system_slug_from_path() {
    let snes = vec![0x00u8; 8192];
    assert_eq!(infer_system_slug("/tmp/t/saves/SNES/zelda.srm", &snes).as_deref(), Some("snes"));
    assert_eq!(infer_system_slug("/tmp/t/saves/Sega/sonic.srm", &snes).as_deref(), Some("genesis"));
    assert_eq!(
        infer_system_slug("/tmp/t/saves/Saturn/nihts.bkr", &build_valid_saturn_internal_backup_ram()).as_deref(),
        Some("saturn")
    );
    assert_eq!(infer_system_slug("/tmp/t/saves/Mega-CD/snatcher.srm", &snes).as_deref(), Some("sega-cd"));
    assert_eq!(infer_system_slug("/tmp/t/saves/32X/doom.srm", &snes).as_deref(), Some("sega-32x"));
    assert_eq!(infer_system_slug("/tmp/t/saves/PSX/ff7.mcr", &build_valid_ps1_memcard()).as_deref(), Some("psx"));
}

#[test]
fn unsupported_paths_are_not_classified() {
    let path = "/home/deck/.steam/steam/steamapps/compatdata/242550/icudtl.dat";
    assert!(infer_supported_console_slug(path, None, &[]).is_none());
}

#[test]
fn empty_saturn_backup_ram_is_not_classified() {
    let save = "/tmp/t/saves/Saturn/Fighting Vipers (USA).bkr";
    assert!(infer_supported_console_slug(save, None, &build_empty_saturn_internal_backup_ram()).is_none());
}

#[test]
fn empty_saturn_backup_ram_reports_skip_reason() {
    let save = "/tmp/t/saves/Saturn/Fighting Vipers (USA).bkr";
    assert_eq!(
        saturn_skip_reason(save, None, &build_empty_saturn_internal_backup_ram()).as_deref(),
        Some("skip_empty_saturn_backup_ram")
    );
}

#[test]
fn valid_saturn_backup_ram_has_no_skip_reason() {
    let save = "/tmp/t/saves/Saturn/Quake (USA).bkr";
    assert!(saturn_skip_reason(save, None, &build_valid_saturn_internal_backup_ram()).is_none());
}

#[test]
fn saturn_backup_of_unknown_size_reports_size() {
    let save = "/tmp/t/saves/Saturn/Quake (USA).bkr";
    assert_eq!(
        saturn_skip_reason(save, None, &vec![1u8; 1000]).as_deref(),
        Some("skip_saturn_without_structural_evidence(size=1000)")
    );
}

#[test]
fn rom_extension_can_classify_supported_console() {
    let save = vec![0x00u8; 32768];
    assert_eq!(
        infer_supported_console_slug("/tmp/t/anything.sav", Some("/roms/gb/pokemon.gb"), &save).as_deref(),
        Some("gameboy")
    );
}

#[test]
fn rom_extension_32x_can_classify_supported_console() {
    let save = vec![0x00u8; 32768];
    assert_eq!(
        infer_supported_console_slug("/tmp/t/anything.sav", Some("/roms/sega32x/doom.32x"), &save).as_deref(),
        Some("sega-32x")
    );
}

#[test]
fn text_files_are_rejected_even_with_save_extension() {
    let save = b"this is clearly text and not a real save file";
    assert!(infer_supported_console_slug("/tmp/t/Nintendo/notes.sav", None, save).is_none());
}

#[test]
fn unsupported_extension_is_rejected() {
    assert!(infer_supported_console_slug("/tmp/t/Nintendo/zelda.dat", None, &[0x00u8; 1024]).is_none());
}

#[test]
fn sony_path_hints_are_supported() {
    assert_eq!(
        infer_supported_console_slug("/tmp/t/Emulation/saves/pcsx2/Gran Turismo 4.ps2", None, &build_ps2_memory_card())
            .as_deref(),
        Some("ps2")
    );
}

#[test]
fn dreamcast_vmu_path_hints_are_supported_and_enriched() {
    let save = "/tmp/t/Emulation/saves/dreamcast/Sonic Adventure 2.A1.bin";
    let classification =
        classify_supported_save(save, None, &build_dreamcast_vmu_with_single_save()).expect("expected classification");
    assert_eq!(classification.system_slug, "dreamcast");
    assert!(classification.evidence.contains("vmu-bin"));
    assert!(classification.evidence.contains("icons=1"));
    assert!(classification.evidence.contains("title=SONIC ADV2"));
}

#[test]
fn empty_dreamcast_vmu_is_not_classified() {
    let save = "/tmp/t/Emulation/saves/dreamcast/Sonic Adventure 2.A1.bin";
    assert!(infer_supported_console_slug(save, None, &build_empty_dreamcast_vmu()).is_none());
}

#[test]
fn empty_dreamcast_vmu_reports_skip_reason() {
    let save = "/tmp/t/Emulation/saves/dreamcast/Sonic Adventure 2.A1.bin";
    assert_eq!(
        dreamcast_skip_reason(save, None, &build_empty_dreamcast_vmu()).as_deref(),
        Some("skip_empty_dreamcast_vmu")
    );
}

#[test]
fn valid_dreamcast_vmu_has_no_skip_reason() {
    let save = "/tmp/t/Emulation/saves/dreamcast/Sonic Adventure 2.A1.bin";
    assert!(dreamcast_skip_reason(save, None, &build_dreamcast_vmu_with_single_save()).is_none());
}

#[test]
fn dreamcast_nvmem_blob_is_rejected() {
    let mut bytes = vec![0u8; DC_VMU_SIZE];
    let magic = b"KATANA_FLASH____";
    bytes[..magic.len()].copy_from_slice(magic);
    assert!(infer_supported_console_slug("/tmp/t/Emulation/saves/dreamcast/dc_nvmem.bin", None, &bytes).is_none());
}

#[test]
fn n64_blank_eeprom_is_rejected() {
    assert!(infer_supported_console_slug("/tmp/t/MiSTer/N64/Wave Race 64 (USA).eep", None, &vec![0u8; 512]).is_none());
}

#[test]
fn n64_blank_flashram_is_rejected() {
    assert!(
        infer_supported_console_slug("/tmp/t/MiSTer/N64/Paper Mario (USA).fla", None, &vec![0xFFu8; 131072]).is_none()
    );
}

#[test]
fn n64_blank_controller_pak_is_rejected() {
    assert!(infer_supported_console_slug("/tmp/t/MiSTer/N64/Mario Kart 64 (USA).mpk", None, &vec![0u8; 32768]).is_none());
}

#[test]
fn n64_non_blank_native_media_is_supported() {
    let mut payload = vec![0u8; 512];
    payload[0] = 0x11;
    payload[127] = 0x22;
    payload[511] = 0x33;
    assert_eq!(
        infer_supported_console_slug("/tmp/t/MiSTer/N64/Super Mario 64 (USA).eep", None, &payload).as_deref(),
        Some("n64")
    );
}

#[test]
fn n64_non_blank_controller_pak_is_supported() {
    let mut payload = vec![0u8; 32768];
    payload[0] = 0x5A;
    payload[4096] = 0x01;
    payload[32767] = 0xA5;
    assert_eq!(
        infer_supported_console_slug("/tmp/t/MiSTer/N64/Mario Kart 64 (USA).mpk", None, &payload).as_deref(),
        Some("n64")
    );
}

#[test]
fn n64_non_blank_cpk_controller_pak_is_supported() {
    let mut payload = vec![0u8; 32768];
    payload[0] = 0x5A;
    payload[4096] = 0x01;
    payload[32767] = 0xA5;
    assert_eq!(
        infer_supported_console_slug("/tmp/t/MiSTer/N64/Mario Kart 64 (USA)_1.cpk", None, &payload).as_deref(),
        Some("n64")
    );
}

#[test]
fn n64_retroarch_combined_srm_is_supported() {
    let mut payload = vec![0u8; 0x48800];
    payload[11] = 0x01;
    payload[12] = 0x20;
    payload[0x20800] = 0x42;
    assert_eq!(
        infer_supported_console_slug("/tmp/t/Emulation/saves/n64/Super Mario 64 (USA).srm", None, &payload).as_deref(),
        Some("n64")
    );
}

#[test]
fn wii_data_bin_is_supported_with_title_code_from_parent_folder() {
    let save = "/tmp/t/Super Mario Galaxy 2/SB4P/data.bin";
    let classification = classify_supported_save(save, None, &wii_data_bin_fixture()).unwrap();
    assert_eq!(classification.system_slug, "wii");
    assert!(classification.evidence.contains("titleCode=SB4P"));
    assert_eq!(wii_title_code_from_path(save).as_deref(), Some("SB4P"));
}

#[test]
fn invalid_wii_data_bin_is_rejected_even_with_wii_path_hint() {
    let save = "/tmp/t/private/wii/title/SB4P/data.bin";
    let bytes = vec![0x44; 4096];
    assert!(classify_supported_save(save, None, &bytes).is_none());
    assert_eq!(wii_skip_reason(save, &bytes).as_deref(), Some("skip_invalid_wii_data_bin"));
}

#[test]
fn neogeo_mister_backup_ram_size_is_supported_when_non_blank() {
    let mut payload = vec![0u8; 0x12000];
    payload[16..32].copy_from_slice(b"ABKCPUR MAO  K\x80!");
    assert_eq!(
        infer_supported_console_slug("/tmp/t/MiSTer/NEOGEO/mslug5.sav", None, &payload).as_deref(),
        Some("neogeo")
    );
}

#[test]
fn neogeo_blank_backup_ram_is_rejected() {
    assert!(infer_supported_console_slug("/tmp/t/MiSTer/NEOGEO/doubledr.sav", None, &vec![0xFFu8; 0x12000]).is_none());
}

#[test]
fn save_path_hint_wins_over_wrong_same_stem_rom_match() {
    let save = "/tmp/t/MiSTer/saves/Saturn/Quake (USA).sav";
    let rom = "/tmp/t/MiSTer/games/N64/Quake (USA).z64";
    assert_eq!(
        classify_supported_save(save, Some(rom), &build_valid_saturn_internal_backup_ram())
            .map(|classification| classification.system_slug),
        Some("saturn".to_string())
    );
}

#[test]
fn ps1_dexdrive_is_normalized_for_sync() {
    let raw = build_valid_ps1_memcard();
    let file = encode_ps1_dexdrive(&raw);
    let normalized = normalize_save_bytes_for_sync("/tmp/t/Emulation/saves/duckstation/card.gme", "psx", &file)
        .expect("expected normalized save");
    assert_eq!(normalized.local_container, SaveContainerFormat::Ps1DexDrive);
    assert_eq!(normalized.adapter_profile, SaveAdapterProfile::Ps1DexDrive);
    assert_eq!(normalized.canonical_bytes, raw);
}

#[test]
fn ps1_vmp_roundtrip_conversion_works() {
    let raw = build_valid_ps1_memcard();
    let encoded = encode_ps1_vmp(&raw).unwrap();
    let decoded = decode_ps1_vmp(&encoded).expect("expected valid vmp");
    assert_eq!(decoded, raw);

    let rewritten = encode_download_for_local_container(&raw, SaveContainerFormat::Ps1Vmp).unwrap();
    assert_eq!(rewritten, encoded);
}

#[test]
fn non_ps1_saves_use_identity_adapter() {
    let payload = vec![0x42u8; 8192];
    let normalized = normalize_save_bytes_for_sync("/tmp/t/Nintendo/mario.srm", "snes", &payload)
        .expect("expected normalized save");
    assert_eq!(normalized.local_container, SaveContainerFormat::Native);
    assert_eq!(normalized.adapter_profile, SaveAdapterProfile::Identity);
    assert_eq!(normalized.canonical_bytes, payload);
}

#[test]
fn dexdrive_wrapping_reads_back() {
    let raw = build_valid_ps1_memcard();
    let wrapped = encode_ps1_dexdrive(&raw);
    assert_eq!(wrapped.len(), 3904 + raw.len());
    assert_eq!(decode_ps1_dexdrive(&wrapped), Some(raw.clone()));
    let rewritten = encode_download_for_local_container(&raw, SaveContainerFormat::Ps1DexDrive).unwrap();
    assert_eq!(rewritten, wrapped);
}

#[test]
fn invalid_card_cannot_be_written_to_a_playstation_container() {
    let junk = vec![0x42u8; 8192];
    assert!(encode_download_for_local_container(&junk, SaveContainerFormat::Ps1Raw).is_err());
    assert_eq!(encode_download_for_local_container(&junk, SaveContainerFormat::Native).unwrap(), junk);
}

#[test]
fn vmp_signature_detects_tampering() {
    let raw = build_valid_ps1_memcard();
    let mut encoded = encode_ps1_vmp(&raw).unwrap();
    encoded[0x20] ^= 0xFF;
    assert!(decode_ps1_vmp(&encoded).is_none());
}

#[test]
fn playstation_save_in_no_container_has_no_synced_form() {
    assert!(normalize_save_bytes_for_sync("/tmp/t/psx/card.mcr", "psx", &vec![0x42u8; 8192]).is_none());
}

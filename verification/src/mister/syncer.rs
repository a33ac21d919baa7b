//! The rules of syncing: which runtime a save is written for, where a save
//! goes and under which name, which slot and line it belongs to, and how
//! backend refusals are recognised.
use vstd::prelude::*;
use crate::mister::sources::{
    EmulatorProfile, SourceKind, alnum_lower, alnum_lower_vec, all_sync_systems,
    all_sync_system_list, kind_device_type,
};
use crate::paths::{
    file_name, file_stem, path_file_name, path_file_stem, set_extension, with_extension,
};
use crate::steamdeck::api::RuntimeTarget;
use crate::steamdeck::scanner::{
    SaveAdapterProfile, SaveContainerFormat, ascii_upper, filename_stem, lower_ext,
    path_extension, stem_or_unknown, upper_vec, wii_code_of_path, wii_title_code_from_path,
};
use crate::text::{
    chars_of, concat2, concat3, contains, contains_lit, ends_with, ends_with_lit, eq_lit,
    find_char, first_index, strip_trail, is_upper, lower, lower_char, lower_of, lower_str, lower_vec, owned,
    slice_vec, str_eq, string_of, strip_lead, strip_lead_vec, trim, trim_str, trim_vec,
};

verus! {

/// What a sync run is asked to do.
#[derive(Debug, Clone)]
pub struct SyncOptions {
    pub force_upload: bool,
    pub dry_run: bool,
    pub scan: bool,
    pub deep_scan: bool,
    pub apply_scan: bool,
    pub slot_name: String,
    pub default_source_kind: SourceKind,
}

/// What a sync run did.
#[derive(Debug, Clone, Default)]
pub struct SyncReport {
    pub scanned: usize,
    pub uploaded: usize,
    pub downloaded: usize,
    pub in_sync: usize,
    pub conflicts: usize,
    pub skipped: usize,
    pub errors: usize,
}

// ---------------------------------------------------------------------------
// Which systems a source syncs
// ---------------------------------------------------------------------------

/// Whether a source's system list admits a system: `*` admits every system,
/// otherwise the names are compared ignoring ASCII case; a blank system is
/// never admitted.
pub open spec fn allows_system(systems: Seq<Seq<char>>, slug: Seq<char>) -> bool {
    let clean = lower(trim(slug));
    clean.len() > 0 && exists|i: int|
        0 <= i < systems.len() && (systems[i] == "*"@ || lower(#[trigger] systems[i]) == clean)
}

/// Whether a source with these systems syncs the system `system_slug`.
pub fn source_allows_system(source_systems: &[String], system_slug: &str) -> (r: bool)
    ensures
        r == allows_system(source_systems@.map_values(|s: String| s@), system_slug@),
{
    let ghost sys = source_systems@.map_values(|s: String| s@);
    let t = trim_str(system_slug);
    let clean = lower_vec(t.as_slice());
    if clean.len() == 0 {
        return false;
    }
    let mut i: usize = 0;
    while i < source_systems.len()
        invariant
            0 <= i <= source_systems@.len(),
            sys == source_systems@.map_values(|s: String| s@),
            clean@ == lower(trim(system_slug@)),
            clean@.len() > 0,
            forall|j: int|
                0 <= j < i ==> !(sys[j] == "*"@ || lower(#[trigger] sys[j]) == clean@),
        decreases source_systems@.len() - i,
    {
        let v = chars_of(source_systems[i].as_str());
        assert(sys[i as int] == source_systems@[i as int]@);
        let lv = lower_vec(v.as_slice());
        if eq_lit(v.as_slice(), "*") || crate::text::seq_eq(lv.as_slice(), clean.as_slice()) {
            let ghost l = lower(sys[i as int]);
            assert(sys[i as int] == "*"@ || l == clean@);
            return true;
        }
        i = i + 1;
    }
    false
}

/// Whether cloud saves of a system can be restored to a device.
pub fn supports_cloud_restore_system(system_slug: &str) -> (r: bool)
    ensures
        r == all_sync_systems().contains(system_slug@),
{
    let all = all_sync_system_list();
    let mut i: usize = 0;
    while i < all.len()
        invariant
            0 <= i <= all@.len(),
            all.deep_view() == all_sync_systems(),
            forall|j: int| 0 <= j < i ==> all_sync_systems()[j] != system_slug@,
        decreases all@.len() - i,
    {
        assert(all.deep_view()[i as int] == all@[i as int]@);
        if str_eq(all[i].as_str(), system_slug) {
            return true;
        }
        i = i + 1;
    }
    false
}

pub open spec fn restore_profile(kind: SourceKind, profile: EmulatorProfile) -> EmulatorProfile {
    match kind {
        SourceKind::MisterFpga => EmulatorProfile::Mister,
        SourceKind::RetroArch => EmulatorProfile::RetroArch,
        _ => profile,
    }
}

/// The profile whose conventions a restored cloud save follows: a MiSTer's
/// or RetroArch's own, otherwise the source's.
pub fn effective_profile_for_cloud_restore(
    source_kind: &SourceKind,
    source_profile: &EmulatorProfile,
) -> (r: EmulatorProfile)
    ensures
        r == restore_profile(*source_kind, *source_profile),
{
    match source_kind {
        SourceKind::MisterFpga => EmulatorProfile::Mister,
        SourceKind::RetroArch => EmulatorProfile::RetroArch,
        _ => *source_profile,
    }
}

// ---------------------------------------------------------------------------
// Runtime targets
// ---------------------------------------------------------------------------

/// The device type a save is uploaded as: PlayStation saves by their
/// emulator family, PS2 as `pcsx2`, others by the source kind.
pub open spec fn upload_device_type(kind: SourceKind, profile: EmulatorProfile, slug: Seq<char>) -> Seq<char> {
    if slug == "psx"@ {
        if profile == EmulatorProfile::Mister || kind == SourceKind::MisterFpga {
            "mister"@
        } else {
            "retroarch"@
        }
    } else if slug == "ps2"@ {
        "pcsx2"@
    } else {
        kind_device_type(kind)
    }
}

pub fn helper_device_type_for_upload(
    source_kind: &SourceKind,
    source_profile: &EmulatorProfile,
    system_slug: &str,
) -> (r: &'static str)
    ensures
        r@ == upload_device_type(*source_kind, *source_profile, system_slug@),
{
    if str_eq(system_slug, "psx") {
        return if *source_profile == EmulatorProfile::Mister || *source_kind == SourceKind::MisterFpga {
            "mister"
        } else {
            "retroarch"
        };
    }
    if str_eq(system_slug, "ps2") {
        return "pcsx2";
    }
    source_kind.helper_device_type()
}

/// The backend runtime profile that saves of a system are projected to,
/// for a source's kind and profile and the uploading device type.
pub open spec fn projection_profile(
    kind: SourceKind,
    profile: EmulatorProfile,
    slug: Seq<char>,
    device_type: Seq<char>,
) -> Option<Seq<char>> {
    if slug == "psx"@ {
        if lower(trim(device_type)) == "mister"@ {
            Some("psx/mister"@)
        } else {
            Some("psx/retroarch"@)
        }
    } else if slug == "ps2"@ {
        Some("ps2/pcsx2"@)
    } else if slug == "n64"@ {
        Some(
            match profile {
                EmulatorProfile::Mister => "n64/mister"@,
                EmulatorProfile::RetroArch => "n64/retroarch"@,
                EmulatorProfile::EverDrive => "n64/everdrive"@,
                EmulatorProfile::Project64 => "n64/project64"@,
                EmulatorProfile::MupenFamily => "n64/mupen-family"@,
                _ => if kind == SourceKind::MisterFpga {
                    "n64/mister"@
                } else if kind == SourceKind::RetroArch {
                    "n64/retroarch"@
                } else {
                    "n64/mupen-family"@
                },
            },
        )
    } else if slug == "saturn"@ {
        Some(
            match profile {
                EmulatorProfile::Mister => "saturn/mister"@,
                EmulatorProfile::RetroArch => "saturn/mednafen"@,
                _ => if kind == SourceKind::RetroArch {
                    "saturn/mednafen"@
                } else {
                    "saturn/mister"@
                },
            },
        )
    } else if slug == "snes"@ {
        Some(
            match profile {
                EmulatorProfile::RetroArch => "snes/retroarch-snes9x"@,
                EmulatorProfile::Snes9x => "snes/snes9x"@,
                _ => if kind == SourceKind::RetroArch {
                    "snes/retroarch-snes9x"@
                } else {
                    "snes/snes9x"@
                },
            },
        )
    } else if slug == "nes"@ {
        Some(
            if profile == EmulatorProfile::RetroArch {
                "nes/retroarch-nestopia"@
            } else {
                "nes/fceux"@
            },
        )
    } else if slug == "gba"@ {
        Some(
            if profile == EmulatorProfile::RetroArch {
                "gba/retroarch-mgba"@
            } else {
                "gba/mgba"@
            },
        )
    } else if slug == "master-system"@ {
        Some(
            if profile == EmulatorProfile::RetroArch {
                "sms/retroarch-genesis-plus-gx"@
            } else {
                "sms/genesis-plus-gx"@
            },
        )
    } else if slug == "genesis"@ {
        Some(
            if profile == EmulatorProfile::RetroArch {
                "genesis/retroarch-genesis-plus-gx"@
            } else {
                "genesis/genesis-plus-gx"@
            },
        )
    } else if slug == "game-gear"@ {
        Some(
            if profile == EmulatorProfile::RetroArch {
                "gamegear/retroarch-genesis-plus-gx"@
            } else {
                "gamegear/genesis-plus-gx"@
            },
        )
    } else if slug == "dreamcast"@ {
        Some(
            match profile {
                EmulatorProfile::Mister => "dreamcast/mister"@,
                EmulatorProfile::RetroArch => "dreamcast/retroarch-flycast"@,
                _ => if kind == SourceKind::MisterFpga {
                    "dreamcast/mister"@
                } else if kind == SourceKind::RetroArch {
                    "dreamcast/retroarch-flycast"@
                } else {
                    "dreamcast/flycast"@
                },
            },
        )
    } else {
        None
    }
}

/// Chooses the backend runtime profile for saves of a system.
pub fn projection_runtime_profile_for_system(
    source_kind: &SourceKind,
    source_profile: &EmulatorProfile,
    system_slug: &str,
    device_type: &str,
) -> (r: Option<String>)
    ensures
        match r {
            Some(p) => projection_profile(*source_kind, *source_profile, system_slug@, device_type@)
                == Some(p@),
            None => projection_profile(*source_kind, *source_profile, system_slug@, device_type@) is None,
        },
{
    let is_mister = match source_kind {
        SourceKind::MisterFpga => true,
        _ => false,
    };
    let is_retroarch = match source_kind {
        SourceKind::RetroArch => true,
        _ => false,
    };
    let p = *source_profile;
    let s: &str = if str_eq(system_slug, "psx") {
        let d = lower_vec(trim_str(device_type).as_slice());
        if eq_lit(d.as_slice(), "mister") {
            "psx/mister"
        } else {
            "psx/retroarch"
        }
    } else if str_eq(system_slug, "ps2") {
        "ps2/pcsx2"
    } else if str_eq(system_slug, "n64") {
        match p {
            EmulatorProfile::Mister => "n64/mister",
            EmulatorProfile::RetroArch => "n64/retroarch",
            EmulatorProfile::EverDrive => "n64/everdrive",
            EmulatorProfile::Project64 => "n64/project64",
            EmulatorProfile::MupenFamily => "n64/mupen-family",
            _ => if is_mister {
                "n64/mister"
            } else if is_retroarch {
                "n64/retroarch"
            } else {
                "n64/mupen-family"
            },
        }
    } else if str_eq(system_slug, "saturn") {
        match p {
            EmulatorProfile::Mister => "saturn/mister",
            EmulatorProfile::RetroArch => "saturn/mednafen",
            _ => if is_retroarch {
                "saturn/mednafen"
            } else {
                "saturn/mister"
            },
        }
    } else if str_eq(system_slug, "snes") {
        match p {
            EmulatorProfile::RetroArch => "snes/retroarch-snes9x",
            EmulatorProfile::Snes9x => "snes/snes9x",
            _ => if is_retroarch {
                "snes/retroarch-snes9x"
            } else {
                "snes/snes9x"
            },
        }
    } else if str_eq(system_slug, "nes") {
        if p == EmulatorProfile::RetroArch {
            "nes/retroarch-nestopia"
        } else {
            "nes/fceux"
        }
    } else if str_eq(system_slug, "gba") {
        if p == EmulatorProfile::RetroArch {
            "gba/retroarch-mgba"
        } else {
            "gba/mgba"
        }
    } else if str_eq(system_slug, "master-system") {
        if p == EmulatorProfile::RetroArch {
            "sms/retroarch-genesis-plus-gx"
        } else {
            "sms/genesis-plus-gx"
        }
    } else if str_eq(system_slug, "genesis") {
        if p == EmulatorProfile::RetroArch {
            "genesis/retroarch-genesis-plus-gx"
        } else {
            "genesis/genesis-plus-gx"
        }
    } else if str_eq(system_slug, "game-gear") {
        if p == EmulatorProfile::RetroArch {
            "gamegear/retroarch-genesis-plus-gx"
        } else {
            "gamegear/genesis-plus-gx"
        }
    } else if str_eq(system_slug, "dreamcast") {
        match p {
            EmulatorProfile::Mister => "dreamcast/mister",
            EmulatorProfile::RetroArch => "dreamcast/retroarch-flycast",
            _ => if is_mister {
                "dreamcast/mister"
            } else if is_retroarch {
                "dreamcast/retroarch-flycast"
            } else {
                "dreamcast/flycast"
            },
        }
    } else {
        return None;
    };
    Some(owned(s))
}

/// Reading a system slug into a profile-field name: letters and digits kept
/// (lower-cased), the first letter after a separator upper-cased.
pub open spec fn profile_key_state(s: Seq<char>) -> (Seq<char>, bool)
    decreases s.len(),
{
    if s.len() == 0 {
        (seq![], false)
    } else {
        let (out, up) = profile_key_state(s.drop_last());
        let c = s.last();
        if crate::text::is_alnum(c) {
            if out.len() == 0 {
                (out.push(lower_char(c)), false)
            } else if up {
                (out.push(crate::steamdeck::scanner::upper_char(c)), false)
            } else {
                (out.push(lower_char(c)), up)
            }
        } else {
            (out, true)
        }
    }
}

/// The name of the per-system profile field the backend reads.
pub open spec fn profile_field_key(slug: Seq<char>) -> Seq<char> {
    if slug == "n64"@ {
        "n64Profile"@
    } else if slug == "saturn"@ {
        "saturnFormat"@
    } else {
        let (out, _) = profile_key_state(slug);
        if out.len() == 0 {
            "runtimeProfile"@
        } else {
            out + "Profile"@
        }
    }
}

/// Builds the per-system profile field name (`sega-cd` gives `segaCdProfile`).
pub fn system_profile_field_key(system_slug: &str) -> (r: String)
    ensures
        r@ == profile_field_key(system_slug@),
{
    if str_eq(system_slug, "n64") {
        return owned("n64Profile");
    }
    if str_eq(system_slug, "saturn") {
        return owned("saturnFormat");
    }
    let v = chars_of(system_slug);
    let mut out: Vec<char> = Vec::new();
    let mut up = false;
    let mut i: usize = 0;
    while i < v.len()
        invariant
            0 <= i <= v@.len(),
            (out@, up) == profile_key_state(v@.subrange(0, i as int)),
        decreases v@.len() - i,
    {
        assert(v@.subrange(0, i + 1).drop_last() =~= v@.subrange(0, i as int));
        let c = v[i];
        if crate::text::is_alnum_char(c) {
            if out.len() == 0 {
                out.push(lower_of(c));
                up = false;
            } else if up {
                out.push(crate::steamdeck::scanner::upper_of(c));
                up = false;
            } else {
                out.push(lower_of(c));
            }
        } else {
            up = true;
        }
        i = i + 1;
    }
    assert(v@.subrange(0, v@.len() as int) =~= v@);
    if out.len() == 0 {
        return owned("runtimeProfile");
    }
    let o = string_of(out.as_slice());
    concat2(o.as_str(), "Profile")
}

/// The part of a runtime profile after its first `/`, or all of it.
pub open spec fn profile_tail(p: Seq<char>) -> Seq<char> {
    let i = first_index(p, '/');
    if i >= 0 {
        p.subrange(i + 1, p.len() as int)
    } else {
        p
    }
}

pub open spec fn opt_text(o: Option<String>) -> Option<Seq<char>> {
    match o {
        Some(s) => Some(s@),
        None => None,
    }
}

/// The runtime target of saves of a system: its projection profile, the
/// emulator part of that profile, and the per-system field and value; empty
/// for a blank system or one that is not projected.
pub fn runtime_target_for_system(
    source_kind: &SourceKind,
    source_profile: &EmulatorProfile,
    system_slug: &str,
    device_type: &str,
) -> (r: RuntimeTarget)
    ensures
        ({
            let clean = lower(trim(system_slug@));
            let p = projection_profile(*source_kind, *source_profile, clean, device_type@);
            if clean.len() == 0 || p is None {
                opt_text(r.runtime_profile) is None && opt_text(r.emulator_profile) is None
                    && opt_text(r.system_profile_key) is None && opt_text(r.system_profile_value)
                    is None
            } else {
                opt_text(r.runtime_profile) == p && opt_text(r.emulator_profile) == Some(
                    profile_tail(p->0),
                ) && opt_text(r.system_profile_key) == Some(profile_field_key(clean)) && opt_text(
                    r.system_profile_value,
                ) == p
            }
        }),
{
    let clean = lower_vec(trim_str(system_slug).as_slice());
    let empty = RuntimeTarget {
        runtime_profile: None,
        emulator_profile: None,
        system_profile_key: None,
        system_profile_value: None,
    };
    if clean.len() == 0 {
        return empty;
    }
    let cs = string_of(clean.as_slice());
    let rp = match projection_runtime_profile_for_system(source_kind, source_profile, cs.as_str(), device_type) {
        Some(p) => p,
        None => {
            return empty;
        },
    };
    let rv = chars_of(rp.as_str());
    let name = match find_char(rv.as_slice(), '/') {
        Some(i) => {
            let n = rv.len();
            string_of(slice_vec(rv.as_slice(), i + 1, n).as_slice())
        },
        None => rp.clone(),
    };
    RuntimeTarget {
        runtime_profile: Some(rp.clone()),
        emulator_profile: Some(name),
        system_profile_key: Some(system_profile_field_key(cs.as_str())),
        system_profile_value: Some(rp),
    }
}

// ---------------------------------------------------------------------------
// Extensions and file names
// ---------------------------------------------------------------------------

pub open spec fn cartridge_extension(profile: EmulatorProfile) -> Seq<char> {
    if profile == EmulatorProfile::Mister {
        "sav"@
    } else {
        "srm"@
    }
}

/// The save extension that MiSTer uses for cartridge systems (`sav`), and
/// that software emulators use (`srm`).
pub fn preferred_extension_for_cartridge(source_profile: &EmulatorProfile) -> (r: Option<&'static str>)
    ensures
        r matches Some(e) && e@ == cartridge_extension(*source_profile),
{
    match source_profile {
        EmulatorProfile::Mister => Some("sav"),
        _ => Some("srm"),
    }
}

/// The N64 save extension that a save's size implies: EEPROM, SRAM or
/// FlashRAM; none for other sizes.
pub open spec fn n64_extension(size: Option<u64>) -> Option<Seq<char>> {
    match size {
        Some(s) => if s == 512 || s == 2048 {
            Some("eep"@)
        } else if s == 32768 {
            Some("sra"@)
        } else if s == 131072 {
            Some("fla"@)
        } else {
            None
        },
        None => None,
    }
}

pub fn preferred_extension_for_n64(
    source_kind: &SourceKind,
    source_profile: &EmulatorProfile,
    save_size: Option<u64>,
) -> (r: Option<&'static str>)
    ensures
        match r {
            Some(e) => n64_extension(save_size) == Some(e@),
            None => n64_extension(save_size) is None,
        },
{
    match save_size {
        Some(s) => if s == 512 || s == 2048 {
            Some("eep")
        } else if s == 32768 {
            Some("sra")
        } else if s == 131072 {
            Some("fla")
        } else {
            None
        },
        None => None,
    }
}

pub open spec fn is_cartridge_system(slug: Seq<char>) -> bool {
    slug == "nes"@ || slug == "snes"@ || slug == "gameboy"@ || slug == "gba"@ || slug
        == "genesis"@ || slug == "master-system"@ || slug == "game-gear"@ || slug == "sega-cd"@
        || slug == "sega-32x"@ || slug == "neogeo"@
}

/// The extension a save of a system is kept under on a source.
pub open spec fn preferred_extension(
    profile: EmulatorProfile,
    slug: Seq<char>,
    size: Option<u64>,
) -> Option<Seq<char>> {
    if is_cartridge_system(slug) {
        Some(cartridge_extension(profile))
    } else if slug == "saturn"@ {
        None
    } else if slug == "n64"@ {
        n64_extension(size)
    } else if slug == "wii"@ {
        Some("bin"@)
    } else if slug == "nds"@ || slug == "psp"@ || slug == "psvita"@ || slug == "ps3"@ || slug
        == "ps4"@ || slug == "ps5"@ {
        Some("sav"@)
    } else if slug == "ps2"@ {
        Some("ps2"@)
    } else {
        None
    }
}

/// Chooses the extension a save of a system is kept under on a source.
pub fn preferred_extension_for_system(
    source_kind: &SourceKind,
    source_profile: &EmulatorProfile,
    system_slug: &str,
    save_size: Option<u64>,
) -> (r: Option<&'static str>)
    ensures
        match r {
            Some(e) => preferred_extension(*source_profile, system_slug@, save_size) == Some(e@),
            None => preferred_extension(*source_profile, system_slug@, save_size) is None,
        },
{
    let s = chars_of(system_slug);
    let s = s.as_slice();
    if eq_lit(s, "nes") || eq_lit(s, "snes") || eq_lit(s, "gameboy") || eq_lit(s, "gba")
        || eq_lit(s, "genesis") || eq_lit(s, "master-system") || eq_lit(s, "game-gear")
        || eq_lit(s, "sega-cd") || eq_lit(s, "sega-32x") || eq_lit(s, "neogeo") {
        preferred_extension_for_cartridge(source_profile)
    } else if eq_lit(s, "saturn") {
        None
    } else if eq_lit(s, "n64") {
        preferred_extension_for_n64(source_kind, source_profile, save_size)
    } else if eq_lit(s, "wii") {
        Some("bin")
    } else if eq_lit(s, "nds") || eq_lit(s, "psp") || eq_lit(s, "psvita") || eq_lit(s, "ps3")
        || eq_lit(s, "ps4") || eq_lit(s, "ps5") {
        Some("sav")
    } else if eq_lit(s, "ps2") {
        Some("ps2")
    } else {
        None
    }
}

/// The lower-cased extension of a save path.
pub fn save_extension(path: &str) -> (r: Option<String>)
    ensures
        match r {
            Some(e) => lower_ext(path@) == Some(e@),
            None => lower_ext(path@) is None,
        },
{
    match path_extension(path) {
        Some(e) => Some(string_of(e.as_slice())),
        None => None,
    }
}

/// The native N64 save extensions.
pub open spec fn is_native_n64_ext(e: Option<Seq<char>>) -> bool {
    match e {
        Some(x) => x == "eep"@ || x == "fla"@ || x == "sra"@ || x == "mpk"@ || x == "cpk"@,
        None => false,
    }
}

pub fn is_native_n64_extension(extension: Option<&str>) -> (r: bool)
    ensures
        r == is_native_n64_ext(
            match extension {
                Some(e) => Some(e@),
                None => None,
            },
        ),
{
    match extension {
        Some(e) => str_eq(e, "eep") || str_eq(e, "fla") || str_eq(e, "sra") || str_eq(e, "mpk")
            || str_eq(e, "cpk"),
        None => false,
    }
}

/// Where a save is kept on a source: natively stored saves of a known
/// system take the system's preferred extension (native N64 media keep
/// theirs); other saves stay where they are.
pub open spec fn preferred_path(
    path: Seq<char>,
    profile: EmulatorProfile,
    slug: Option<Seq<char>>,
    container: SaveContainerFormat,
    size: Option<u64>,
) -> Seq<char> {
    if container != SaveContainerFormat::Native {
        path
    } else {
        match slug {
            None => path,
            Some(s) => {
                let cur = lower_ext(path);
                if s == "n64"@ && is_native_n64_ext(cur) {
                    path
                } else {
                    match preferred_extension(profile, s, size) {
                        None => path,
                        Some(e) => if cur == Some(e) {
                            path
                        } else {
                            with_extension(path, e)
                        },
                    }
                }
            },
        }
    }
}

/// Chooses where a save is kept on a source.
pub fn preferred_save_path(
    save_path: &str,
    source_kind: &SourceKind,
    source_profile: &EmulatorProfile,
    system_slug: Option<&str>,
    local_container: SaveContainerFormat,
    canonical_size: Option<u64>,
) -> (r: String)
    ensures
        r@ == preferred_path(
            save_path@,
            *source_profile,
            match system_slug {
                Some(s) => Some(s@),
                None => None,
            },
            local_container,
            canonical_size,
        ),
{
    if local_container != SaveContainerFormat::Native {
        return owned(save_path);
    }
    let slug = match system_slug {
        None => {
            return owned(save_path);
        },
        Some(s) => s,
    };
    let cur = save_extension(save_path);
    let native = match &cur {
        Some(e) => is_native_n64_extension(Some(e.as_str())),
        None => is_native_n64_extension(None),
    };
    if str_eq(slug, "n64") && native {
        return owned(save_path);
    }
    let pref = match preferred_extension_for_system(source_kind, source_profile, slug, canonical_size) {
        None => {
            return owned(save_path);
        },
        Some(e) => e,
    };
    match &cur {
        Some(c) => {
            if str_eq(c.as_str(), pref) {
                return owned(save_path);
            }
        },
        None => {},
    }
    set_extension(save_path, pref)
}

/// The file name a save is uploaded under: `data.bin` for Wii saves, the
/// file's own name otherwise (`save.bin` when it has none).
pub open spec fn upload_name(path: Seq<char>, slug: Seq<char>) -> Seq<char> {
    if slug == "wii"@ {
        "data.bin"@
    } else {
        match file_name(path) {
            Some(n) => n,
            None => "save.bin"@,
        }
    }
}

pub fn upload_filename_for_sync(save_path: &str, system_slug: &str) -> (r: String)
    ensures
        r@ == upload_name(save_path@, system_slug@),
{
    if str_eq(system_slug, "wii") {
        return owned("data.bin");
    }
    match path_file_name(save_path) {
        Some(n) => string_of(n.as_slice()),
        None => owned("save.bin"),
    }
}

/// The file name with its extension replaced; `None` for a blank extension
/// or a name without a stem.
pub open spec fn renamed_with_extension(filename: Seq<char>, ext: Seq<char>) -> Option<Seq<char>> {
    let t = lower(strip_lead(trim(ext), '.'));
    if t.len() == 0 {
        None
    } else {
        match file_stem(filename) {
            Some(stem) => Some(stem + "."@ + t),
            None => None,
        }
    }
}

pub fn filename_with_extension(filename: &str, target_ext: &str) -> (r: Option<String>)
    ensures
        match r {
            Some(n) => renamed_with_extension(filename@, target_ext@) == Some(n@),
            None => renamed_with_extension(filename@, target_ext@) is None,
        },
{
    let t = trim_str(target_ext);
    let t = strip_lead_vec(t.as_slice(), '.');
    let t = lower_vec(t.as_slice());
    if t.len() == 0 {
        return None;
    }
    let stem = match path_file_stem(filename) {
        Some(s) => s,
        None => {
            return None;
        },
    };
    let st = string_of(stem.as_slice());
    let ext = string_of(t.as_slice());
    Some(concat3(st.as_str(), ".", ext.as_str()))
}

/// The adapter used for each local container.
pub open spec fn adapter_for(c: SaveContainerFormat) -> SaveAdapterProfile {
    match c {
        SaveContainerFormat::Native => SaveAdapterProfile::Identity,
        SaveContainerFormat::Ps1Raw => SaveAdapterProfile::Ps1Raw,
        SaveContainerFormat::Ps1DexDrive => SaveAdapterProfile::Ps1DexDrive,
        SaveContainerFormat::Ps1Vmp => SaveAdapterProfile::Ps1Vmp,
    }
}

pub fn default_adapter_profile_for_container(container: SaveContainerFormat) -> (r: SaveAdapterProfile)
    ensures
        r == adapter_for(container),
{
    match container {
        SaveContainerFormat::Native => SaveAdapterProfile::Identity,
        SaveContainerFormat::Ps1Raw => SaveAdapterProfile::Ps1Raw,
        SaveContainerFormat::Ps1DexDrive => SaveAdapterProfile::Ps1DexDrive,
        SaveContainerFormat::Ps1Vmp => SaveAdapterProfile::Ps1Vmp,
    }
}

// ---------------------------------------------------------------------------
// Memory-card slots and sync lines
// ---------------------------------------------------------------------------

/// The PlayStation memory-card slot that a text names, if any.
pub open spec fn ps_slot(value: Seq<char>) -> Option<Seq<char>> {
    let t = lower(trim(value));
    if t.len() == 0 || t == "default"@ {
        None
    } else if contains(t, "memory card 1"@) || contains(t, "memory_card_1"@) || contains(
        t,
        "slot 1"@,
    ) || contains(t, "slot1"@) || contains(t, "card 1"@) || contains(t, "card1"@) {
        Some("Memory Card 1"@)
    } else if contains(t, "memory card 2"@) || contains(t, "memory_card_2"@) || contains(
        t,
        "slot 2"@,
    ) || contains(t, "slot2"@) || contains(t, "card 2"@) || contains(t, "card2"@) {
        Some("Memory Card 2"@)
    } else if contains(t, "mcd001"@) || contains(t, "mcd1"@) {
        Some("Memory Card 1"@)
    } else if contains(t, "mcd002"@) || contains(t, "mcd2"@) {
        Some("Memory Card 2"@)
    } else {
        None
    }
}

/// Reads a PlayStation memory-card slot from a slot setting or file name.
pub fn parse_playstation_slot(value: &str) -> (r: Option<String>)
    ensures
        match r {
            Some(s) => ps_slot(value@) == Some(s@),
            None => ps_slot(value@) is None,
        },
{
    let t = lower_vec(trim_str(value).as_slice());
    let t = t.as_slice();
    if t.len() == 0 || eq_lit(t, "default") {
        return None;
    }
    if contains_lit(t, "memory card 1") || contains_lit(t, "memory_card_1") || contains_lit(
        t,
        "slot 1",
    ) || contains_lit(t, "slot1") || contains_lit(t, "card 1") || contains_lit(t, "card1") {
        return Some(owned("Memory Card 1"));
    }
    if contains_lit(t, "memory card 2") || contains_lit(t, "memory_card_2") || contains_lit(
        t,
        "slot 2",
    ) || contains_lit(t, "slot2") || contains_lit(t, "card 2") || contains_lit(t, "card2") {
        return Some(owned("Memory Card 2"));
    }
    if contains_lit(t, "mcd001") || contains_lit(t, "mcd1") {
        return Some(owned("Memory Card 1"));
    }
    if contains_lit(t, "mcd002") || contains_lit(t, "mcd2") {
        return Some(owned("Memory Card 2"));
    }
    None
}

/// The slot a PlayStation save's path names, or `Memory Card 1`.
pub open spec fn ps_slot_of_path(path: Seq<char>) -> Seq<char> {
    match ps_slot(lower(path)) {
        Some(s) => s,
        None => "Memory Card 1"@,
    }
}

pub fn infer_playstation_slot_from_path(path: &str) -> (r: String)
    ensures
        r@ == ps_slot_of_path(path@),
{
    let l = string_of(lower_str(path).as_slice());
    match parse_playstation_slot(l.as_str()) {
        Some(s) => s,
        None => owned("Memory Card 1"),
    }
}

pub open spec fn bank_char(b: int) -> char {
    if b == 0 {
        'A'
    } else if b == 1 {
        'B'
    } else if b == 2 {
        'C'
    } else {
        'D'
    }
}

pub open spec fn port_char(s: int) -> char {
    if s == 0 {
        '1'
    } else if s == 1 {
        '2'
    } else if s == 2 {
        '3'
    } else {
        '4'
    }
}

/// The `k`-th VMU slot name, in the order A1..A4, B1..B4, C1..C4, D1..D4.
pub open spec fn vmu_slot(k: int) -> Seq<char> {
    seq![bank_char(k / 4), port_char(k % 4)]
}

/// The first VMU slot name from the `k`-th on that occurs in `u`.
pub open spec fn vmu_slot_search(u: Seq<char>, k: int) -> Option<Seq<char>>
    decreases 16 - k,
{
    if k >= 16 || k < 0 {
        None
    } else if contains(u, vmu_slot(k)) {
        Some(vmu_slot(k))
    } else {
        vmu_slot_search(u, k + 1)
    }
}

/// The Dreamcast VMU slot (`A1`..`D4`) that a text names, if any.
pub open spec fn dc_slot(value: Seq<char>) -> Option<Seq<char>> {
    let u = ascii_upper(trim(value));
    if u.len() == 0 || u == "DEFAULT"@ {
        None
    } else {
        vmu_slot_search(u, 0)
    }
}

fn bank_of(b: usize) -> (c: char)
    ensures
        c == bank_char(b as int),
{
    if b == 0 {
        'A'
    } else if b == 1 {
        'B'
    } else if b == 2 {
        'C'
    } else {
        'D'
    }
}

fn port_of(s: usize) -> (c: char)
    ensures
        c == port_char(s as int),
{
    if s == 0 {
        '1'
    } else if s == 1 {
        '2'
    } else if s == 2 {
        '3'
    } else {
        '4'
    }
}

/// Reads a Dreamcast VMU slot from a slot setting or file name.
pub fn parse_dreamcast_slot(value: &str) -> (r: Option<String>)
    ensures
        match r {
            Some(s) => dc_slot(value@) == Some(s@),
            None => dc_slot(value@) is None,
        },
{
    let u = upper_vec(trim_str(value).as_slice());
    if u.len() == 0 || eq_lit(u.as_slice(), "DEFAULT") {
        return None;
    }
    let mut k: usize = 0;
    while k < 16
        invariant
            0 <= k <= 16,
            u@ == ascii_upper(trim(value@)),
            u@.len() > 0,
            u@ != "DEFAULT"@,
            dc_slot(value@) == vmu_slot_search(u@, k as int),
        decreases 16 - k,
    {
        let mut needle: Vec<char> = Vec::new();
        needle.push(bank_of(k / 4));
        needle.push(port_of(k % 4));
        assert(needle@ =~= vmu_slot(k as int));
        if crate::text::contains_exec(u.as_slice(), needle.as_slice()) {
            return Some(string_of(needle.as_slice()));
        }
        k = k + 1;
    }
    None
}

/// The VMU slot a Dreamcast save's path names, or `A1`.
pub open spec fn dc_slot_of_path(path: Seq<char>) -> Seq<char> {
    match dc_slot(ascii_upper(path)) {
        Some(s) => s,
        None => "A1"@,
    }
}

pub fn infer_dreamcast_slot_from_path(path: &str) -> (r: String)
    ensures
        r@ == dc_slot_of_path(path@),
{
    let u = string_of(upper_vec(chars_of(path).as_slice()).as_slice());
    match parse_dreamcast_slot(u.as_str()) {
        Some(s) => s,
        None => owned("A1"),
    }
}

/// The slot of a Wii save: `<CODE>/data.bin` when the path holds a title
/// code, else the file name, else `data.bin`.
pub open spec fn wii_slot_of_path(path: Seq<char>) -> Seq<char> {
    match wii_code_of_path(path) {
        Some(c) => c + "/data.bin"@,
        None => match file_name(path) {
            Some(n) => n,
            None => "data.bin"@,
        },
    }
}

pub fn infer_wii_slot_from_path(path: &str) -> (r: String)
    ensures
        r@ == wii_slot_of_path(path@),
{
    match wii_title_code_from_path(path) {
        Some(c) => concat2(c.as_str(), "/data.bin"),
        None => match path_file_name(path) {
            Some(n) => string_of(n.as_slice()),
            None => owned("data.bin"),
        },
    }
}

pub open spec fn is_playstation(slug: Seq<char>) -> bool {
    slug == "psx"@ || slug == "ps2"@
}

/// The slot a save is synced under: PlayStation and Dreamcast saves by the
/// configured slot when it names one, else by their path; Wii saves by
/// their path; others by the configured slot.
pub open spec fn sync_slot(slug: Seq<char>, path: Seq<char>, configured: Seq<char>) -> Seq<char> {
    if is_playstation(slug) {
        match ps_slot(configured) {
            Some(s) => s,
            None => ps_slot_of_path(path),
        }
    } else if slug == "dreamcast"@ {
        match dc_slot(configured) {
            Some(s) => s,
            None => dc_slot_of_path(path),
        }
    } else if slug == "wii"@ {
        wii_slot_of_path(path)
    } else {
        configured
    }
}

pub fn resolve_slot_name_for_sync(system_slug: &str, save_path: &str, configured_slot: &str) -> (r: String)
    ensures
        r@ == sync_slot(system_slug@, save_path@, configured_slot@),
{
    if str_eq(system_slug, "psx") || str_eq(system_slug, "ps2") {
        return match parse_playstation_slot(configured_slot) {
            Some(s) => s,
            None => infer_playstation_slot_from_path(save_path),
        };
    }
    if str_eq(system_slug, "dreamcast") {
        return match parse_dreamcast_slot(configured_slot) {
            Some(s) => s,
            None => infer_dreamcast_slot_from_path(save_path),
        };
    }
    if str_eq(system_slug, "wii") {
        return infer_wii_slot_from_path(save_path);
    }
    owned(configured_slot)
}

/// Each space replaced by `-`.
pub open spec fn dash_spaces(s: Seq<char>) -> Seq<char> {
    s.map_values(|c: char| if c == ' ' { '-' } else { c })
}

/// The sync line of a PlayStation card: system, device and the slot
/// (trimmed, lower-cased, spaces as `-`).
pub open spec fn ps_line_key(slug: Seq<char>, device: Seq<char>, slot: Seq<char>) -> Seq<char> {
    "ps-line:"@ + slug + ":"@ + device + ":"@ + dash_spaces(lower(trim(slot)))
}

pub fn playstation_line_key(system_slug: &str, device_type: &str, slot_name: &str) -> (r: String)
    ensures
        r@ == ps_line_key(system_slug@, device_type@, slot_name@),
{
    let l = lower_vec(trim_str(slot_name).as_slice());
    let mut out: Vec<char> = Vec::new();
    let mut i: usize = 0;
    while i < l.len()
        invariant
            0 <= i <= l@.len(),
            out@ == dash_spaces(l@.subrange(0, i as int)),
        decreases l@.len() - i,
    {
        out.push(if l[i] == ' ' { '-' } else { l[i] });
        i = i + 1;
        assert(out@ =~= dash_spaces(l@.subrange(0, i as int)));
    }
    assert(l@.subrange(0, l@.len() as int) =~= l@);
    let slot = string_of(out.as_slice());
    let mut r = concat3("ps-line:", system_slug, ":");
    r.append(device_type);
    r.append(":");
    r.append(slot.as_str());
    r
}

/// The sync line of a Dreamcast VMU: system, device and lower-cased slot.
pub open spec fn dc_line_key(slug: Seq<char>, device: Seq<char>, slot: Seq<char>) -> Seq<char> {
    "dc-line:"@ + slug + ":"@ + device + ":"@ + lower(trim(slot))
}

pub fn dreamcast_line_key(system_slug: &str, device_type: &str, slot_name: &str) -> (r: String)
    ensures
        r@ == dc_line_key(system_slug@, device_type@, slot_name@),
{
    let slot = string_of(lower_vec(trim_str(slot_name).as_slice()).as_slice());
    let mut r = concat3("dc-line:", system_slug, ":");
    r.append(device_type);
    r.append(":");
    r.append(slot.as_str());
    r
}

/// A Wii slot normalized for a line key: trimmed, lower-cased, `\` as `/`
/// and spaces as `-`.
pub open spec fn wii_slot_token(s: Seq<char>) -> Seq<char> {
    lower(trim(s)).map_values(|c: char| if c == '\\' { '/' } else if c == ' ' { '-' } else { c })
}

/// The sync line of a Wii save: by title code (upper-cased) when one is
/// known, else by slot.
pub open spec fn wii_line(title: Option<Seq<char>>, slot: Seq<char>) -> Seq<char> {
    "wii-title:"@ + match title {
        Some(t) => if trim(t).len() > 0 {
            ascii_upper(trim(t))
        } else {
            wii_slot_token(slot)
        },
        None => wii_slot_token(slot),
    }
}

pub fn wii_line_key(title_code: Option<&str>, slot_name: &str) -> (r: String)
    ensures
        r@ == wii_line(
            match title_code {
                Some(t) => Some(t@),
                None => None,
            },
            slot_name@,
        ),
{
    let from_title: Option<Vec<char>> = match title_code {
        Some(t) => {
            let tt = trim_str(t);
            if tt.len() > 0 {
                Some(upper_vec(tt.as_slice()))
            } else {
                None
            }
        },
        None => None,
    };
    let token = match from_title {
        Some(u) => u,
        None => {
            let l = lower_vec(trim_str(slot_name).as_slice());
            let mut out: Vec<char> = Vec::new();
            let mut i: usize = 0;
            while i < l.len()
                invariant
                    0 <= i <= l@.len(),
                    out@ == l@.subrange(0, i as int).map_values(
                        |c: char|
                            if c == '\\' {
                                '/'
                            } else if c == ' ' {
                                '-'
                            } else {
                                c
                            },
                    ),
                decreases l@.len() - i,
            {
                let c = l[i];
                out.push(
                    if c == '\\' {
                        '/'
                    } else if c == ' ' {
                        '-'
                    } else {
                        c
                    },
                );
                i = i + 1;
                assert(out@ =~= l@.subrange(0, i as int).map_values(
                    |c: char|
                        if c == '\\' {
                            '/'
                        } else if c == ' ' {
                            '-'
                        } else {
                            c
                        },
                ));
            }
            assert(l@.subrange(0, l@.len() as int) =~= l@);
            out
        },
    };
    let t = string_of(token.as_slice());
    concat2("wii-title:", t.as_str())
}

/// The key that picks one save per game: `wii:<code>` for a Wii
/// `data.bin`, else the lower-cased file stem.
pub open spec fn selection_key(path: Seq<char>) -> Seq<char> {
    let is_data_bin = match file_name(path) {
        Some(n) => lower(n) == "data.bin"@,
        None => false,
    };
    if is_data_bin && wii_code_of_path(path) is Some {
        "wii:"@ + lower(wii_code_of_path(path)->0)
    } else {
        lower(stem_or_unknown(path))
    }
}

pub fn save_selection_key(save_path: &str) -> (r: String)
    ensures
        r@ == selection_key(save_path@),
{
    let is_data_bin = match path_file_name(save_path) {
        Some(n) => eq_lit(lower_vec(n.as_slice()).as_slice(), "data.bin"),
        None => false,
    };
    if is_data_bin {
        match wii_title_code_from_path(save_path) {
            Some(code) => {
                let l = string_of(lower_str(code.as_str()).as_slice());
                return concat2("wii:", l.as_str());
            },
            None => {},
        }
    }
    let stem = filename_stem(save_path);
    string_of(lower_str(stem.as_str()).as_slice())
}

// ---------------------------------------------------------------------------
// Which emulator wrote a save
// ---------------------------------------------------------------------------

/// The emulator that a save's path points to, if any.
pub open spec fn path_profile(slug: Seq<char>, path: Seq<char>) -> Option<EmulatorProfile> {
    let l = lower(path);
    if slug == "n64"@ && (contains(l, "project64"@) || contains(l, "project-64"@) || contains(
        l,
        "pj64"@,
    )) {
        Some(EmulatorProfile::Project64)
    } else if slug == "n64"@ && (contains(l, "mupen"@) || contains(l, "mupen64plus"@) || contains(
        l,
        "rmg"@,
    ) || contains(l, "rosalie"@)) {
        Some(EmulatorProfile::MupenFamily)
    } else if slug == "n64"@ && (contains(l, "everdrive"@) || contains(l, "ever-drive"@)) {
        Some(EmulatorProfile::EverDrive)
    } else if slug == "snes"@ && contains(l, "zsnes"@) {
        Some(EmulatorProfile::Zsnes)
    } else if slug == "snes"@ && contains(l, "snes9x"@) {
        Some(EmulatorProfile::Snes9x)
    } else if contains(l, "retroarch"@) || contains(l, "/retroarch/"@) || contains(
        l,
        "\\retroarch\\"@,
    ) || contains(l, "/emulation/saves/"@) || contains(l, "\\emulation\\saves\\"@) {
        Some(EmulatorProfile::RetroArch)
    } else if contains(l, "/media/fat/"@) || contains(l, "\\media\\fat\\"@) || contains(
        l,
        "/mister/"@,
    ) || contains(l, "\\mister\\"@) {
        Some(EmulatorProfile::Mister)
    } else {
        None
    }
}

/// Infers the emulator from a save's path.
pub fn infer_profile_from_path(system_slug: &str, save_path: &str) -> (r: Option<EmulatorProfile>)
    ensures
        r == path_profile(system_slug@, save_path@),
{
    let l = lower_str(save_path);
    let l = l.as_slice();
    let n64 = str_eq(system_slug, "n64");
    let snes = str_eq(system_slug, "snes");
    if n64 && (contains_lit(l, "project64") || contains_lit(l, "project-64") || contains_lit(l, "pj64")) {
        return Some(EmulatorProfile::Project64);
    }
    if n64 && (contains_lit(l, "mupen") || contains_lit(l, "mupen64plus") || contains_lit(l, "rmg")
        || contains_lit(l, "rosalie")) {
        return Some(EmulatorProfile::MupenFamily);
    }
    if n64 && (contains_lit(l, "everdrive") || contains_lit(l, "ever-drive")) {
        return Some(EmulatorProfile::EverDrive);
    }
    if snes && contains_lit(l, "zsnes") {
        return Some(EmulatorProfile::Zsnes);
    }
    if snes && contains_lit(l, "snes9x") {
        return Some(EmulatorProfile::Snes9x);
    }
    if contains_lit(l, "retroarch") || contains_lit(l, "/retroarch/") || contains_lit(l, "\\retroarch\\")
        || contains_lit(l, "/emulation/saves/") || contains_lit(l, "\\emulation\\saves\\") {
        return Some(EmulatorProfile::RetroArch);
    }
    if contains_lit(l, "/media/fat/") || contains_lit(l, "\\media\\fat\\") || contains_lit(l, "/mister/")
        || contains_lit(l, "\\mister\\") {
        return Some(EmulatorProfile::Mister);
    }
    None
}

/// The emulator a save follows: a MiSTer's or RetroArch's own; a source's
/// configured profile unless generic; else as the path suggests.
pub open spec fn save_profile(
    kind: SourceKind,
    profile: EmulatorProfile,
    slug: Seq<char>,
    path: Seq<char>,
) -> EmulatorProfile {
    if kind == SourceKind::MisterFpga {
        EmulatorProfile::Mister
    } else if kind == SourceKind::RetroArch {
        EmulatorProfile::RetroArch
    } else if profile != EmulatorProfile::Generic {
        profile
    } else {
        match path_profile(slug, path) {
            Some(p) => p,
            None => profile,
        }
    }
}

pub fn effective_profile_for_save(
    source_kind: &SourceKind,
    source_profile: &EmulatorProfile,
    system_slug: &str,
    save_path: &str,
) -> (r: EmulatorProfile)
    ensures
        r == save_profile(*source_kind, *source_profile, system_slug@, save_path@),
{
    match source_kind {
        SourceKind::MisterFpga => {
            return EmulatorProfile::Mister;
        },
        SourceKind::RetroArch => {
            return EmulatorProfile::RetroArch;
        },
        _ => {},
    }
    if *source_profile != EmulatorProfile::Generic {
        return *source_profile;
    }
    match infer_profile_from_path(system_slug, save_path) {
        Some(p) => p,
        None => *source_profile,
    }
}

// ---------------------------------------------------------------------------
// Recognising backend refusals by their message
// ---------------------------------------------------------------------------

/// An old backend refusing a 512-byte N64 EEPROM as the latest save.
pub open spec fn legacy_n64_latest_mismatch(message: Seq<char>, slug: Seq<char>) -> bool {
    let m = lower(message);
    slug == "n64"@ && contains(m, "n64 canonical payload size"@) && contains(
        m,
        "does not match expected 2048"@,
    ) && contains(m, "for eeprom"@)
}

pub fn is_legacy_n64_latest_mismatch(message: &str, system_slug: &str) -> (r: bool)
    ensures
        r == legacy_n64_latest_mismatch(message@, system_slug@),
{
    if !str_eq(system_slug, "n64") {
        return false;
    }
    let m = lower_str(message);
    let m = m.as_slice();
    contains_lit(m, "n64 canonical payload size") && contains_lit(m, "does not match expected 2048")
        && contains_lit(m, "for eeprom")
}

/// The backend failing because a stored save's payload file is gone.
pub open spec fn missing_cloud_payload(message: Seq<char>) -> bool {
    let m = lower(message);
    (contains(m, "status=500 internal server error"@) || contains(m, "status=404 not found"@)) && (
    contains(m, "payload"@) || contains(m, "save payload file is missing on server"@) || contains(
        m,
        "missing payload"@,
    )) && (contains(m, "no such file or directory"@) || contains(m, "missing on server"@))
}

pub fn is_missing_cloud_payload_reference(message: &str) -> (r: bool)
    ensures
        r == missing_cloud_payload(message@),
{
    let m = lower_str(message);
    let m = m.as_slice();
    let status_match = contains_lit(m, "status=500 internal server error") || contains_lit(
        m,
        "status=404 not found",
    );
    if !status_match {
        return false;
    }
    let payload_hint = contains_lit(m, "payload") || contains_lit(
        m,
        "save payload file is missing on server",
    ) || contains_lit(m, "missing payload");
    let missing_hint = contains_lit(m, "no such file or directory") || contains_lit(
        m,
        "missing on server",
    );
    payload_hint && missing_hint
}

/// The backend refusing an N64 controller pak that holds no saves.
pub open spec fn empty_controller_pak_rejection(message: Seq<char>, slug: Seq<char>) -> bool {
    let m = lower(message);
    slug == "n64"@ && (contains(m, "status=422 unprocessable entity"@) || contains(
        m,
        "status=400 bad request"@,
    )) && (contains(m, "controller-pak"@) || contains(m, "cpk"@)) && (contains(
        m,
        "does not contain any save entries"@,
    ) || contains(m, "no save entries"@) || contains(m, "empty controller pak"@))
}

pub fn is_empty_n64_controller_pak_rejection(message: &str, system_slug: &str) -> (r: bool)
    ensures
        r == empty_controller_pak_rejection(message@, system_slug@),
{
    if !str_eq(system_slug, "n64") {
        return false;
    }
    let m = lower_str(message);
    let m = m.as_slice();
    let status_match = contains_lit(m, "status=422 unprocessable entity") || contains_lit(
        m,
        "status=400 bad request",
    );
    let pak_hint = contains_lit(m, "controller-pak") || contains_lit(m, "cpk");
    let empty_hint = contains_lit(m, "does not contain any save entries") || contains_lit(
        m,
        "no save entries",
    ) || contains_lit(m, "empty controller pak");
    status_match && pak_hint && empty_hint
}

/// The backend having no PlayStation projection of a save.
pub open spec fn playstation_projection_unavailable(message: Seq<char>, slug: Seq<char>) -> bool {
    let m = lower(message);
    is_playstation(slug) && (contains(m, "status=400 bad request"@) || contains(
        m,
        "status=404 not found"@,
    ) || contains(m, "status=422 unprocessable entity"@)) && contains(
        m,
        "playstation projection"@,
    ) && (contains(m, "not found"@) || contains(m, "not a playstation projection"@))
}

pub fn is_playstation_projection_unavailable(message: &str, system_slug: &str) -> (r: bool)
    ensures
        r == playstation_projection_unavailable(message@, system_slug@),
{
    if !(str_eq(system_slug, "psx") || str_eq(system_slug, "ps2")) {
        return false;
    }
    let m = lower_str(message);
    let m = m.as_slice();
    let status_match = contains_lit(m, "status=400 bad request") || contains_lit(
        m,
        "status=404 not found",
    ) || contains_lit(m, "status=422 unprocessable entity");
    let projection_hint = contains_lit(m, "playstation projection");
    let unavailable_hint = contains_lit(m, "not found") || contains_lit(
        m,
        "not a playstation projection",
    );
    status_match && projection_hint && unavailable_hint
}

/// The runtime profile a target names: its system profile value, else its
/// runtime profile, else nothing.
pub open spec fn target_profile(t: RuntimeTarget) -> Seq<char> {
    match opt_text(t.system_profile_value) {
        Some(v) => v,
        None => match opt_text(t.runtime_profile) {
            Some(v) => v,
            None => seq![],
        },
    }
}

/// An old backend refusing a MiSTer N64 controller pak uploaded as `.cpk`,
/// which it takes as `.mpk`.
pub open spec fn retry_cpk_as_mpk(
    message: Seq<char>,
    slug: Seq<char>,
    target: RuntimeTarget,
    filename: Seq<char>,
) -> bool {
    let m = lower(message);
    slug == "n64"@ && ends_with(lower(filename), ".cpk"@) && target_profile(target)
        == "n64/mister"@ && contains(m, "status=422 unprocessable entity"@) && contains(
        m,
        "unsupported n64 upload form for n64/mister"@,
    ) && contains(m, ".cpk"@)
}

pub fn should_retry_n64_mister_cpk_as_mpk(
    message: &str,
    system_slug: &str,
    runtime_target: &RuntimeTarget,
    filename: &str,
) -> (r: bool)
    ensures
        r == retry_cpk_as_mpk(message@, system_slug@, *runtime_target, filename@),
{
    if !str_eq(system_slug, "n64") {
        return false;
    }
    if !ends_with_lit(lower_str(filename).as_slice(), ".cpk") {
        return false;
    }
    let is_mister_profile = match &runtime_target.system_profile_value {
        Some(v) => str_eq(v.as_str(), "n64/mister"),
        None => match &runtime_target.runtime_profile {
            Some(v) => str_eq(v.as_str(), "n64/mister"),
            None => false,
        },
    };
    proof {
        reveal_strlit("n64/mister");
        assert("n64/mister"@.len() == 10);
        assert(Seq::<char>::empty() != "n64/mister"@);
    }
    assert(is_mister_profile == (target_profile(*runtime_target) == "n64/mister"@));
    if !is_mister_profile {
        return false;
    }
    let m = lower_str(message);
    let m = m.as_slice();
    contains_lit(m, "status=422 unprocessable entity") && contains_lit(
        m,
        "unsupported n64 upload form for n64/mister",
    ) && contains_lit(m, ".cpk")
}

// ---------------------------------------------------------------------------
// File names and system folders for restored saves
// ---------------------------------------------------------------------------

pub open spec fn is_unsafe_name_char(c: char) -> bool {
    (c as u32) < 0x20 || (c as u32) == 0x7f || c == '/' || c == '\\' || c == ':' || c == '*'
        || c == '?' || c == '"' || c == '<' || c == '>' || c == '|'
}

/// A file name made safe: trimmed, control and reserved characters as `_`,
/// trimmed again and stripped of dots at both ends; `save` if nothing is
/// left.
pub open spec fn safe_file_name(value: Seq<char>) -> Seq<char> {
    let mapped = trim(value).map_values(|c: char| if is_unsafe_name_char(c) { '_' } else { c });
    let t = strip_trail(strip_lead(trim(mapped), '.'), '.');
    if t.len() == 0 {
        "save"@
    } else {
        t
    }
}

pub fn sanitize_filename(value: &str) -> (r: String)
    ensures
        r@ == safe_file_name(value@),
{
    let t = trim_str(value);
    let mut out: Vec<char> = Vec::new();
    let mut i: usize = 0;
    while i < t.len()
        invariant
            0 <= i <= t@.len(),
            out@ == t@.subrange(0, i as int).map_values(
                |c: char|
                    if is_unsafe_name_char(c) {
                        '_'
                    } else {
                        c
                    },
            ),
        decreases t@.len() - i,
    {
        let c = t[i];
        let bad = (c as u32) < 0x20 || (c as u32) == 0x7f || c == '/' || c == '\\' || c == ':'
            || c == '*' || c == '?' || c == '"' || c == '<' || c == '>' || c == '|';
        out.push(if bad { '_' } else { c });
        i = i + 1;
        assert(out@ =~= t@.subrange(0, i as int).map_values(
            |c: char|
                if is_unsafe_name_char(c) {
                    '_'
                } else {
                    c
                },
        ));
    }
    assert(t@.subrange(0, t@.len() as int) =~= t@);
    let tt = trim_vec(out.as_slice());
    let a = strip_lead_vec(tt.as_slice(), '.');
    let b = crate::text::strip_trail_vec(a.as_slice(), '.');
    if b.len() == 0 {
        owned("save")
    } else {
        string_of(b.as_slice())
    }
}

/// An extension setting read: trimmed, leading dots dropped, trimmed again,
/// lower-cased; `None` when blank.
pub open spec fn clean_extension(value: Seq<char>) -> Option<Seq<char>> {
    let t = trim(strip_lead(trim(value), '.'));
    if t.len() == 0 {
        None
    } else {
        Some(lower(t))
    }
}

pub fn normalize_extension_value(value: &str) -> (r: Option<String>)
    ensures
        match r {
            Some(e) => clean_extension(value@) == Some(e@),
            None => clean_extension(value@) is None,
        },
{
    let t = trim_str(value);
    let t = strip_lead_vec(t.as_slice(), '.');
    let t = trim_vec(t.as_slice());
    if t.len() == 0 {
        None
    } else {
        Some(string_of(lower_vec(t.as_slice()).as_slice()))
    }
}

/// The extension of a (trimmed) file name, as an extension setting.
pub open spec fn name_extension(filename: Seq<char>) -> Option<Seq<char>> {
    match crate::paths::file_extension(trim(filename)) {
        Some(e) => clean_extension(e),
        None => None,
    }
}

pub fn extension_from_filename(filename: &str) -> (r: Option<String>)
    ensures
        match r {
            Some(e) => name_extension(filename@) == Some(e@),
            None => name_extension(filename@) is None,
        },
{
    let t = string_of(trim_str(filename).as_slice());
    match crate::paths::path_file_extension(t.as_str()) {
        Some(e) => normalize_extension_value(string_of(e.as_slice()).as_str()),
        None => None,
    }
}

/// Profiles whose save folder holds one system only.
pub open spec fn profile_specific(profile: EmulatorProfile, slug: Seq<char>) -> bool {
    ((profile == EmulatorProfile::Snes9x || profile == EmulatorProfile::Zsnes) && slug == "snes"@)
        || ((profile == EmulatorProfile::Project64 || profile == EmulatorProfile::MupenFamily
        || profile == EmulatorProfile::EverDrive) && slug == "n64"@)
}

pub fn profile_is_system_specific(source_profile: &EmulatorProfile, system_slug: &str) -> (r: bool)
    ensures
        r == profile_specific(*source_profile, system_slug@),
{
    match source_profile {
        EmulatorProfile::Snes9x | EmulatorProfile::Zsnes => str_eq(system_slug, "snes"),
        EmulatorProfile::Project64 | EmulatorProfile::MupenFamily | EmulatorProfile::EverDrive =>
            str_eq(system_slug, "n64"),
        _ => false,
    }
}

/// The MiSTer folder of a system.
pub open spec fn mister_dir(slug: Seq<char>) -> Seq<char> {
    if slug == "nes"@ {
        "NES"@
    } else if slug == "snes"@ {
        "SNES"@
    } else if slug == "gameboy"@ {
        "GameBoy"@
    } else if slug == "gba"@ {
        "GBA"@
    } else if slug == "n64"@ {
        "N64"@
    } else if slug == "nds"@ {
        "NDS"@
    } else if slug == "genesis"@ {
        "MegaDrive"@
    } else if slug == "master-system"@ {
        "SMS"@
    } else if slug == "game-gear"@ {
        "GameGear"@
    } else if slug == "sega-cd"@ {
        "MegaCD"@
    } else if slug == "sega-32x"@ {
        "MegaDrive"@
    } else if slug == "saturn"@ {
        "Saturn"@
    } else if slug == "dreamcast"@ {
        "Dreamcast"@
    } else if slug == "neogeo"@ {
        "NeoGeo"@
    } else if slug == "wii"@ {
        "Wii"@
    } else if slug == "psx"@ {
        "PSX"@
    } else if slug == "ps2"@ {
        "PS2"@
    } else if slug == "psp"@ {
        "PSP"@
    } else if slug == "psvita"@ {
        "PSVita"@
    } else if slug == "ps3"@ {
        "PS3"@
    } else if slug == "ps4"@ {
        "PS4"@
    } else if slug == "ps5"@ {
        "PS5"@
    } else {
        "Other"@
    }
}

/// A MiSTer system whose save folder is named after it.
pub open spec fn mister_known_system(s: Seq<char>) -> bool {
    s == "nes"@ || s == "snes"@ || s == "gameboy"@ || s == "gba"@ || s == "n64"@ || s == "nds"@ || s == "saturn"@ || s == "dreamcast"@ || s == "neogeo"@ || s == "wii"@ || s == "psx"@ || s == "ps2"@ || s == "psp"@ || s == "psvita"@ || s == "ps3"@ || s == "ps4"@ || s == "ps5"@ || s == "genesis"@ || s == "master-system"@ || s == "game-gear"@ || s == "sega-cd"@ || s == "sega-32x"@
}

/// Each system gets the save folder of its own MiSTer core: the folder of
/// a system named after its core is that name in the core's capitals (`gba`
/// in `GBA`, `gameboy` in `GameBoy`), and no two known systems share a folder
/// except Genesis and 32X, whose saves both live in `MegaDrive`.
#[verifier::rlimit(60)]
pub proof fn law_mister_folders_belong_to_their_systems()
    ensures
        lower(mister_dir("nes"@)) == "nes"@,
        lower(mister_dir("snes"@)) == "snes"@,
        lower(mister_dir("gameboy"@)) == "gameboy"@,
        lower(mister_dir("gba"@)) == "gba"@,
        lower(mister_dir("n64"@)) == "n64"@,
        lower(mister_dir("nds"@)) == "nds"@,
        lower(mister_dir("saturn"@)) == "saturn"@,
        lower(mister_dir("dreamcast"@)) == "dreamcast"@,
        lower(mister_dir("neogeo"@)) == "neogeo"@,
        lower(mister_dir("wii"@)) == "wii"@,
        lower(mister_dir("psx"@)) == "psx"@,
        lower(mister_dir("ps2"@)) == "ps2"@,
        lower(mister_dir("psp"@)) == "psp"@,
        lower(mister_dir("psvita"@)) == "psvita"@,
        lower(mister_dir("ps3"@)) == "ps3"@,
        lower(mister_dir("ps4"@)) == "ps4"@,
        lower(mister_dir("ps5"@)) == "ps5"@,
        mister_dir("genesis"@) == mister_dir("sega-32x"@),
        forall|a: Seq<char>, b: Seq<char>| mister_known_system(a) && mister_known_system(b) && a != b
            && !((a == "genesis"@ && b == "sega-32x"@) || (a == "sega-32x"@ && b == "genesis"@))
            ==> #[trigger] mister_dir(a) != #[trigger] mister_dir(b),
{
    reveal_strlit("Dreamcast");
    reveal_strlit("GBA");
    reveal_strlit("GameBoy");
    reveal_strlit("GameGear");
    reveal_strlit("MegaCD");
    reveal_strlit("MegaDrive");
    reveal_strlit("N64");
    reveal_strlit("NDS");
    reveal_strlit("NES");
    reveal_strlit("NeoGeo");
    reveal_strlit("PS2");
    reveal_strlit("PS3");
    reveal_strlit("PS4");
    reveal_strlit("PS5");
    reveal_strlit("PSP");
    reveal_strlit("PSVita");
    reveal_strlit("PSX");
    reveal_strlit("SMS");
    reveal_strlit("SNES");
    reveal_strlit("Saturn");
    reveal_strlit("Wii");
    reveal_strlit("dreamcast");
    reveal_strlit("game-gear");
    reveal_strlit("gameboy");
    reveal_strlit("gba");
    reveal_strlit("genesis");
    reveal_strlit("master-system");
    reveal_strlit("n64");
    reveal_strlit("nds");
    reveal_strlit("neogeo");
    reveal_strlit("nes");
    reveal_strlit("ps2");
    reveal_strlit("ps3");
    reveal_strlit("ps4");
    reveal_strlit("ps5");
    reveal_strlit("psp");
    reveal_strlit("psvita");
    reveal_strlit("psx");
    reveal_strlit("saturn");
    reveal_strlit("sega-32x");
    reveal_strlit("sega-cd");
    reveal_strlit("snes");
    reveal_strlit("wii");
    assert("Dreamcast"@[0] == 'D');
    assert("Dreamcast"@[1] == 'r');
    assert("Dreamcast"@[2] == 'e');
    assert("GBA"@[0] == 'G');
    assert("GBA"@[1] == 'B');
    assert("GBA"@[2] == 'A');
    assert("GameBoy"@[0] == 'G');
    assert("GameBoy"@[1] == 'a');
    assert("GameBoy"@[2] == 'm');
    assert("GameGear"@[0] == 'G');
    assert("GameGear"@[1] == 'a');
    assert("GameGear"@[2] == 'm');
    assert("MegaCD"@[0] == 'M');
    assert("MegaCD"@[1] == 'e');
    assert("MegaCD"@[2] == 'g');
    assert("MegaDrive"@[0] == 'M');
    assert("MegaDrive"@[1] == 'e');
    assert("MegaDrive"@[2] == 'g');
    assert("N64"@[0] == 'N');
    assert("N64"@[1] == '6');
    assert("N64"@[2] == '4');
    assert("NDS"@[0] == 'N');
    assert("NDS"@[1] == 'D');
    assert("NDS"@[2] == 'S');
    assert("NES"@[0] == 'N');
    assert("NES"@[1] == 'E');
    assert("NES"@[2] == 'S');
    assert("NeoGeo"@[0] == 'N');
    assert("NeoGeo"@[1] == 'e');
    assert("NeoGeo"@[2] == 'o');
    assert("PS2"@[0] == 'P');
    assert("PS2"@[1] == 'S');
    assert("PS2"@[2] == '2');
    assert("PS3"@[0] == 'P');
    assert("PS3"@[1] == 'S');
    assert("PS3"@[2] == '3');
    assert("PS4"@[0] == 'P');
    assert("PS4"@[1] == 'S');
    assert("PS4"@[2] == '4');
    assert("PS5"@[0] == 'P');
    assert("PS5"@[1] == 'S');
    assert("PS5"@[2] == '5');
    assert("PSP"@[0] == 'P');
    assert("PSP"@[1] == 'S');
    assert("PSP"@[2] == 'P');
    assert("PSVita"@[0] == 'P');
    assert("PSVita"@[1] == 'S');
    assert("PSVita"@[2] == 'V');
    assert("PSX"@[0] == 'P');
    assert("PSX"@[1] == 'S');
    assert("PSX"@[2] == 'X');
    assert("SMS"@[0] == 'S');
    assert("SMS"@[1] == 'M');
    assert("SMS"@[2] == 'S');
    assert("SNES"@[0] == 'S');
    assert("SNES"@[1] == 'N');
    assert("SNES"@[2] == 'E');
    assert("Saturn"@[0] == 'S');
    assert("Saturn"@[1] == 'a');
    assert("Saturn"@[2] == 't');
    assert("Wii"@[0] == 'W');
    assert("Wii"@[1] == 'i');
    assert("Wii"@[2] == 'i');
    assert("dreamcast"@[0] == 'd');
    assert("dreamcast"@[1] == 'r');
    assert("dreamcast"@[2] == 'e');
    assert("game-gear"@[0] == 'g');
    assert("game-gear"@[1] == 'a');
    assert("game-gear"@[2] == 'm');
    assert("gameboy"@[0] == 'g');
    assert("gameboy"@[1] == 'a');
    assert("gameboy"@[2] == 'm');
    assert("gba"@[0] == 'g');
    assert("gba"@[1] == 'b');
    assert("gba"@[2] == 'a');
    assert("genesis"@[0] == 'g');
    assert("genesis"@[1] == 'e');
    assert("genesis"@[2] == 'n');
    assert("master-system"@[0] == 'm');
    assert("master-system"@[1] == 'a');
    assert("master-system"@[2] == 's');
    assert("n64"@[0] == 'n');
    assert("n64"@[1] == '6');
    assert("n64"@[2] == '4');
    assert("nds"@[0] == 'n');
    assert("nds"@[1] == 'd');
    assert("nds"@[2] == 's');
    assert("neogeo"@[0] == 'n');
    assert("neogeo"@[1] == 'e');
    assert("neogeo"@[2] == 'o');
    assert("nes"@[0] == 'n');
    assert("nes"@[1] == 'e');
    assert("nes"@[2] == 's');
    assert("ps2"@[0] == 'p');
    assert("ps2"@[1] == 's');
    assert("ps2"@[2] == '2');
    assert("ps3"@[0] == 'p');
    assert("ps3"@[1] == 's');
    assert("ps3"@[2] == '3');
    assert("ps4"@[0] == 'p');
    assert("ps4"@[1] == 's');
    assert("ps4"@[2] == '4');
    assert("ps5"@[0] == 'p');
    assert("ps5"@[1] == 's');
    assert("ps5"@[2] == '5');
    assert("psp"@[0] == 'p');
    assert("psp"@[1] == 's');
    assert("psp"@[2] == 'p');
    assert("psvita"@[0] == 'p');
    assert("psvita"@[1] == 's');
    assert("psvita"@[2] == 'v');
    assert("psx"@[0] == 'p');
    assert("psx"@[1] == 's');
    assert("psx"@[2] == 'x');
    assert("saturn"@[0] == 's');
    assert("saturn"@[1] == 'a');
    assert("saturn"@[2] == 't');
    assert("sega-32x"@[0] == 's');
    assert("sega-32x"@[1] == 'e');
    assert("sega-32x"@[2] == 'g');
    assert("sega-cd"@[0] == 's');
    assert("sega-cd"@[1] == 'e');
    assert("sega-cd"@[2] == 'g');
    assert("snes"@[0] == 's');
    assert("snes"@[1] == 'n');
    assert("snes"@[2] == 'e');
    assert("wii"@[0] == 'w');
    assert("wii"@[1] == 'i');
    assert("wii"@[2] == 'i');
    assert("game-gear"@.len() == 9);
    assert("sega-32x"@.len() == 8);
    assert("sega-cd"@.len() == 7);
    assert("genesis"@.len() == 7);
    assert("master-system"@.len() == 13);
    assert("gameboy"@.len() == 7);
    assert("dreamcast"@.len() == 9);
    assert("saturn"@.len() == 6);
    assert("neogeo"@.len() == 6);
    assert("psvita"@.len() == 6);
    assert("snes"@.len() == 4);
    assert(mister_dir("nes"@) == "NES"@);
    assert(mister_dir("snes"@) == "SNES"@);
    assert(mister_dir("gameboy"@) == "GameBoy"@);
    assert(mister_dir("gba"@) == "GBA"@);
    assert(mister_dir("n64"@) == "N64"@);
    assert(mister_dir("nds"@) == "NDS"@);
    assert(mister_dir("saturn"@) == "Saturn"@);
    assert(mister_dir("dreamcast"@) == "Dreamcast"@);
    assert(mister_dir("neogeo"@) == "NeoGeo"@);
    assert(mister_dir("wii"@) == "Wii"@);
    assert(mister_dir("psx"@) == "PSX"@);
    assert(mister_dir("ps2"@) == "PS2"@);
    assert(mister_dir("psp"@) == "PSP"@);
    assert(mister_dir("psvita"@) == "PSVita"@);
    assert(mister_dir("ps3"@) == "PS3"@);
    assert(mister_dir("ps4"@) == "PS4"@);
    assert(mister_dir("ps5"@) == "PS5"@);
    assert(mister_dir("genesis"@) == "MegaDrive"@);
    assert(mister_dir("master-system"@) == "SMS"@);
    assert(mister_dir("game-gear"@) == "GameGear"@);
    assert(mister_dir("sega-cd"@) == "MegaCD"@);
    assert(mister_dir("sega-32x"@) == "MegaDrive"@);
    assert(lower("NES"@) =~= "nes"@);
    assert(lower("SNES"@) =~= "snes"@);
    assert(lower("GameBoy"@) =~= "gameboy"@);
    assert(lower("GBA"@) =~= "gba"@);
    assert(lower("N64"@) =~= "n64"@);
    assert(lower("NDS"@) =~= "nds"@);
    assert(lower("Saturn"@) =~= "saturn"@);
    assert(lower("Dreamcast"@) =~= "dreamcast"@);
    assert(lower("NeoGeo"@) =~= "neogeo"@);
    assert(lower("Wii"@) =~= "wii"@);
    assert(lower("PSX"@) =~= "psx"@);
    assert(lower("PS2"@) =~= "ps2"@);
    assert(lower("PSP"@) =~= "psp"@);
    assert(lower("PSVita"@) =~= "psvita"@);
    assert(lower("PS3"@) =~= "ps3"@);
    assert(lower("PS4"@) =~= "ps4"@);
    assert(lower("PS5"@) =~= "ps5"@);
}

pub fn mister_system_directory(system_slug: &str) -> (r: &'static str)
    ensures
        r@ == mister_dir(system_slug@),
{
    let s = chars_of(system_slug);
    let s = s.as_slice();
    if eq_lit(s, "nes") {
        "NES"
    } else if eq_lit(s, "snes") {
        "SNES"
    } else if eq_lit(s, "gameboy") {
        "GameBoy"
    } else if eq_lit(s, "gba") {
        "GBA"
    } else if eq_lit(s, "n64") {
        "N64"
    } else if eq_lit(s, "nds") {
        "NDS"
    } else if eq_lit(s, "genesis") {
        "MegaDrive"
    } else if eq_lit(s, "master-system") {
        "SMS"
    } else if eq_lit(s, "game-gear") {
        "GameGear"
    } else if eq_lit(s, "sega-cd") {
        "MegaCD"
    } else if eq_lit(s, "sega-32x") {
        "MegaDrive"
    } else if eq_lit(s, "saturn") {
        "Saturn"
    } else if eq_lit(s, "dreamcast") {
        "Dreamcast"
    } else if eq_lit(s, "neogeo") {
        "NeoGeo"
    } else if eq_lit(s, "wii") {
        "Wii"
    } else if eq_lit(s, "psx") {
        "PSX"
    } else if eq_lit(s, "ps2") {
        "PS2"
    } else if eq_lit(s, "psp") {
        "PSP"
    } else if eq_lit(s, "psvita") {
        "PSVita"
    } else if eq_lit(s, "ps3") {
        "PS3"
    } else if eq_lit(s, "ps4") {
        "PS4"
    } else if eq_lit(s, "ps5") {
        "PS5"
    } else {
        "Other"
    }
}

/// The generic (frontend-style) folder of a system.
pub open spec fn generic_dir(slug: Seq<char>) -> Seq<char> {
    if slug == "gameboy"@ {
        "gb"@
    } else if slug == "master-system"@ {
        "mastersystem"@
    } else if slug == "game-gear"@ {
        "gamegear"@
    } else if slug == "sega-cd"@ {
        "segacd"@
    } else if slug == "sega-32x"@ {
        "sega32x"@
    } else if all_sync_systems().contains(slug) {
        slug
    } else {
        "unknown"@
    }
}

pub fn generic_system_directory(system_slug: &str) -> (r: String)
    ensures
        r@ == generic_dir(system_slug@),
{
    let s = chars_of(system_slug);
    let s = s.as_slice();
    if eq_lit(s, "gameboy") {
        owned("gb")
    } else if eq_lit(s, "master-system") {
        owned("mastersystem")
    } else if eq_lit(s, "game-gear") {
        owned("gamegear")
    } else if eq_lit(s, "sega-cd") {
        owned("segacd")
    } else if eq_lit(s, "sega-32x") {
        owned("sega32x")
    } else if supports_cloud_restore_system(system_slug) {
        owned(system_slug)
    } else {
        owned("unknown")
    }
}

/// The folder a source keeps a system's saves in: MiSTer naming for a
/// MiSTer or a MiSTer-profile source, generic naming otherwise.
pub open spec fn source_dir(kind: SourceKind, profile: EmulatorProfile, slug: Seq<char>) -> Seq<char> {
    if kind == SourceKind::MisterFpga || profile == EmulatorProfile::Mister {
        mister_dir(slug)
    } else {
        generic_dir(slug)
    }
}

pub fn system_directory_for_source(
    source_kind: &SourceKind,
    source_profile: &EmulatorProfile,
    system_slug: &str,
) -> (r: String)
    ensures
        r@ == source_dir(*source_kind, *source_profile, system_slug@),
{
    if *source_kind == SourceKind::MisterFpga || *source_profile == EmulatorProfile::Mister {
        owned(mister_system_directory(system_slug))
    } else {
        generic_system_directory(system_slug)
    }
}

} // verus!

//! Save sources: where a device keeps its saves and ROMs, which emulator
//! wrote them, and which systems are synced from there. Sources are stored
//! as `[source.<id>]` sections of the configuration file.
use vstd::prelude::*;
use crate::ini::{
    dequote, dequote_vec, is_skipped_line, lines, lookup, pair_key, pair_value, split_lines,
    split_pair,
};
use crate::mister::state::now_rfc3339;
use crate::paths::{is_absolute, join_path, path_join};
use crate::text::{
    bool_str, bool_text, escape_quotes, escape_quotes_str, join_with, lex_le, lex_le_exec, starts_with, strip_lead, strip_trail, chars_of, eq_lit, find_char, first_index, is_alnum, is_alnum_char, lower, lower_char,
    lower_of, lower_vec, owned, str_eq, string_of, trim, trim_str, trim_vec, lemma_plain_word, lemma_normal_word,
};

verus! {

// ---------------------------------------------------------------------------
// Kinds of device and emulator
// ---------------------------------------------------------------------------

/// The kind of device or frontend that a source belongs to.
#[derive(Debug, Clone, Copy, PartialEq, Eq, Structural)]
pub enum SourceKind {
    MisterFpga,
    RetroArch,
    Custom,
    OpenEmu,
    AnaloguePocket,
    Windows,
    SteamDeck,
}

pub open spec fn kind_name(k: SourceKind) -> Seq<char> {
    match k {
        SourceKind::MisterFpga => "mister-fpga"@,
        SourceKind::RetroArch => "retroarch"@,
        SourceKind::Custom => "custom"@,
        SourceKind::OpenEmu => "openemu"@,
        SourceKind::AnaloguePocket => "analogue-pocket"@,
        SourceKind::Windows => "windows"@,
        SourceKind::SteamDeck => "steamdeck"@,
    }
}

pub open spec fn kind_device_type(k: SourceKind) -> Seq<char> {
    match k {
        SourceKind::MisterFpga => "mister"@,
        SourceKind::RetroArch => "retroarch"@,
        SourceKind::Custom => "custom"@,
        SourceKind::OpenEmu => "openemu"@,
        SourceKind::AnaloguePocket => "analogue-pocket"@,
        SourceKind::Windows => "windows"@,
        SourceKind::SteamDeck => "steamdeck"@,
    }
}

/// The kind named by an already trimmed and lower-cased word.
pub open spec fn kind_from_word(w: Seq<char>) -> Option<SourceKind> {
    if w == "mister-fpga"@ || w == "mister"@ {
        Some(SourceKind::MisterFpga)
    } else if w == "retroarch"@ {
        Some(SourceKind::RetroArch)
    } else if w == "custom"@ {
        Some(SourceKind::Custom)
    } else if w == "openemu"@ {
        Some(SourceKind::OpenEmu)
    } else if w == "analogue-pocket"@ || w == "analoguepocket"@ {
        Some(SourceKind::AnaloguePocket)
    } else if w == "windows"@ {
        Some(SourceKind::Windows)
    } else if w == "steamdeck"@ || w == "steam-deck"@ {
        Some(SourceKind::SteamDeck)
    } else {
        None
    }
}

impl SourceKind {
    /// The name under which the kind is stored in the configuration file.
    pub fn as_str(&self) -> (r: &'static str)
        ensures
            r@ == kind_name(*self),
    {
        match self {
            SourceKind::MisterFpga => "mister-fpga",
            SourceKind::RetroArch => "retroarch",
            SourceKind::Custom => "custom",
            SourceKind::OpenEmu => "openemu",
            SourceKind::AnaloguePocket => "analogue-pocket",
            SourceKind::Windows => "windows",
            SourceKind::SteamDeck => "steamdeck",
        }
    }

    /// The device type the backend knows this kind of helper by.
    pub fn helper_device_type(&self) -> (r: &'static str)
        ensures
            r@ == kind_device_type(*self),
    {
        match self {
            SourceKind::MisterFpga => "mister",
            SourceKind::RetroArch => "retroarch",
            SourceKind::Custom => "custom",
            SourceKind::OpenEmu => "openemu",
            SourceKind::AnaloguePocket => "analogue-pocket",
            SourceKind::Windows => "windows",
            SourceKind::SteamDeck => "steamdeck",
        }
    }

    /// Reads a kind name, ignoring surrounding white space and ASCII case.
    pub fn parse(value: &str) -> (r: Option<SourceKind>)
        ensures
            r == kind_from_word(lower(trim(value@))),
    {
        let t = trim_str(value);
        let w = lower_vec(t.as_slice());
        let w = w.as_slice();
        if eq_lit(w, "mister-fpga") || eq_lit(w, "mister") {
            Some(SourceKind::MisterFpga)
        } else if eq_lit(w, "retroarch") {
            Some(SourceKind::RetroArch)
        } else if eq_lit(w, "custom") {
            Some(SourceKind::Custom)
        } else if eq_lit(w, "openemu") {
            Some(SourceKind::OpenEmu)
        } else if eq_lit(w, "analogue-pocket") || eq_lit(w, "analoguepocket") {
            Some(SourceKind::AnaloguePocket)
        } else if eq_lit(w, "windows") {
            Some(SourceKind::Windows)
        } else if eq_lit(w, "steamdeck") || eq_lit(w, "steam-deck") {
            Some(SourceKind::SteamDeck)
        } else {
            None
        }
    }
}

/// The emulator whose save conventions a source follows.
#[derive(Debug, Clone, Copy, PartialEq, Eq, Structural)]
pub enum EmulatorProfile {
    Mister,
    RetroArch,
    Snes9x,
    Zsnes,
    EverDrive,
    Project64,
    MupenFamily,
    Generic,
}

pub open spec fn profile_name(p: EmulatorProfile) -> Seq<char> {
    match p {
        EmulatorProfile::Mister => "mister"@,
        EmulatorProfile::RetroArch => "retroarch"@,
        EmulatorProfile::Snes9x => "snes9x"@,
        EmulatorProfile::Zsnes => "zsnes"@,
        EmulatorProfile::EverDrive => "everdrive"@,
        EmulatorProfile::Project64 => "project64"@,
        EmulatorProfile::MupenFamily => "mupen-family"@,
        EmulatorProfile::Generic => "generic"@,
    }
}

/// The profile named by an already trimmed and lower-cased word.
pub open spec fn profile_from_word(w: Seq<char>) -> Option<EmulatorProfile> {
    if w == "mister"@ || w == "mister-fpga"@ {
        Some(EmulatorProfile::Mister)
    } else if w == "retroarch"@ || w == "retro-arch"@ {
        Some(EmulatorProfile::RetroArch)
    } else if w == "snes9x"@ {
        Some(EmulatorProfile::Snes9x)
    } else if w == "zsnes"@ {
        Some(EmulatorProfile::Zsnes)
    } else if w == "everdrive"@ || w == "ever-drive"@ {
        Some(EmulatorProfile::EverDrive)
    } else if w == "project64"@ || w == "project-64"@ || w == "pj64"@ {
        Some(EmulatorProfile::Project64)
    } else if w == "mupen-family"@ || w == "mupen_family"@ || w == "mupen64plus"@ || w
        == "mupen"@ {
        Some(EmulatorProfile::MupenFamily)
    } else if w == "generic"@ || w == "custom"@ {
        Some(EmulatorProfile::Generic)
    } else {
        None
    }
}

impl EmulatorProfile {
    /// The name under which the profile is stored and sent to the backend.
    pub fn as_str(&self) -> (r: &'static str)
        ensures
            r@ == profile_name(*self),
    {
        match self {
            EmulatorProfile::Mister => "mister",
            EmulatorProfile::RetroArch => "retroarch",
            EmulatorProfile::Snes9x => "snes9x",
            EmulatorProfile::Zsnes => "zsnes",
            EmulatorProfile::EverDrive => "everdrive",
            EmulatorProfile::Project64 => "project64",
            EmulatorProfile::MupenFamily => "mupen-family",
            EmulatorProfile::Generic => "generic",
        }
    }

    /// Reads a profile name or one of its aliases, ignoring surrounding white
    /// space and ASCII case.
    pub fn parse(value: &str) -> (r: Option<EmulatorProfile>)
        ensures
            r == profile_from_word(lower(trim(value@))),
    {
        let t = trim_str(value);
        let w = lower_vec(t.as_slice());
        let w = w.as_slice();
        if eq_lit(w, "mister") || eq_lit(w, "mister-fpga") {
            Some(EmulatorProfile::Mister)
        } else if eq_lit(w, "retroarch") || eq_lit(w, "retro-arch") {
            Some(EmulatorProfile::RetroArch)
        } else if eq_lit(w, "snes9x") {
            Some(EmulatorProfile::Snes9x)
        } else if eq_lit(w, "zsnes") {
            Some(EmulatorProfile::Zsnes)
        } else if eq_lit(w, "everdrive") || eq_lit(w, "ever-drive") {
            Some(EmulatorProfile::EverDrive)
        } else if eq_lit(w, "project64") || eq_lit(w, "project-64") || eq_lit(w, "pj64") {
            Some(EmulatorProfile::Project64)
        } else if eq_lit(w, "mupen-family") || eq_lit(w, "mupen_family") || eq_lit(
            w,
            "mupen64plus",
        ) || eq_lit(w, "mupen") {
            Some(EmulatorProfile::MupenFamily)
        } else if eq_lit(w, "generic") || eq_lit(w, "custom") {
            Some(EmulatorProfile::Generic)
        } else {
            None
        }
    }
}

/// A kind's stored name reads back as the kind, and reading a name ignores
/// surrounding white space and ASCII case.
pub proof fn law_kind_name_round_trip(k: SourceKind, s: Seq<char>)
    ensures
        kind_from_word(lower(trim(kind_name(k)))) == Some(k),
        kind_from_word(lower(trim(lower(trim(s))))) == kind_from_word(lower(trim(s))),
{
    reveal_strlit("mister-fpga");
    reveal_strlit("retroarch");
    reveal_strlit("custom");
    reveal_strlit("openemu");
    reveal_strlit("analogue-pocket");
    reveal_strlit("windows");
    reveal_strlit("steamdeck");
    reveal_strlit("mister");
    reveal_strlit("analoguepocket");
    reveal_strlit("steam-deck");
    let w = kind_name(k);
    assert(w.len() > 0 && w.last() == w[w.len() - 1]);
    lemma_plain_word(w);
    lemma_normal_word(s);
}

/// A profile's stored name reads back as the profile, and reading a name
/// ignores surrounding white space and ASCII case.
pub proof fn law_profile_name_round_trip(p: EmulatorProfile, s: Seq<char>)
    ensures
        profile_from_word(lower(trim(profile_name(p)))) == Some(p),
        profile_from_word(lower(trim(lower(trim(s))))) == profile_from_word(lower(trim(s))),
{
    reveal_strlit("mister");
    reveal_strlit("retroarch");
    reveal_strlit("snes9x");
    reveal_strlit("zsnes");
    reveal_strlit("everdrive");
    reveal_strlit("project64");
    reveal_strlit("mupen-family");
    reveal_strlit("generic");
    reveal_strlit("mister-fpga");
    reveal_strlit("retro-arch");
    reveal_strlit("ever-drive");
    reveal_strlit("project-64");
    reveal_strlit("pj64");
    reveal_strlit("mupen_family");
    reveal_strlit("mupen64plus");
    reveal_strlit("mupen");
    reveal_strlit("custom");
    let w = profile_name(p);
    assert(w.len() > 0 && w.last() == w[w.len() - 1]);
    lemma_plain_word(w);
    lemma_normal_word(s);
}

pub open spec fn default_profile(kind: SourceKind) -> EmulatorProfile {
    match kind {
        SourceKind::MisterFpga => EmulatorProfile::Mister,
        SourceKind::RetroArch => EmulatorProfile::RetroArch,
        _ => EmulatorProfile::Generic,
    }
}

/// The profile a source of this kind has when none is configured.
pub fn default_profile_for_kind(kind: &SourceKind) -> (r: EmulatorProfile)
    ensures
        r == default_profile(*kind),
{
    match kind {
        SourceKind::MisterFpga => EmulatorProfile::Mister,
        SourceKind::RetroArch => EmulatorProfile::RetroArch,
        _ => EmulatorProfile::Generic,
    }
}

// ---------------------------------------------------------------------------
// Systems
// ---------------------------------------------------------------------------

/// Every system the helper can sync, in their canonical order.
pub open spec fn all_sync_systems() -> Seq<Seq<char>> {
    seq![
        "nes"@,
        "snes"@,
        "gameboy"@,
        "gba"@,
        "n64"@,
        "nds"@,
        "genesis"@,
        "master-system"@,
        "game-gear"@,
        "sega-cd"@,
        "sega-32x"@,
        "saturn"@,
        "dreamcast"@,
        "neogeo"@,
        "wii"@,
        "psx"@,
        "ps2"@,
        "psp"@,
        "psvita"@,
        "ps3"@,
        "ps4"@,
        "ps5"@,
    ]
}

/// The systems that a MiSTer core exists for.
pub open spec fn mister_sync_systems() -> Seq<Seq<char>> {
    seq![
        "nes"@,
        "snes"@,
        "gameboy"@,
        "gba"@,
        "n64"@,
        "genesis"@,
        "master-system"@,
        "game-gear"@,
        "sega-cd"@,
        "sega-32x"@,
        "saturn"@,
        "neogeo"@,
        "psx"@,
    ]
}

/// The same systems as `all_sync_systems`, in lexicographic order.
pub open spec fn sorted_sync_systems() -> Seq<Seq<char>> {
    seq![
        "dreamcast"@,
        "game-gear"@,
        "gameboy"@,
        "gba"@,
        "genesis"@,
        "master-system"@,
        "n64"@,
        "nds"@,
        "neogeo"@,
        "nes"@,
        "ps2"@,
        "ps3"@,
        "ps4"@,
        "ps5"@,
        "psp"@,
        "psvita"@,
        "psx"@,
        "saturn"@,
        "sega-32x"@,
        "sega-cd"@,
        "snes"@,
        "wii"@,
    ]
}

pub fn all_sync_system_list() -> (r: Vec<String>)
    ensures
        r.deep_view() == all_sync_systems(),
{
    let r = vec![
        owned("nes"),
        owned("snes"),
        owned("gameboy"),
        owned("gba"),
        owned("n64"),
        owned("nds"),
        owned("genesis"),
        owned("master-system"),
        owned("game-gear"),
        owned("sega-cd"),
        owned("sega-32x"),
        owned("saturn"),
        owned("dreamcast"),
        owned("neogeo"),
        owned("wii"),
        owned("psx"),
        owned("ps2"),
        owned("psp"),
        owned("psvita"),
        owned("ps3"),
        owned("ps4"),
        owned("ps5"),
    ];
    assert(r.deep_view() =~= all_sync_systems());
    r
}

fn mister_sync_system_list() -> (r: Vec<String>)
    ensures
        r.deep_view() == mister_sync_systems(),
{
    let r = vec![
        owned("nes"),
        owned("snes"),
        owned("gameboy"),
        owned("gba"),
        owned("n64"),
        owned("genesis"),
        owned("master-system"),
        owned("game-gear"),
        owned("sega-cd"),
        owned("sega-32x"),
        owned("saturn"),
        owned("neogeo"),
        owned("psx"),
    ];
    assert(r.deep_view() =~= mister_sync_systems());
    r
}

fn sorted_sync_system_list() -> (r: Vec<String>)
    ensures
        r.deep_view() == sorted_sync_systems(),
{
    let r = vec![
        owned("dreamcast"),
        owned("game-gear"),
        owned("gameboy"),
        owned("gba"),
        owned("genesis"),
        owned("master-system"),
        owned("n64"),
        owned("nds"),
        owned("neogeo"),
        owned("nes"),
        owned("ps2"),
        owned("ps3"),
        owned("ps4"),
        owned("ps5"),
        owned("psp"),
        owned("psvita"),
        owned("psx"),
        owned("saturn"),
        owned("sega-32x"),
        owned("sega-cd"),
        owned("snes"),
        owned("wii"),
    ];
    assert(r.deep_view() =~= sorted_sync_systems());
    r
}

pub open spec fn default_systems(kind: SourceKind) -> Seq<Seq<char>> {
    match kind {
        SourceKind::MisterFpga => mister_sync_systems(),
        _ => all_sync_systems(),
    }
}

/// The systems a source of this kind syncs when none are configured: the
/// MiSTer systems for a MiSTer, every system otherwise.
pub fn default_systems_for_kind(kind: &SourceKind) -> (r: Vec<String>)
    ensures
        r.deep_view() == default_systems(*kind),
{
    match kind {
        SourceKind::MisterFpga => mister_sync_system_list(),
        _ => all_sync_system_list(),
    }
}

/// The ASCII letters and digits of `s`, lower-cased.
pub open spec fn alnum_lower(s: Seq<char>) -> Seq<char>
    decreases s.len(),
{
    if s.len() == 0 {
        seq![]
    } else if is_alnum(s.last()) {
        alnum_lower(s.drop_last()).push(lower_char(s.last()))
    } else {
        alnum_lower(s.drop_last())
    }
}

pub fn alnum_lower_vec(v: &[char]) -> (r: Vec<char>)
    ensures
        r@ == alnum_lower(v@),
{
    let mut out: Vec<char> = Vec::new();
    let mut i: usize = 0;
    while i < v.len()
        invariant
            0 <= i <= v@.len(),
            out@ == alnum_lower(v@.subrange(0, i as int)),
        decreases v@.len() - i,
    {
        assert(v@.subrange(0, i + 1).drop_last() =~= v@.subrange(0, i as int));
        if is_alnum_char(v[i]) {
            out.push(lower_of(v[i]));
        }
        i = i + 1;
    }
    assert(v@.subrange(0, v@.len() as int) =~= v@);
    out
}

/// The system that a compacted name (letters and digits, lower case) names.
pub open spec fn slug_for_compact(c: Seq<char>) -> Option<Seq<char>> {
    if c == "nes"@ || c == "famicom"@ || c == "nintendoentertainmentsystem"@ {
        Some("nes"@)
    } else if c == "snes"@ || c == "sfc"@ || c == "supernintendo"@ || c == "superfamicom"@ {
        Some("snes"@)
    } else if c == "gb"@ || c == "gbc"@ || c == "gameboy"@ || c == "gameboycolor"@ {
        Some("gameboy"@)
    } else if c == "gba"@ || c == "gameboyadvance"@ {
        Some("gba"@)
    } else if c == "n64"@ || c == "nintendo64"@ {
        Some("n64"@)
    } else if c == "nds"@ || c == "nintendods"@ || c == "ds"@ {
        Some("nds"@)
    } else if c == "genesis"@ || c == "megadrive"@ || c == "md"@ {
        Some("genesis"@)
    } else if c == "mastersystem"@ || c == "sms"@ {
        Some("master-system"@)
    } else if c == "gamegear"@ || c == "gg"@ {
        Some("game-gear"@)
    } else if c == "segacd"@ || c == "megacd"@ || c == "megadrivecd"@ {
        Some("sega-cd"@)
    } else if c == "sega32x"@ || c == "32x"@ || c == "megadrive32x"@ {
        Some("sega-32x"@)
    } else if c == "saturn"@ || c == "segasaturn"@ {
        Some("saturn"@)
    } else if c == "dreamcast"@ || c == "dc"@ {
        Some("dreamcast"@)
    } else if c == "neogeo"@ || c == "mvs"@ || c == "aes"@ {
        Some("neogeo"@)
    } else if c == "wii"@ || c == "nintendowii"@ || c == "dolphin"@ {
        Some("wii"@)
    } else if c == "psx"@ || c == "ps1"@ || c == "playstation"@ || c == "playstation1"@ {
        Some("psx"@)
    } else if c == "ps2"@ || c == "playstation2"@ {
        Some("ps2"@)
    } else if c == "psp"@ || c == "playstationportable"@ {
        Some("psp"@)
    } else if c == "psvita"@ || c == "vita"@ || c == "playstationvita"@ {
        Some("psvita"@)
    } else if c == "ps3"@ || c == "playstation3"@ {
        Some("ps3"@)
    } else if c == "ps4"@ || c == "playstation4"@ {
        Some("ps4"@)
    } else if c == "ps5"@ || c == "playstation5"@ {
        Some("ps5"@)
    } else {
        None
    }
}

/// The canonical system a user-written name stands for: its letters and
/// digits, case ignored, looked up among the known names and aliases.
pub open spec fn system_slug(value: Seq<char>) -> Option<Seq<char>> {
    slug_for_compact(alnum_lower(value))
}

fn slug_for_compact_exec(c: &[char]) -> (r: Option<String>)
    ensures
        match r {
            Some(s) => slug_for_compact(c@) == Some(s@),
            None => slug_for_compact(c@) is None,
        },
{
    let s: &str = if eq_lit(c, "nes") || eq_lit(c, "famicom") || eq_lit(
        c,
        "nintendoentertainmentsystem",
    ) {
        "nes"
    } else if eq_lit(c, "snes") || eq_lit(c, "sfc") || eq_lit(c, "supernintendo") || eq_lit(
        c,
        "superfamicom",
    ) {
        "snes"
    } else if eq_lit(c, "gb") || eq_lit(c, "gbc") || eq_lit(c, "gameboy") || eq_lit(
        c,
        "gameboycolor",
    ) {
        "gameboy"
    } else if eq_lit(c, "gba") || eq_lit(c, "gameboyadvance") {
        "gba"
    } else if eq_lit(c, "n64") || eq_lit(c, "nintendo64") {
        "n64"
    } else if eq_lit(c, "nds") || eq_lit(c, "nintendods") || eq_lit(c, "ds") {
        "nds"
    } else if eq_lit(c, "genesis") || eq_lit(c, "megadrive") || eq_lit(c, "md") {
        "genesis"
    } else if eq_lit(c, "mastersystem") || eq_lit(c, "sms") {
        "master-system"
    } else if eq_lit(c, "gamegear") || eq_lit(c, "gg") {
        "game-gear"
    } else if eq_lit(c, "segacd") || eq_lit(c, "megacd") || eq_lit(c, "megadrivecd") {
        "sega-cd"
    } else if eq_lit(c, "sega32x") || eq_lit(c, "32x") || eq_lit(c, "megadrive32x") {
        "sega-32x"
    } else if eq_lit(c, "saturn") || eq_lit(c, "segasaturn") {
        "saturn"
    } else if eq_lit(c, "dreamcast") || eq_lit(c, "dc") {
        "dreamcast"
    } else if eq_lit(c, "neogeo") || eq_lit(c, "mvs") || eq_lit(c, "aes") {
        "neogeo"
    } else if eq_lit(c, "wii") || eq_lit(c, "nintendowii") || eq_lit(c, "dolphin") {
        "wii"
    } else if eq_lit(c, "psx") || eq_lit(c, "ps1") || eq_lit(c, "playstation") || eq_lit(
        c,
        "playstation1",
    ) {
        "psx"
    } else if eq_lit(c, "ps2") || eq_lit(c, "playstation2") {
        "ps2"
    } else if eq_lit(c, "psp") || eq_lit(c, "playstationportable") {
        "psp"
    } else if eq_lit(c, "psvita") || eq_lit(c, "vita") || eq_lit(c, "playstationvita") {
        "psvita"
    } else if eq_lit(c, "ps3") || eq_lit(c, "playstation3") {
        "ps3"
    } else if eq_lit(c, "ps4") || eq_lit(c, "playstation4") {
        "ps4"
    } else if eq_lit(c, "ps5") || eq_lit(c, "playstation5") {
        "ps5"
    } else {
        return None;
    };
    Some(owned(s))
}

/// The canonical system slug that a user-written system name stands for,
/// or `None` for a name that is not a known system or alias.
pub fn normalize_system_slug(value: &str) -> (r: Option<String>)
    ensures
        match r {
            Some(s) => system_slug(value@) == Some(s@),
            None => system_slug(value@) is None,
        },
{
    let v = chars_of(value);
    let c = alnum_lower_vec(v.as_slice());
    slug_for_compact_exec(c.as_slice())
}

pub open spec fn is_system_separator(c: char) -> bool {
    c == ',' || c == ';' || c == '|' || c == '\n'
}

/// Pieces completed so far, and the piece being read, after reading `s`.
pub open spec fn system_split_state(s: Seq<char>) -> (Seq<Seq<char>>, Seq<char>)
    decreases s.len(),
{
    if s.len() == 0 {
        (seq![], seq![])
    } else {
        let (done, cur) = system_split_state(s.drop_last());
        if is_system_separator(s.last()) {
            (done.push(cur), seq![])
        } else {
            (done, cur.push(s.last()))
        }
    }
}

/// The pieces of a system list, split at `,`, `;`, `|` and new lines.
pub open spec fn system_tokens(s: Seq<char>) -> Seq<Seq<char>> {
    let (done, cur) = system_split_state(s);
    done.push(cur)
}

/// Whether some piece of the list names the system `slug`.
pub open spec fn names_system(raw: Seq<char>, slug: Seq<char>) -> bool {
    exists|i: int|
        0 <= i < system_tokens(raw).len() && system_slug(#[trigger] system_tokens(raw)[i]) == Some(
            slug,
        )
}

/// The members of `list`, in its order, that the list `raw` names.
pub open spec fn named_systems(list: Seq<Seq<char>>, raw: Seq<char>) -> Seq<Seq<char>>
    decreases list.len(),
{
    if list.len() == 0 {
        seq![]
    } else if names_system(raw, list.last()) {
        named_systems(list.drop_last(), raw).push(list.last())
    } else {
        named_systems(list.drop_last(), raw)
    }
}

/// What a `SYSTEMS` setting selects for a source of kind `kind`.
pub open spec fn systems_setting(value: Option<Seq<char>>, kind: SourceKind) -> Seq<Seq<char>> {
    match value {
        None => default_systems(kind),
        Some(v) => {
            let raw = trim(v);
            let l = lower(raw);
            if raw.len() == 0 || l == "auto"@ {
                default_systems(kind)
            } else if l == "none"@ || l == "disabled"@ || l == "off"@ {
                seq![]
            } else if raw == "*"@ || l == "all"@ {
                all_sync_systems()
            } else {
                named_systems(sorted_sync_systems(), raw)
            }
        },
    }
}

fn split_system_tokens(v: &[char]) -> (r: Vec<Vec<char>>)
    ensures
        r.deep_view() == system_tokens(v@),
{
    let mut done: Vec<Vec<char>> = Vec::new();
    let mut cur: Vec<char> = Vec::new();
    let mut i: usize = 0;
    while i < v.len()
        invariant
            0 <= i <= v@.len(),
            (done.deep_view(), cur@) == system_split_state(v@.subrange(0, i as int)),
        decreases v@.len() - i,
    {
        assert(v@.subrange(0, i + 1).drop_last() =~= v@.subrange(0, i as int));
        let c = v[i];
        if c == ',' || c == ';' || c == '|' || c == '\n' {
            let ghost old_done = done.deep_view();
            assert(cur.deep_view() =~= cur@);
            done.push(cur);
            assert(done.deep_view() =~= old_done.push(cur@));
            cur = Vec::new();
        } else {
            cur.push(c);
        }
        i = i + 1;
    }
    assert(v@.subrange(0, v@.len() as int) =~= v@);
    let ghost old_done = done.deep_view();
    assert(cur.deep_view() =~= cur@);
    done.push(cur);
    assert(done.deep_view() =~= old_done.push(cur@));
    done
}

pub open spec fn opt_str_view(o: Option<String>) -> Option<Seq<char>> {
    match o {
        Some(s) => Some(s@),
        None => None,
    }
}

/// The systems that a `SYSTEMS` setting selects: the kind's defaults when
/// it is absent, empty or `auto`; none for `none`, `disabled` or `off`; all
/// for `*` or `all`; otherwise each system named in the list, once, in
/// lexicographic order. Unknown names are ignored.
pub fn parse_systems(value: Option<&str>, kind: &SourceKind) -> (r: Vec<String>)
    ensures
        r.deep_view() == systems_setting(
            match value {
                Some(v) => Some(v@),
                None => None,
            },
            *kind,
        ),
{
    let v = match value {
        None => {
            return default_systems_for_kind(kind);
        },
        Some(v) => v,
    };
    let raw = trim_str(v);
    let l = lower_vec(raw.as_slice());
    if raw.len() == 0 || eq_lit(l.as_slice(), "auto") {
        return default_systems_for_kind(kind);
    }
    if eq_lit(l.as_slice(), "none") || eq_lit(l.as_slice(), "disabled") || eq_lit(
        l.as_slice(),
        "off",
    ) {
        let r: Vec<String> = Vec::new();
        assert(r.deep_view() =~= Seq::<Seq<char>>::empty());
        return r;
    }
    if eq_lit(raw.as_slice(), "*") || eq_lit(l.as_slice(), "all") {
        return all_sync_system_list();
    }
    let toks = split_system_tokens(raw.as_slice());
    let mut slugs: Vec<Option<String>> = Vec::new();
    let mut i: usize = 0;
    while i < toks.len()
        invariant
            0 <= i <= toks@.len(),
            toks.deep_view() == system_tokens(raw@),
            slugs@.len() == i,
            forall|j: int| 0 <= j < i ==> opt_str_view(#[trigger] slugs@[j]) == system_slug(toks.deep_view()[j]),
        decreases toks@.len() - i,
    {
        let s = slug_for_compact_exec(alnum_lower_vec(toks[i].as_slice()).as_slice());
        assert(toks@[i as int]@ == toks.deep_view()[i as int]);
        slugs.push(s);
        i = i + 1;
    }
    let sorted = sorted_sync_system_list();
    let mut out: Vec<String> = Vec::new();
    let mut k: usize = 0;
    while k < sorted.len()
        invariant
            0 <= k <= sorted@.len(),
            sorted.deep_view() == sorted_sync_systems(),
            toks.deep_view() == system_tokens(raw@),
            slugs@.len() == toks@.len(),
            forall|j: int| 0 <= j < slugs@.len() ==> opt_str_view(#[trigger] slugs@[j]) == system_slug(toks.deep_view()[j]),
            out.deep_view() == named_systems(sorted.deep_view().subrange(0, k as int), raw@),
        decreases sorted@.len() - k,
    {
        let ghost sub = sorted.deep_view().subrange(0, k + 1);
        assert(sub.drop_last() =~= sorted.deep_view().subrange(0, k as int));
        assert(sub.last() == sorted@[k as int]@);
        let mut found = false;
        let mut j: usize = 0;
        while j < slugs.len()
            invariant
                0 <= j <= slugs@.len(),
                0 <= k < sorted@.len(),
                slugs@.len() == toks@.len(),
                toks.deep_view() == system_tokens(raw@),
                forall|m: int| 0 <= m < slugs@.len() ==> opt_str_view(#[trigger] slugs@[m]) == system_slug(toks.deep_view()[m]),
                found ==> names_system(raw@, sorted@[k as int]@),
                !found ==> forall|m: int| 0 <= m < j ==> system_slug(#[trigger] system_tokens(raw@)[m]) != Some(sorted@[k as int]@),
            decreases slugs@.len() - j,
        {
            match &slugs[j] {
                Some(s) => {
                    if str_eq(s.as_str(), sorted[k].as_str()) {
                        assert(opt_str_view(slugs@[j as int]) == system_slug(toks.deep_view()[j as int]));
                        found = true;
                    }
                },
                None => {},
            }
            j = j + 1;
        }
        let ghost before = out.deep_view();
        if found {
            let item = sorted[k].clone();
            out.push(item);
            assert(out.deep_view() =~= before.push(sorted@[k as int]@));
        } else {
            assert(!names_system(raw@, sorted@[k as int]@));
        }
        k = k + 1;
    }
    assert(sorted.deep_view().subrange(0, sorted@.len() as int) =~= sorted.deep_view());
    out
}

// ---------------------------------------------------------------------------
// Identifiers and flags
// ---------------------------------------------------------------------------

pub open spec fn is_id_separator(c: char) -> bool {
    c == ' ' || c == '\t' || c == '\n' || c == '\u{c}' || c == '\r' || c == '-' || c == '_'
        || c == '/'
}

/// The identifier built so far from the characters of `s`: letters and
/// digits lower-cased, each run of separators one `_`.
pub open spec fn id_chars(s: Seq<char>) -> Seq<char>
    decreases s.len(),
{
    if s.len() == 0 {
        seq![]
    } else {
        let out = id_chars(s.drop_last());
        let c = s.last();
        if is_alnum(c) {
            out.push(lower_char(c))
        } else if is_id_separator(c) && !(out.len() > 0 && out.last() == '_') {
            out.push('_')
        } else {
            out
        }
    }
}

pub open spec fn strip_leading_underscores(s: Seq<char>) -> Seq<char>
    decreases s.len(),
{
    if s.len() > 0 && s[0] == '_' {
        strip_leading_underscores(s.drop_first())
    } else {
        s
    }
}

pub open spec fn strip_trailing_underscores(s: Seq<char>) -> Seq<char>
    decreases s.len(),
{
    if s.len() > 0 && s.last() == '_' {
        strip_trailing_underscores(s.drop_last())
    } else {
        s
    }
}

/// A source identifier derived from a name: ASCII letters and digits
/// lower-cased, white space, `-`, `_` and `/` collapsed to one `_`, other
/// characters dropped, and no `_` at either end.
pub open spec fn source_id(s: Seq<char>) -> Seq<char> {
    strip_trailing_underscores(strip_leading_underscores(id_chars(s)))
}

/// A character an identifier may hold: a lower-case ASCII letter, a digit
/// or `_`.
pub open spec fn id_char_ok(c: char) -> bool {
    ('a' <= c && c <= 'z') || ('0' <= c && c <= '9') || c == '_'
}

/// Only identifier characters, and never two `_` in a row.
pub open spec fn id_body_ok(s: Seq<char>) -> bool {
    &&& forall|i: int| 0 <= i < s.len() ==> id_char_ok(#[trigger] s[i])
    &&& forall|i: int| 0 <= i < s.len() - 1 ==> !(#[trigger] s[i] == '_' && s[i + 1] == '_')
}

proof fn lemma_id_chars_ok(s: Seq<char>)
    ensures
        id_body_ok(id_chars(s)),
    decreases s.len(),
{
    if s.len() > 0 {
        lemma_id_chars_ok(s.drop_last());
        let out = id_chars(s.drop_last());
        let c = s.last();
        if is_alnum(c) {
            let d = lower_char(c);
            if ('A' <= c && c <= 'Z') {
                assert(('a' as u32) <= (d as u32) <= ('z' as u32));
            }
            assert(id_char_ok(d));
            let r = out.push(d);
            assert(r == id_chars(s));
            assert forall|i: int| 0 <= i < r.len() - 1 implies !(#[trigger] r[i] == '_' && r[i + 1] == '_') by {
                if i + 1 < out.len() {
                    assert(r[i] == out[i] && r[i + 1] == out[i + 1]);
                }
            }
        } else if is_id_separator(c) && !(out.len() > 0 && out.last() == '_') {
            let r = out.push('_');
            assert forall|i: int| 0 <= i < r.len() - 1 implies !(#[trigger] r[i] == '_' && r[i + 1] == '_') by {
                if i + 1 < out.len() {
                    assert(r[i] == out[i] && r[i + 1] == out[i + 1]);
                } else {
                    assert(r[i] == out.last());
                }
            }
        }
    }
}

proof fn lemma_strip_leading_ok(s: Seq<char>)
    requires
        id_body_ok(s),
    ensures
        id_body_ok(strip_leading_underscores(s)),
        strip_leading_underscores(s).len() > 0 ==> strip_leading_underscores(s)[0] != '_',
    decreases s.len(),
{
    if s.len() > 0 && s[0] == '_' {
        let t = s.drop_first();
        assert forall|i: int| 0 <= i < t.len() - 1 implies !(#[trigger] t[i] == '_' && t[i + 1] == '_') by {
            assert(t[i] == s[i + 1] && t[i + 1] == s[i + 2]);
        }
        assert forall|i: int| 0 <= i < t.len() implies id_char_ok(#[trigger] t[i]) by {
            assert(t[i] == s[i + 1]);
        }
        lemma_strip_leading_ok(t);
    }
}

proof fn lemma_strip_trailing_ok(s: Seq<char>)
    requires
        id_body_ok(s),
        s.len() > 0 ==> s[0] != '_',
    ensures
        id_body_ok(strip_trailing_underscores(s)),
        strip_trailing_underscores(s).len() > 0 ==> strip_trailing_underscores(s)[0] != '_'
            && strip_trailing_underscores(s).last() != '_',
    decreases s.len(),
{
    if s.len() > 0 && s.last() == '_' {
        let t = s.drop_last();
        assert forall|i: int| 0 <= i < t.len() - 1 implies !(#[trigger] t[i] == '_' && t[i + 1] == '_') by {
            assert(t[i] == s[i] && t[i + 1] == s[i + 1]);
        }
        assert forall|i: int| 0 <= i < t.len() implies id_char_ok(#[trigger] t[i]) by {
            assert(t[i] == s[i]);
        }
        if t.len() > 0 {
            assert(t[0] == s[0]);
        }
        lemma_strip_trailing_ok(t);
    }
}

/// A source's identifier holds only lower-case ASCII letters, digits and
/// `_`, never two `_` in a row, and no `_` at either end.
pub proof fn law_source_id_shape(name: Seq<char>)
    ensures
        id_body_ok(source_id(name)),
        source_id(name).len() > 0 ==> source_id(name)[0] != '_' && source_id(name).last() != '_',
{
    lemma_id_chars_ok(name);
    lemma_strip_leading_ok(id_chars(name));
    lemma_strip_trailing_ok(strip_leading_underscores(id_chars(name)));
}

/// Derives the source identifier for a name.
pub fn normalize_source_id(value: &str) -> (r: String)
    ensures
        r@ == source_id(value@),
{
    let v = chars_of(value);
    let mut out: Vec<char> = Vec::new();
    let mut i: usize = 0;
    while i < v.len()
        invariant
            0 <= i <= v@.len(),
            out@ == id_chars(v@.subrange(0, i as int)),
        decreases v@.len() - i,
    {
        assert(v@.subrange(0, i + 1).drop_last() =~= v@.subrange(0, i as int));
        let c = v[i];
        if is_alnum_char(c) {
            out.push(lower_of(c));
        } else if (c == ' ' || c == '\t' || c == '\n' || c == '\u{c}' || c == '\r' || c == '-'
            || c == '_' || c == '/') && !(out.len() > 0 && out[out.len() - 1] == '_') {
            out.push('_');
        }
        i = i + 1;
    }
    assert(v@.subrange(0, v@.len() as int) =~= v@);
    let n = out.len();
    let mut a: usize = 0;
    assert(out@.subrange(0, n as int) =~= out@);
    while a < n && out[a] == '_'
        invariant
            n == out@.len(),
            0 <= a <= n,
            strip_leading_underscores(out@) == strip_leading_underscores(out@.subrange(a as int, n as int)),
        decreases n - a,
    {
        assert(out@.subrange(a as int, n as int).drop_first() =~= out@.subrange(a + 1, n as int));
        a = a + 1;
    }
    let mut b: usize = n;
    while b > a && out[b - 1] == '_'
        invariant
            n == out@.len(),
            0 <= a <= b <= n,
            strip_trailing_underscores(out@.subrange(a as int, n as int)) == strip_trailing_underscores(out@.subrange(a as int, b as int)),
        decreases b,
    {
        assert(out@.subrange(a as int, b as int).drop_last() =~= out@.subrange(a as int, b - 1));
        b = b - 1;
    }
    let r = crate::text::slice_vec(out.as_slice(), a, b);
    string_of(r.as_slice())
}

/// The flag value of a word (already trimmed and lower-cased).
pub open spec fn bool_word(w: Seq<char>) -> Option<bool> {
    if w == "1"@ || w == "true"@ || w == "yes"@ || w == "on"@ {
        Some(true)
    } else if w == "0"@ || w == "false"@ || w == "no"@ || w == "off"@ {
        Some(false)
    } else {
        None
    }
}

/// A flag setting that is none of the accepted words.
#[derive(Debug, Clone)]
pub struct InvalidBool {
    pub value: String,
}

impl InvalidBool {
    pub fn message(&self) -> (r: String)
        ensures
            r@ == "ongeldige bool '"@ + self.value@ + "'"@,
    {
        crate::text::concat3("ongeldige bool '", self.value.as_str(), "'")
    }
}

/// Reads a flag: `1`/`true`/`yes`/`on` or `0`/`false`/`no`/`off`, ignoring
/// surrounding white space and ASCII case.
pub fn parse_bool(value: &str) -> (r: Result<bool, InvalidBool>)
    ensures
        match r {
            Ok(b) => bool_word(lower(trim(value@))) == Some(b),
            Err(e) => bool_word(lower(trim(value@))) is None && e.value@ == value@,
        },
{
    let t = trim_str(value);
    let w = lower_vec(t.as_slice());
    let w = w.as_slice();
    if eq_lit(w, "1") || eq_lit(w, "true") || eq_lit(w, "yes") || eq_lit(w, "on") {
        Ok(true)
    } else if eq_lit(w, "0") || eq_lit(w, "false") || eq_lit(w, "no") || eq_lit(w, "off") {
        Ok(false)
    } else {
        Err(InvalidBool { value: owned(value) })
    }
}

// ---------------------------------------------------------------------------
// Sources
// ---------------------------------------------------------------------------

/// A configured source of saves.
#[derive(Debug, Clone)]
pub struct Source {
    pub id: String,
    pub name: String,
    pub kind: SourceKind,
    pub profile: EmulatorProfile,
    pub save_roots: Vec<String>,
    pub rom_roots: Vec<String>,
    pub recursive: bool,
    pub systems: Vec<String>,
    pub create_missing_system_dirs: bool,
    pub managed: bool,
    pub origin: String,
    pub created_at: String,
}

/// A source with its roots resolved against the helper's directory.
#[derive(Debug, Clone)]
pub struct ResolvedSource {
    pub id: String,
    pub name: String,
    pub kind: SourceKind,
    pub profile: EmulatorProfile,
    pub save_roots: Vec<String>,
    pub rom_roots: Vec<String>,
    pub recursive: bool,
    pub systems: Vec<String>,
    pub create_missing_system_dirs: bool,
    pub managed: bool,
    pub origin: String,
}

/// The configured sources.
#[derive(Debug, Clone)]
pub struct SourceStore {
    pub sources: Vec<Source>,
}

/// A copy of a list of strings.
pub fn copy_strings(v: &Vec<String>) -> (r: Vec<String>)
    ensures
        r.deep_view() == v.deep_view(),
{
    let mut out: Vec<String> = Vec::new();
    let mut i: usize = 0;
    while i < v.len()
        invariant
            0 <= i <= v@.len(),
            out.deep_view() == v.deep_view().subrange(0, i as int),
        decreases v@.len() - i,
    {
        let ghost before = out.deep_view();
        out.push(v[i].clone());
        assert(out.deep_view() =~= before.push(v@[i as int]@));
        i = i + 1;
        assert(out.deep_view() =~= v.deep_view().subrange(0, i as int));
    }
    assert(v.deep_view().subrange(0, v@.len() as int) =~= v.deep_view());
    out
}

/// Every path of `roots` resolved against `base`.
pub open spec fn resolve_all(base: Seq<char>, roots: Seq<Seq<char>>) -> Seq<Seq<char>> {
    Seq::new(roots.len(), |i: int| path_join(base, roots[i]))
}

/// A path resolved against the helper's directory: an absolute path as it
/// is, a relative one joined to the directory.
pub fn resolve_path(binary_dir: &str, value: &str) -> (r: String)
    ensures
        r@ == path_join(binary_dir@, value@),
{
    join_path(binary_dir, value)
}

pub fn resolve_all_exec(base: &str, roots: &Vec<String>) -> (r: Vec<String>)
    ensures
        r.deep_view() == resolve_all(base@, roots.deep_view()),
{
    let mut out: Vec<String> = Vec::new();
    let mut i: usize = 0;
    while i < roots.len()
        invariant
            0 <= i <= roots@.len(),
            out.deep_view() == resolve_all(base@, roots.deep_view().subrange(0, i as int)),
        decreases roots@.len() - i,
    {
        let ghost before = out.deep_view();
        let p = resolve_path(base, roots[i].as_str());
        assert(roots.deep_view()[i as int] == roots@[i as int]@);
        out.push(p);
        assert(out.deep_view() =~= before.push(p@));
        i = i + 1;
        assert(out.deep_view() =~= resolve_all(base@, roots.deep_view().subrange(0, i as int)));
    }
    assert(roots.deep_view().subrange(0, roots@.len() as int) =~= roots.deep_view());
    out
}

pub open spec fn first_or(roots: Seq<Seq<char>>, fallback: Seq<char>) -> Seq<char> {
    if roots.len() > 0 {
        roots[0]
    } else {
        fallback
    }
}

/// `r` is the source `s` resolved against `binary_dir`: every field kept,
/// the roots resolved.
pub open spec fn resolved_from(s: Source, binary_dir: Seq<char>, r: ResolvedSource) -> bool {
    &&& r.id@ == s.id@
    &&& r.name@ == s.name@
    &&& r.kind == s.kind
    &&& r.profile == s.profile
    &&& r.save_roots.deep_view() == resolve_all(binary_dir, s.save_roots.deep_view())
    &&& r.rom_roots.deep_view() == resolve_all(binary_dir, s.rom_roots.deep_view())
    &&& r.recursive == s.recursive
    &&& r.systems.deep_view() == s.systems.deep_view()
    &&& r.create_missing_system_dirs == s.create_missing_system_dirs
    &&& r.managed == s.managed
    &&& r.origin@ == s.origin@
}

impl Source {
    /// A manually added source: its id derived from its name, the kind's
    /// default profile and systems, not managed, origin `manual`.
    pub fn new(
        name: String,
        kind: SourceKind,
        save_roots: Vec<String>,
        rom_roots: Vec<String>,
        recursive: bool,
    ) -> (r: Source)
        ensures
            r.id@ == source_id(name@),
            r.name@ == name@,
            r.kind == kind,
            r.profile == default_profile(kind),
            r.save_roots.deep_view() == save_roots.deep_view(),
            r.rom_roots.deep_view() == rom_roots.deep_view(),
            r.recursive == recursive,
            r.systems.deep_view() == default_systems(kind),
            !r.create_missing_system_dirs,
            !r.managed,
            r.origin@ == "manual"@,
    {
        let id = normalize_source_id(name.as_str());
        let profile = default_profile_for_kind(&kind);
        let systems = default_systems_for_kind(&kind);
        Source {
            id,
            name,
            kind,
            profile,
            save_roots,
            rom_roots,
            recursive,
            systems,
            create_missing_system_dirs: false,
            managed: false,
            origin: owned("manual"),
            created_at: now_rfc3339(),
        }
    }

    /// A source that the helper manages itself, with one save and one ROM root.
    pub fn managed(
        id: String,
        label: String,
        kind: SourceKind,
        profile: EmulatorProfile,
        save_path: String,
        rom_path: String,
        recursive: bool,
        origin: String,
    ) -> (r: Source)
        ensures
            r.id@ == id@,
            r.name@ == label@,
            r.kind == kind,
            r.profile == profile,
            r.save_roots.deep_view() == seq![save_path@],
            r.rom_roots.deep_view() == seq![rom_path@],
            r.recursive == recursive,
            r.systems.deep_view() == default_systems(kind),
            !r.create_missing_system_dirs,
            r.managed,
            r.origin@ == origin@,
    {
        let systems = default_systems_for_kind(&kind);
        let save_roots = vec![save_path];
        let rom_roots = vec![rom_path];
        assert(save_roots.deep_view() =~= seq![save_roots@[0]@]);
        assert(rom_roots.deep_view() =~= seq![rom_roots@[0]@]);
        Source {
            id,
            name: label,
            kind,
            profile,
            save_roots,
            rom_roots,
            recursive,
            systems,
            create_missing_system_dirs: false,
            managed: true,
            origin,
            created_at: now_rfc3339(),
        }
    }

    /// The same source with another system list.
    pub fn with_systems(self, systems: Vec<String>) -> (r: Source)
        ensures
            r == (Source { systems, ..self }),
    {
        let mut s = self;
        s.systems = systems;
        s
    }

    /// The source with its roots resolved against `binary_dir`.
    pub fn resolve(&self, binary_dir: &str) -> (r: ResolvedSource)
        ensures
            resolved_from(*self, binary_dir@, r),
    {
        ResolvedSource {
            id: self.id.clone(),
            name: self.name.clone(),
            kind: self.kind,
            profile: self.profile,
            save_roots: resolve_all_exec(binary_dir, &self.save_roots),
            rom_roots: resolve_all_exec(binary_dir, &self.rom_roots),
            recursive: self.recursive,
            systems: copy_strings(&self.systems),
            create_missing_system_dirs: self.create_missing_system_dirs,
            managed: self.managed,
            origin: self.origin.clone(),
        }
    }

    /// The first save root, or `.` when there is none.
    pub fn save_path(&self) -> (r: String)
        ensures
            r@ == first_or(self.save_roots.deep_view(), "."@),
    {
        if self.save_roots.len() > 0 {
            self.save_roots[0].clone()
        } else {
            owned(".")
        }
    }

    /// The first ROM root, or else the save path.
    pub fn rom_path(&self) -> (r: String)
        ensures
            r@ == first_or(self.rom_roots.deep_view(), first_or(self.save_roots.deep_view(), "."@)),
    {
        if self.rom_roots.len() > 0 {
            self.rom_roots[0].clone()
        } else {
            self.save_path()
        }
    }
}

/// Where the source list used to be stored.
pub fn source_store_path(state_dir: &str) -> (r: String)
    ensures
        r@ == path_join(state_dir@, "sources.json"@),
{
    join_path(state_dir, "sources.json")
}

/// Where the last scan report is written.
pub fn scan_report_path(state_dir: &str) -> (r: String)
    ensures
        r@ == path_join(state_dir@, "scan_report.json"@),
{
    join_path(state_dir, "scan_report.json")
}

// ---------------------------------------------------------------------------
// Adding and removing sources
// ---------------------------------------------------------------------------

/// The position of the first source with the id or the name, or -1.
pub open spec fn first_same_source(s: Seq<Source>, id: Seq<char>, name: Seq<char>) -> int
    decreases s.len(),
{
    if s.len() == 0 {
        -1
    } else if first_same_source(s.drop_last(), id, name) >= 0 {
        first_same_source(s.drop_last(), id, name)
    } else if s.last().id@ == id || s.last().name@ == name {
        s.len() - 1
    } else {
        -1
    }
}

pub proof fn lemma_first_same_source_bounds(s: Seq<Source>, id: Seq<char>, name: Seq<char>)
    ensures
        -1 <= first_same_source(s, id, name) < s.len(),
    decreases s.len(),
{
    if s.len() > 0 {
        lemma_first_same_source_bounds(s.drop_last(), id, name);
    }
}

/// The sources after adding `source`: it replaces the first source with
/// its id or name, or is added at the end.
pub open spec fn upserted(s: Seq<Source>, source: Source) -> Seq<Source> {
    let i = first_same_source(s, source.id@, source.name@);
    if i >= 0 {
        s.update(i, source)
    } else {
        s.push(source)
    }
}

/// Adds a source, or replaces the first one with the same id or name.
pub fn upsert_source(store: &mut SourceStore, source: Source)
    ensures
        final(store).sources@ == upserted(old(store).sources@, source),
{
    let mut i: usize = 0;
    while i < store.sources.len()
        invariant
            0 <= i <= store.sources@.len(),
            store.sources@ == old(store).sources@,
            first_same_source(store.sources@.subrange(0, i as int), source.id@, source.name@) == -1,
        decreases store.sources@.len() - i,
    {
        assert(store.sources@.subrange(0, i + 1).drop_last() =~= store.sources@.subrange(0, i as int));
        if str_eq(store.sources[i].id.as_str(), source.id.as_str()) || str_eq(
            store.sources[i].name.as_str(),
            source.name.as_str(),
        ) {
            proof {
                lemma_first_same_prefix(store.sources@, source.id@, source.name@, i + 1);
            }
            store.sources.set(i, source);
            return;
        }
        i = i + 1;
    }
    assert(store.sources@.subrange(0, store.sources@.len() as int) =~= store.sources@);
    store.sources.push(source);
}

proof fn lemma_first_same_prefix(s: Seq<Source>, id: Seq<char>, name: Seq<char>, n: int)
    requires
        0 <= n <= s.len(),
        first_same_source(s.subrange(0, n), id, name) >= 0,
    ensures
        first_same_source(s, id, name) == first_same_source(s.subrange(0, n), id, name),
    decreases s.len() - n,
{
    if n < s.len() {
        assert(s.subrange(0, n + 1).drop_last() =~= s.subrange(0, n));
        lemma_first_same_prefix(s, id, name, n + 1);
    } else {
        assert(s.subrange(0, n) =~= s);
    }
}

/// Whether a source is kept when the source `name` is removed.
pub open spec fn kept_on_remove(s: Source, name: Seq<char>) -> bool {
    s.id@ != source_id(name) && s.name@ != name && source_id(s.name@) != source_id(name)
}

pub open spec fn remaining_sources(s: Seq<Source>, name: Seq<char>) -> Seq<Source>
    decreases s.len(),
{
    if s.len() == 0 {
        seq![]
    } else if kept_on_remove(s.last(), name) {
        remaining_sources(s.drop_last(), name).push(s.last())
    } else {
        remaining_sources(s.drop_last(), name)
    }
}

/// An added source is listed: after `upsert_source`, the store holds it,
/// and holds at most one source more than before; every other source is
/// kept where it was.
pub proof fn law_upserted_source_is_listed(s: Seq<Source>, source: Source)
    ensures
        upserted(s, source).contains(source),
        upserted(s, source).len() <= s.len() + 1,
        forall|j: int| 0 <= j < s.len() && j != first_same_source(s, source.id@, source.name@)
            ==> #[trigger] upserted(s, source)[j] == s[j],
{
    lemma_first_same_source_bounds(s, source.id@, source.name@);
    let i = first_same_source(s, source.id@, source.name@);
    if i >= 0 {
        assert(upserted(s, source)[i] == source);
    } else {
        assert(upserted(s, source)[s.len() as int] == source);
    }
}

/// A removed source is gone: after `remove_source(name)`, no source is left
/// whose id or name is the name, or whose name has the name's id.
pub proof fn law_removed_source_is_gone(s: Seq<Source>, name: Seq<char>)
    ensures
        forall|j: int| 0 <= j < remaining_sources(s, name).len() ==> kept_on_remove(#[trigger] remaining_sources(s, name)[j], name),
    decreases s.len(),
{
    if s.len() > 0 {
        law_removed_source_is_gone(s.drop_last(), name);
        let r = remaining_sources(s.drop_last(), name);
        if kept_on_remove(s.last(), name) {
            assert forall|j: int| 0 <= j < r.push(s.last()).len() implies kept_on_remove(#[trigger] r.push(s.last())[j], name) by {
                if j < r.len() {
                    assert(r.push(s.last())[j] == r[j]);
                }
            }
        }
    }
}

/// Whether a source has the id or the name of an added one.
pub open spec fn same_source(x: Source, id: Seq<char>, name: Seq<char>) -> bool {
    x.id@ == id || x.name@ == name
}

proof fn lemma_first_same_source_is_first(s: Seq<Source>, id: Seq<char>, name: Seq<char>)
    ensures
        first_same_source(s, id, name) >= 0 ==> {
            let f = first_same_source(s, id, name);
            &&& f < s.len()
            &&& same_source(s[f], id, name)
            &&& forall|k: int| 0 <= k < f ==> !same_source(#[trigger] s[k], id, name)
        },
        first_same_source(s, id, name) < 0 ==> forall|k: int| 0 <= k < s.len() ==> !same_source(#[trigger] s[k], id, name),
    decreases s.len(),
{
    if s.len() > 0 {
        let t = s.drop_last();
        lemma_first_same_source_is_first(t, id, name);
        lemma_first_same_source_bounds(t, id, name);
        assert forall|k: int| 0 <= k < t.len() implies #[trigger] t[k] == s[k] by {}
        assert(s.last() == s[s.len() - 1]);
        if first_same_source(t, id, name) >= 0 {
            let f = first_same_source(t, id, name);
            assert(first_same_source(s, id, name) == f);
            assert(s[f] == t[f]);
            assert forall|k: int| 0 <= k < f implies !same_source(#[trigger] s[k], id, name) by {
                assert(s[k] == t[k]);
            }
        } else if same_source(s.last(), id, name) {
            assert(first_same_source(s, id, name) == s.len() - 1);
            assert forall|k: int| 0 <= k < s.len() - 1 implies !same_source(#[trigger] s[k], id, name) by {
                assert(s[k] == t[k]);
            }
        } else {
            assert(first_same_source(s, id, name) == -1);
            assert forall|k: int| 0 <= k < s.len() implies !same_source(#[trigger] s[k], id, name) by {
                if k < s.len() - 1 {
                    assert(s[k] == t[k]);
                }
            }
        }
    }
}

/// Adding a source replaces, in place, the first source that has its id or
/// its name; where none has, the source is added at the end.
pub proof fn law_upsert_replaces_first_match(s: Seq<Source>, source: Source)
    ensures
        forall|i: int| 0 <= i < s.len() && same_source(#[trigger] s[i], source.id@, source.name@)
            && (forall|k: int| 0 <= k < i ==> !same_source(#[trigger] s[k], source.id@, source.name@))
            ==> upserted(s, source) == s.update(i, source),
        (forall|k: int| 0 <= k < s.len() ==> !same_source(#[trigger] s[k], source.id@, source.name@))
            ==> upserted(s, source) == s.push(source),
{
    lemma_first_same_source_is_first(s, source.id@, source.name@);
    let f = first_same_source(s, source.id@, source.name@);
    assert forall|i: int| 0 <= i < s.len() && same_source(#[trigger] s[i], source.id@, source.name@)
        && (forall|k: int| 0 <= k < i ==> !same_source(#[trigger] s[k], source.id@, source.name@))
        implies upserted(s, source) == s.update(i, source) by {
        assert(f >= 0);
        if f < i {
            assert(!same_source(s[f], source.id@, source.name@));
        } else if f > i {
            assert(!same_source(s[i], source.id@, source.name@));
        }
    }
    if forall|k: int| 0 <= k < s.len() ==> !same_source(#[trigger] s[k], source.id@, source.name@) {
        if f >= 0 {
            assert(same_source(s[f], source.id@, source.name@));
        }
    }
}

/// Whether a source is kept when the source `name` is removed, as a predicate.
pub open spec fn kept_by_remove(name: Seq<char>) -> spec_fn(Source) -> bool {
    |x: Source| kept_on_remove(x, name)
}

/// Removing a source keeps exactly the other sources, in their order: those
/// whose id is not the name's id, whose name is not the name, and whose name
/// does not have the name's id. The list never grows, so `remove_source`
/// reports a removal exactly when the list got shorter.
pub proof fn law_remove_keeps_the_others_in_order(s: Seq<Source>, name: Seq<char>)
    ensures
        remaining_sources(s, name) == s.filter(kept_by_remove(name)),
        remaining_sources(s, name).len() <= s.len(),
    decreases s.len(),
{
    reveal(Seq::filter);
    if s.len() > 0 {
        law_remove_keeps_the_others_in_order(s.drop_last(), name);
    }
    s.lemma_filter_len(kept_by_remove(name));
}

/// Removes every source that the name or its id designates; says whether
/// any was removed.
pub fn remove_source(store: &mut SourceStore, name: &str) -> (r: bool)
    ensures
        final(store).sources@ == remaining_sources(old(store).sources@, name@),
        r == (final(store).sources@.len() != old(store).sources@.len()),
{
    let normalized = normalize_source_id(name);
    let before = store.sources.len();
    let ghost orig = old(store).sources@;
    let mut i: usize = 0;
    let ghost mut j: int = 0;
    while i < store.sources.len()
        invariant
            0 <= i <= store.sources@.len(),
            0 <= j <= orig.len(),
            before == orig.len(),
            normalized@ == source_id(name@),
            store.sources@.subrange(0, i as int) == remaining_sources(orig.subrange(0, j), name@),
            store.sources@.subrange(i as int, store.sources@.len() as int) == orig.subrange(j, orig.len() as int),
        decreases store.sources@.len() - i,
    {
        assert(store.sources@.subrange(i as int, store.sources@.len() as int).len() == orig.subrange(j, orig.len() as int).len());
        assert(j < orig.len());
        assert(orig.subrange(0, j + 1).drop_last() =~= orig.subrange(0, j));
        assert(store.sources@[i as int] == orig[j]) by {
            assert(store.sources@.subrange(i as int, store.sources@.len() as int)[0] == orig.subrange(j, orig.len() as int)[0]);
        }
        let sid = normalize_source_id(store.sources[i].name.as_str());
        let keep = !str_eq(store.sources[i].id.as_str(), normalized.as_str()) && !str_eq(
            store.sources[i].name.as_str(),
            name,
        ) && !str_eq(sid.as_str(), normalized.as_str());
        let ghost prev = store.sources@;
        if keep {
            i = i + 1;
            proof {
                j = j + 1;
                assert(store.sources@.subrange(0, i as int) =~= prev.subrange(0, i - 1).push(prev[i - 1]));
                assert(store.sources@.subrange(i as int, store.sources@.len() as int) =~= orig.subrange(j, orig.len() as int)) by {
                    assert(prev.subrange(i - 1, prev.len() as int).drop_first() =~= prev.subrange(i as int, prev.len() as int));
                    assert(orig.subrange(j - 1, orig.len() as int).drop_first() =~= orig.subrange(j, orig.len() as int));
                }
            }
        } else {
            let _removed = store.sources.remove(i);
            proof {
                j = j + 1;
                assert(store.sources@.subrange(0, i as int) =~= prev.subrange(0, i as int));
                assert(store.sources@.subrange(i as int, store.sources@.len() as int) =~= orig.subrange(j, orig.len() as int)) by {
                    assert(prev.subrange(i as int, prev.len() as int).drop_first() =~= store.sources@.subrange(i as int, store.sources@.len() as int));
                    assert(orig.subrange(j - 1, orig.len() as int).drop_first() =~= orig.subrange(j, orig.len() as int));
                }
            }
        }
    }
    proof {
        assert(store.sources@.subrange(i as int, store.sources@.len() as int).len() == 0);
        assert(j == orig.len());
        assert(orig.subrange(0, j) =~= orig);
        assert(store.sources@.subrange(0, i as int) =~= store.sources@);
    }
    before != store.sources.len()
}

// ---------------------------------------------------------------------------
// `[source.<id>]` sections of the configuration file
// ---------------------------------------------------------------------------

/// One `[source.<id>]` section: its id and its `KEY=value` pairs in order.
#[derive(Debug, Clone)]
pub struct SourceSection {
    pub id: String,
    pub values: Vec<(String, String)>,
}

/// The mathematical content of a section.
pub struct SectionView {
    pub id: Seq<char>,
    pub values: Seq<(Seq<char>, Seq<char>)>,
}

impl SourceSection {
    pub open spec fn view(self) -> SectionView {
        SectionView { id: self.id@, values: self.values.deep_view() }
    }
}

pub open spec fn sections_view(s: Seq<SourceSection>) -> Seq<SectionView> {
    Seq::new(s.len(), |i: int| s[i].view())
}

/// A trimmed line that opens a section: `[` ... `]`.
pub open spec fn is_header(t: Seq<char>) -> bool {
    t.len() > 0 && t[0] == '[' && t.last() == ']'
}

/// The name inside a header's brackets.
pub open spec fn header_name(t: Seq<char>) -> Seq<char> {
    strip_trail(strip_lead(t, '['), ']')
}

pub open spec fn source_prefix() -> Seq<char> {
    "source."@
}

/// The source section a header opens, if it names one.
pub open spec fn opened_section(t: Seq<char>) -> Option<SectionView> {
    let name = header_name(t);
    if starts_with(name, source_prefix()) {
        Some(
            SectionView {
                id: source_id(name.subrange(source_prefix().len() as int, name.len() as int)),
                values: seq![],
            },
        )
    } else {
        None
    }
}

pub open spec fn close_section(done: Seq<SectionView>, cur: Option<SectionView>) -> Seq<SectionView> {
    match cur {
        Some(c) => done.push(c),
        None => done,
    }
}

/// Reading the lines in order: the sections closed so far and the one open,
/// or the (1-based) number of the first line in a source section that is not
/// a pair.
pub open spec fn sections_state(ls: Seq<Seq<char>>) -> Result<
    (Seq<SectionView>, Option<SectionView>),
    nat,
>
    decreases ls.len(),
{
    if ls.len() == 0 {
        Ok((seq![], None))
    } else {
        match sections_state(ls.drop_last()) {
            Err(n) => Err(n),
            Ok((done, cur)) => {
                let t = trim(ls.last());
                if is_skipped_line(t) {
                    Ok((done, cur))
                } else if is_header(t) {
                    Ok((close_section(done, cur), opened_section(t)))
                } else {
                    match cur {
                        None => Ok((done, cur)),
                        Some(c) => {
                            if first_index(t, '=') < 0 {
                                Err(ls.len())
                            } else {
                                Ok(
                                    (
                                        done,
                                        Some(
                                            SectionView {
                                                id: c.id,
                                                values: c.values.push((pair_key(t), pair_value(t))),
                                            },
                                        ),
                                    ),
                                )
                            }
                        },
                    }
                }
            },
        }
    }
}

/// The source sections of a configuration file.
pub open spec fn source_sections(content: Seq<char>) -> Result<Seq<SectionView>, nat> {
    match sections_state(lines(content)) {
        Err(n) => Err(n),
        Ok((done, cur)) => Ok(close_section(done, cur)),
    }
}

proof fn lemma_sections_err_sticks(ls: Seq<Seq<char>>, n: int)
    requires
        0 <= n <= ls.len(),
        sections_state(ls.subrange(0, n)) is Err,
    ensures
        sections_state(ls) == sections_state(ls.subrange(0, n)),
    decreases ls.len() - n,
{
    if n < ls.len() {
        assert(ls.subrange(0, n + 1).drop_last() =~= ls.subrange(0, n));
        lemma_sections_err_sticks(ls, n + 1);
    } else {
        assert(ls.subrange(0, n) =~= ls);
    }
}

fn push_section(out: &mut Vec<SourceSection>, cur: Option<SourceSection>)
    ensures
        sections_view(final(out)@) == close_section(
            sections_view(old(out)@),
            match cur {
                Some(c) => Some(c.view()),
                None => None,
            },
        ),
{
    match cur {
        Some(c) => {
            let ghost before = sections_view(out@);
            let ghost cv = c.view();
            out.push(c);
            assert(sections_view(out@) =~= before.push(cv));
        },
        None => {},
    }
}

/// The `[source.<id>]` sections of a configuration file, in file order, each
/// with its `KEY=value` pairs (keys upper-cased, values trimmed and unquoted).
/// Lines outside source sections are ignored; inside one, a line that is
/// neither blank, a comment, a header nor a pair is an error.
pub fn parse_source_sections(content: &str) -> (r: Result<Vec<SourceSection>, crate::ini::IniLineError>)
    ensures
        match r {
            Ok(v) => source_sections(content@) == Ok::<Seq<SectionView>, nat>(sections_view(v@)),
            Err(e) => source_sections(content@) == Err::<Seq<SectionView>, nat>(e.line as nat),
        },
{
    let chars = chars_of(content);
    let ls = split_lines(chars.as_slice());
    let mut out: Vec<SourceSection> = Vec::new();
    let mut cur: Option<SourceSection> = None;
    let mut i: usize = 0;
    assert(ls.deep_view().subrange(0, 0) =~= Seq::<Seq<char>>::empty());
    assert(sections_view(out@) =~= Seq::<SectionView>::empty());
    while i < ls.len()
        invariant
            0 <= i <= ls@.len(),
            ls.deep_view() == lines(content@),
            sections_state(ls.deep_view().subrange(0, i as int)) == Ok::<
                (Seq<SectionView>, Option<SectionView>),
                nat,
            >(
                (
                    sections_view(out@),
                    match cur {
                        Some(c) => Some(c.view()),
                        None => None,
                    },
                ),
            ),
        decreases ls@.len() - i,
    {
        let ghost sub = ls.deep_view().subrange(0, i + 1);
        assert(sub.drop_last() =~= ls.deep_view().subrange(0, i as int));
        assert(sub.last() == ls@[i as int]@);
        let t = trim_vec(ls[i].as_slice());
        let n = t.len();
        if n == 0 || t[0] == '#' || t[0] == ';' {
        } else if t[0] == '[' && t[n - 1] == ']' {
            let taken = cur;
            push_section(&mut out, taken);
            let name = crate::text::strip_trail_vec(
                crate::text::strip_lead_vec(t.as_slice(), '[').as_slice(),
                ']',
            );
            let prefix = chars_of("source.");
            if crate::text::starts_with_exec(name.as_slice(), prefix.as_slice()) {
                let rest = crate::text::slice_vec(name.as_slice(), prefix.len(), name.len());
                let id = normalize_source_id(string_of(rest.as_slice()).as_str());
                let values: Vec<(String, String)> = Vec::new();
                assert(values.deep_view() =~= Seq::<(Seq<char>, Seq<char>)>::empty());
                cur = Some(SourceSection { id, values });
            } else {
                cur = None;
            }
        } else {
            match cur {
                None => {
                    cur = None;
                },
                Some(mut c) => {
                    match find_char(t.as_slice(), '=') {
                        None => {
                            proof {
                                lemma_sections_err_sticks(ls.deep_view(), i + 1);
                            }
                            return Err(crate::ini::IniLineError { line: i + 1 });
                        },
                        Some(eq) => {
                            let pair = split_pair(t.as_slice(), eq);
                            let ghost before = c.values.deep_view();
                            c.values.push(pair);
                            assert(c.values.deep_view() =~= before.push((pair.0@, pair.1@)));
                            cur = Some(c);
                        },
                    }
                },
            }
        }
        i = i + 1;
    }
    assert(ls.deep_view().subrange(0, ls@.len() as int) =~= ls.deep_view());
    push_section(&mut out, cur);
    Ok(out)
}

/// A flag setting read with a fallback: absent or unreadable gives `d`.
pub open spec fn flag_or(v: Option<Seq<char>>, d: bool) -> bool {
    match v {
        Some(x) => match bool_word(lower(trim(x))) {
            Some(b) => b,
            None => d,
        },
        None => d,
    }
}

pub open spec fn section_kind(values: Seq<(Seq<char>, Seq<char>)>) -> SourceKind {
    match lookup(values, "KIND"@) {
        Some(k) => match kind_from_word(lower(trim(k))) {
            Some(kind) => kind,
            None => SourceKind::Custom,
        },
        None => SourceKind::Custom,
    }
}

pub open spec fn section_profile(values: Seq<(Seq<char>, Seq<char>)>) -> EmulatorProfile {
    let raw = match lookup(values, "PROFILE"@) {
        Some(p) => Some(p),
        None => lookup(values, "EMULATOR"@),
    };
    match raw {
        Some(p) => match profile_from_word(lower(trim(p))) {
            Some(profile) => profile,
            None => default_profile(section_kind(values)),
        },
        None => default_profile(section_kind(values)),
    }
}

fn flag_setting(values: &Vec<(String, String)>, key: &str, d: bool) -> (r: bool)
    ensures
        r == flag_or(lookup(values.deep_view(), key@), d),
{
    match crate::ini::get_value(values, key) {
        Some(v) => match parse_bool(v.as_str()) {
            Ok(b) => b,
            Err(_) => d,
        },
        None => d,
    }
}


/// Whether `src` is the source that the section `sec` describes (all but its
/// creation time).
pub open spec fn source_describes(src: Source, sec: SectionView) -> bool {
    let vals = sec.values;
    let kind = section_kind(vals);
    let managed = flag_or(lookup(vals, "MANAGED"@), false);
    &&& src.id@ == sec.id
    &&& src.name@ == (match lookup(vals, "LABEL"@) {
        Some(l) => l,
        None => sec.id,
    })
    &&& src.kind == kind
    &&& src.profile == section_profile(vals)
    &&& src.save_roots.deep_view() == seq![lookup(vals, "SAVE_PATH"@)->0]
    &&& src.rom_roots.deep_view() == seq![
        match lookup(vals, "ROM_PATH"@) {
            Some(p) => p,
            None => lookup(vals, "SAVE_PATH"@)->0,
        },
    ]
    &&& src.recursive == flag_or(lookup(vals, "RECURSIVE"@), true)
    &&& src.managed == managed
    &&& src.systems.deep_view() == systems_setting(lookup(vals, "SYSTEMS"@), kind)
    &&& src.create_missing_system_dirs == flag_or(
        lookup(vals, "CREATE_MISSING_SYSTEM_DIRS"@),
        false,
    )
    &&& src.origin@ == (match lookup(vals, "ORIGIN"@) {
        Some(o) => o,
        None => if managed {
            "autoscan-known"@
        } else {
            "manual"@
        },
    })
}

/// The sections that describe a source: those with a `SAVE_PATH`.
pub open spec fn sections_with_save(secs: Seq<SectionView>) -> Seq<SectionView>
    decreases secs.len(),
{
    if secs.len() == 0 {
        seq![]
    } else if lookup(secs.last().values, "SAVE_PATH"@) is Some {
        sections_with_save(secs.drop_last()).push(secs.last())
    } else {
        sections_with_save(secs.drop_last())
    }
}

/// The source a section describes, or `None` when it has no `SAVE_PATH`.
/// Absent settings take their defaults: kind `custom`, the kind's profile,
/// the id as label, the save path as ROM path, recursive, not managed, the
/// kind's systems, no directory creation, and origin `autoscan-known` for a
/// managed source and `manual` otherwise.
pub fn source_from_section(section: &SourceSection) -> (r: Option<Source>)
    ensures
        r is None <==> lookup(section.values.deep_view(), "SAVE_PATH"@) is None,
        r matches Some(src) ==> source_describes(src, section.view()),
{
    let values = &section.values;
    let kind = match crate::ini::get_value(values, "KIND") {
        Some(k) => match SourceKind::parse(k.as_str()) {
            Some(kind) => kind,
            None => SourceKind::Custom,
        },
        None => SourceKind::Custom,
    };
    let raw_profile = match crate::ini::get_value(values, "PROFILE") {
        Some(p) => Some(p),
        None => crate::ini::get_value(values, "EMULATOR"),
    };
    let profile = match raw_profile {
        Some(p) => match EmulatorProfile::parse(p.as_str()) {
            Some(profile) => profile,
            None => default_profile_for_kind(&kind),
        },
        None => default_profile_for_kind(&kind),
    };
    let label = match crate::ini::get_value(values, "LABEL") {
        Some(l) => l.clone(),
        None => section.id.clone(),
    };
    let save_path = match crate::ini::get_value(values, "SAVE_PATH") {
        Some(p) => p.clone(),
        None => {
            return None;
        },
    };
    let rom_path = match crate::ini::get_value(values, "ROM_PATH") {
        Some(p) => p.clone(),
        None => save_path.clone(),
    };
    let recursive = flag_setting(values, "RECURSIVE", true);
    let managed = flag_setting(values, "MANAGED", false);
    let systems = match crate::ini::get_value(values, "SYSTEMS") {
        Some(v) => parse_systems(Some(v.as_str()), &kind),
        None => parse_systems(None, &kind),
    };
    let create_missing_system_dirs = flag_setting(values, "CREATE_MISSING_SYSTEM_DIRS", false);
    let origin = match crate::ini::get_value(values, "ORIGIN") {
        Some(o) => o.clone(),
        None => {
            if managed {
                owned("autoscan-known")
            } else {
                owned("manual")
            }
        },
    };
    let save_roots = vec![save_path];
    let rom_roots = vec![rom_path];
    assert(save_roots.deep_view() =~= seq![save_roots@[0]@]);
    assert(rom_roots.deep_view() =~= seq![rom_roots@[0]@]);
    Some(
        Source {
            id: section.id.clone(),
            name: label,
            kind,
            profile,
            save_roots,
            rom_roots,
            recursive,
            systems,
            create_missing_system_dirs,
            managed,
            origin,
            created_at: now_rfc3339(),
        },
    )
}

/// Reads the configured sources from the text of the configuration file:
/// the source of each source section that has a `SAVE_PATH`, in file order.
pub fn load_source_store(content: &str) -> (r: Result<SourceStore, crate::ini::IniLineError>)
    ensures
        match r {
            Ok(store) => source_sections(content@) is Ok && {
                let described = sections_with_save(source_sections(content@)->Ok_0);
                &&& store.sources@.len() == described.len()
                &&& forall|i: int|
                    0 <= i < described.len() ==> source_describes(
                        #[trigger] store.sources@[i],
                        described[i],
                    )
            },
            Err(e) => source_sections(content@) == Err::<Seq<SectionView>, nat>(e.line as nat),
        },
{
    let sections = match parse_source_sections(content) {
        Ok(s) => s,
        Err(e) => {
            return Err(e);
        },
    };
    let ghost secs = sections_view(sections@);
    let mut sources: Vec<Source> = Vec::new();
    let mut i: usize = 0;
    while i < sections.len()
        invariant
            0 <= i <= sections@.len(),
            secs == sections_view(sections@),
            sources@.len() == sections_with_save(secs.subrange(0, i as int)).len(),
            forall|k: int|
                0 <= k < sources@.len() ==> source_describes(
                    #[trigger] sources@[k],
                    sections_with_save(secs.subrange(0, i as int))[k],
                ),
        decreases sections@.len() - i,
    {
        let ghost sub = secs.subrange(0, i + 1);
        assert(sub.drop_last() =~= secs.subrange(0, i as int));
        assert(sub.last() == sections@[i as int].view());
        match source_from_section(&sections[i]) {
            Some(src) => {
                let ghost before = sources@;
                sources.push(src);
                assert forall|k: int| 0 <= k < sources@.len() implies source_describes(
                    #[trigger] sources@[k],
                    sections_with_save(sub)[k],
                ) by {
                    if k < before.len() {
                        assert(sources@[k] == before[k]);
                    }
                }
            },
            None => {},
        }
        i = i + 1;
    }
    assert(secs.subrange(0, sections@.len() as int) =~= secs);
    Ok(SourceStore { sources })
}

// ---------------------------------------------------------------------------
// Writing sources back into the configuration file
// ---------------------------------------------------------------------------

/// Reading lines in order: the lines kept so far, and whether a source
/// section is being skipped.
pub open spec fn strip_state(ls: Seq<Seq<char>>) -> (Seq<Seq<char>>, bool)
    decreases ls.len(),
{
    if ls.len() == 0 {
        (seq![], false)
    } else {
        let (kept, skipping) = strip_state(ls.drop_last());
        let l = ls.last();
        let t = trim(l);
        if is_header(t) {
            let skip = starts_with(header_name(t), source_prefix());
            (
                if !skip {
                    kept.push(l)
                } else {
                    kept
                },
                skip,
            )
        } else {
            (
                if !skipping {
                    kept.push(l)
                } else {
                    kept
                },
                skipping,
            )
        }
    }
}

/// Trailing blank lines removed.
pub open spec fn drop_blank_tail(ls: Seq<Seq<char>>) -> Seq<Seq<char>>
    decreases ls.len(),
{
    if ls.len() > 0 && trim(ls.last()).len() == 0 {
        drop_blank_tail(ls.drop_last())
    } else {
        ls
    }
}

/// The configuration text without its source sections and trailing blank
/// lines.
pub open spec fn without_source_sections(content: Seq<char>) -> Seq<char> {
    join_with(drop_blank_tail(strip_state(lines(content)).0), "\n"@)
}

/// Removes the `[source.<id>]` sections from configuration text, keeping
/// every other line as it was, and trailing blank lines.
pub fn strip_source_sections(content: &str) -> (r: String)
    ensures
        r@ == without_source_sections(content@),
{
    let chars = chars_of(content);
    let ls = split_lines(chars.as_slice());
    let mut kept: Vec<String> = Vec::new();
    let mut skipping = false;
    let mut i: usize = 0;
    assert(ls.deep_view().subrange(0, 0) =~= Seq::<Seq<char>>::empty());
    assert(kept.deep_view() =~= Seq::<Seq<char>>::empty());
    while i < ls.len()
        invariant
            0 <= i <= ls@.len(),
            ls.deep_view() == lines(content@),
            strip_state(ls.deep_view().subrange(0, i as int)) == (kept.deep_view(), skipping),
        decreases ls@.len() - i,
    {
        let ghost sub = ls.deep_view().subrange(0, i + 1);
        assert(sub.drop_last() =~= ls.deep_view().subrange(0, i as int));
        assert(sub.last() == ls@[i as int]@);
        let t = trim_vec(ls[i].as_slice());
        let n = t.len();
        let ghost before = kept.deep_view();
        if n > 0 && t[0] == '[' && t[n - 1] == ']' {
            let name = crate::text::strip_trail_vec(
                crate::text::strip_lead_vec(t.as_slice(), '[').as_slice(),
                ']',
            );
            let prefix = chars_of("source.");
            skipping = crate::text::starts_with_exec(name.as_slice(), prefix.as_slice());
            if !skipping {
                kept.push(string_of(ls[i].as_slice()));
                assert(kept.deep_view() =~= before.push(ls@[i as int]@));
            }
        } else if !skipping {
            kept.push(string_of(ls[i].as_slice()));
            assert(kept.deep_view() =~= before.push(ls@[i as int]@));
        }
        i = i + 1;
    }
    assert(ls.deep_view().subrange(0, ls@.len() as int) =~= ls.deep_view());
    let ghost all_kept = kept.deep_view();
    loop
        invariant
            drop_blank_tail(all_kept) == drop_blank_tail(kept.deep_view()),
        ensures
            drop_blank_tail(all_kept) == kept.deep_view(),
        decreases kept@.len(),
    {
        let n = kept.len();
        if n == 0 {
            break ;
        }
        let t = trim_str(kept[n - 1].as_str());
        if t.len() != 0 {
            assert(kept.deep_view().last() == kept@[n - 1]@);
            break ;
        }
        let ghost before = kept.deep_view();
        assert(before.last() == kept@[n - 1]@);
        kept.pop();
        assert(kept.deep_view() =~= before.drop_last());
    }
    crate::text::join_strings(&kept, "\n")
}

/// `KEY="value"`.
pub open spec fn quoted_setting(key: Seq<char>, value: Seq<char>) -> Seq<char> {
    key + "=\""@ + value + "\""@
}

fn quoted_line(key: &str, value: &str) -> (r: String)
    ensures
        r@ == quoted_setting(key@, value@),
{
    let mut r = owned(key);
    r.append("=\"");
    r.append(value);
    r.append("\"");
    r
}

/// The systems as written to the file: comma-separated, or `none`.
pub open spec fn systems_text(systems: Seq<Seq<char>>) -> Seq<char> {
    if systems.len() == 0 {
        "none"@
    } else {
        join_with(systems, ","@)
    }
}

/// The settings of a source's section, as key and value: what the lines
/// of `source_block` hold once their quotes are taken off.
pub open spec fn block_values(s: Source) -> Seq<(Seq<char>, Seq<char>)> {
    seq![
        ("LABEL"@, s.name@),
        ("KIND"@, kind_name(s.kind)),
        ("PROFILE"@, profile_name(s.profile)),
        ("SAVE_PATH"@, first_or(s.save_roots.deep_view(), "."@)),
        ("ROM_PATH"@, first_or(s.rom_roots.deep_view(), first_or(s.save_roots.deep_view(), "."@))),
        ("RECURSIVE"@, bool_text(s.recursive)),
        ("SYSTEMS"@, systems_text(s.systems.deep_view())),
        ("CREATE_MISSING_SYSTEM_DIRS"@, bool_text(s.create_missing_system_dirs)),
        ("MANAGED"@, bool_text(s.managed)),
        ("ORIGIN"@, s.origin@),
    ]
}

/// A source's settings read back as the source: a source that a section
/// with the source's id and the settings of `block_values` describes has
/// the source's name, kind, profile, single save and ROM folder, flags and
/// origin, and the systems its `SYSTEMS` setting selects. (The reading of
/// the file's lines into these settings is `law_rendered_store_reads_back`.)
pub proof fn law_source_settings_read_back(s: Source, r: Source)
    requires
        s.save_roots@.len() == 1,
        s.rom_roots@.len() == 1,
        source_describes(r, SectionView { id: s.id@, values: block_values(s) }),
    ensures
        r.id@ == s.id@,
        r.name@ == s.name@,
        r.kind == s.kind,
        r.profile == s.profile,
        r.save_roots.deep_view() == s.save_roots.deep_view(),
        r.rom_roots.deep_view() == s.rom_roots.deep_view(),
        r.recursive == s.recursive,
        r.create_missing_system_dirs == s.create_missing_system_dirs,
        r.managed == s.managed,
        r.origin@ == s.origin@,
        r.systems.deep_view() == systems_setting(Some(systems_text(s.systems.deep_view())), s.kind),
{
    reveal_strlit("LABEL");
    reveal_strlit("KIND");
    reveal_strlit("PROFILE");
    reveal_strlit("SAVE_PATH");
    reveal_strlit("ROM_PATH");
    reveal_strlit("RECURSIVE");
    reveal_strlit("SYSTEMS");
    reveal_strlit("CREATE_MISSING_SYSTEM_DIRS");
    reveal_strlit("MANAGED");
    reveal_strlit("ORIGIN");
    reveal_strlit("EMULATOR");
    reveal_strlit("true");
    reveal_strlit("false");
    reveal_strlit("1");
    reveal_strlit("0");
    reveal_strlit("yes");
    reveal_strlit("no");
    reveal_strlit("on");
    reveal_strlit("off");
    let v = block_values(s);
    reveal_with_fuel(crate::ini::lookup, 11);
    assert(v.len() == 10);
    assert(v[0].0.len() == 5 && v[1].0.len() == 4 && v[2].0.len() == 7 && v[3].0.len() == 9 && v[4].0.len() == 8
        && v[5].0.len() == 9 && v[6].0.len() == 7 && v[7].0.len() == 26 && v[8].0.len() == 7 && v[9].0.len() == 6);
    assert(v[2].0[0] == 'P' && v[6].0[0] == 'S' && v[8].0[0] == 'M');
    assert("KIND"@.len() == 4 && "PROFILE"@.len() == 7 && "PROFILE"@[0] == 'P');
    assert forall|i: int| 2 <= i < v.len() implies (#[trigger] v[i]).0 != "KIND"@ by {
        assert(v[i].0.len() != 4);
    }
    assert forall|i: int| 3 <= i < v.len() implies (#[trigger] v[i]).0 != "PROFILE"@ by {
        if v[i].0.len() == 7 {
            assert(v[i].0[0] != 'P');
        }
    }
    lemma_lookup_prefix(v, 2, "KIND"@);
    assert(v.subrange(0, 2) =~= seq![v[0], v[1]]);
    assert(crate::ini::lookup(v, "KIND"@) == Some(kind_name(s.kind)));
    lemma_lookup_prefix(v, 3, "PROFILE"@);
    assert(v.subrange(0, 3) =~= seq![v[0], v[1], v[2]]);
    assert(crate::ini::lookup(v, "PROFILE"@) == Some(profile_name(s.profile)));
    assert(crate::ini::lookup(v, "LABEL"@) == Some(s.name@));
    assert(v[3].0[0] == 'S' && v[5].0[0] == 'R' && "SAVE_PATH"@.len() == 9 && "SAVE_PATH"@[0] == 'S');
    assert forall|i: int| 4 <= i < v.len() implies (#[trigger] v[i]).0 != "SAVE_PATH"@ by {
        if v[i].0.len() == 9 {
            assert(v[i].0[0] != 'S');
        }
    }
    lemma_lookup_prefix(v, 4, "SAVE_PATH"@);
    assert(v.subrange(0, 4) =~= seq![v[0], v[1], v[2], v[3]]);
    assert(crate::ini::lookup(v, "SAVE_PATH"@) == Some(first_or(s.save_roots.deep_view(), "."@)));
    assert("SYSTEMS"@.len() == 7 && "SYSTEMS"@[0] == 'S');
    assert forall|i: int| 7 <= i < v.len() implies (#[trigger] v[i]).0 != "SYSTEMS"@ by {
        if v[i].0.len() == 7 {
            assert(v[i].0[0] != 'S');
        }
    }
    lemma_lookup_prefix(v, 7, "SYSTEMS"@);
    assert(v.subrange(0, 7) =~= seq![v[0], v[1], v[2], v[3], v[4], v[5], v[6]]);
    assert(crate::ini::lookup(v, "SYSTEMS"@) == Some(systems_text(s.systems.deep_view())));
    assert(crate::ini::lookup(v, "ROM_PATH"@) == Some(first_or(s.rom_roots.deep_view(), first_or(s.save_roots.deep_view(), "."@))));
    assert(crate::ini::lookup(v, "RECURSIVE"@) == Some(bool_text(s.recursive)));
    assert(crate::ini::lookup(v, "MANAGED"@) == Some(bool_text(s.managed)));
    assert(crate::ini::lookup(v, "CREATE_MISSING_SYSTEM_DIRS"@) == Some(bool_text(s.create_missing_system_dirs)));
    assert(crate::ini::lookup(v, "ORIGIN"@) == Some(s.origin@));
    law_kind_name_round_trip(s.kind, kind_name(s.kind));
    law_profile_name_round_trip(s.profile, profile_name(s.profile));
    lemma_plain_word(bool_text(true));
    lemma_plain_word(bool_text(false));
    assert(s.save_roots.deep_view() =~= seq![first_or(s.save_roots.deep_view(), "."@)]);
    assert(s.rom_roots.deep_view() =~= seq![first_or(s.rom_roots.deep_view(), first_or(s.save_roots.deep_view(), "."@))]);
}

proof fn lemma_lookup_prefix(pairs: Seq<(Seq<char>, Seq<char>)>, n: int, k: Seq<char>)
    requires
        0 <= n <= pairs.len(),
        forall|i: int| n <= i < pairs.len() ==> (#[trigger] pairs[i]).0 != k,
    ensures
        crate::ini::lookup(pairs, k) == crate::ini::lookup(pairs.subrange(0, n), k),
    decreases pairs.len(),
{
    if pairs.len() > n {
        lemma_lookup_prefix(pairs.drop_last(), n, k);
        assert(pairs.drop_last().subrange(0, n) =~= pairs.subrange(0, n));
    } else {
        assert(pairs.subrange(0, n) =~= pairs);
    }
}

/// The lines of one source's section.
pub open spec fn source_block(s: Source) -> Seq<Seq<char>> {
    seq![
        "[source."@ + s.id@ + "]"@,
        quoted_setting("LABEL"@, escape_quotes(s.name@)),
        quoted_setting("KIND"@, kind_name(s.kind)),
        quoted_setting("PROFILE"@, profile_name(s.profile)),
        quoted_setting("SAVE_PATH"@, escape_quotes(first_or(s.save_roots.deep_view(), "."@))),
        quoted_setting(
            "ROM_PATH"@,
            escape_quotes(
                first_or(s.rom_roots.deep_view(), first_or(s.save_roots.deep_view(), "."@)),
            ),
        ),
        quoted_setting("RECURSIVE"@, bool_text(s.recursive)),
        quoted_setting("SYSTEMS"@, escape_quotes(systems_text(s.systems.deep_view()))),
        quoted_setting("CREATE_MISSING_SYSTEM_DIRS"@, bool_text(s.create_missing_system_dirs)),
        quoted_setting("MANAGED"@, bool_text(s.managed)),
        quoted_setting("ORIGIN"@, escape_quotes(s.origin@)),
    ]
}

fn push_source_block(lines_out: &mut Vec<String>, s: &Source)
    ensures
        final(lines_out).deep_view() == old(lines_out).deep_view() + source_block(*s),
{
    let ghost before = lines_out.deep_view();
    lines_out.push(crate::text::concat3("[source.", s.id.as_str(), "]"));
    lines_out.push(quoted_line("LABEL", escape_quotes_str(s.name.as_str()).as_str()));
    lines_out.push(quoted_line("KIND", s.kind.as_str()));
    lines_out.push(quoted_line("PROFILE", s.profile.as_str()));
    lines_out.push(quoted_line("SAVE_PATH", escape_quotes_str(s.save_path().as_str()).as_str()));
    lines_out.push(quoted_line("ROM_PATH", escape_quotes_str(s.rom_path().as_str()).as_str()));
    lines_out.push(quoted_line("RECURSIVE", bool_str(s.recursive)));
    let systems = if s.systems.len() == 0 {
        owned("none")
    } else {
        crate::text::join_strings(&s.systems, ",")
    };
    lines_out.push(quoted_line("SYSTEMS", escape_quotes_str(systems.as_str()).as_str()));
    lines_out.push(quoted_line("CREATE_MISSING_SYSTEM_DIRS", bool_str(s.create_missing_system_dirs)));
    lines_out.push(quoted_line("MANAGED", bool_str(s.managed)));
    lines_out.push(quoted_line("ORIGIN", escape_quotes_str(s.origin.as_str()).as_str()));
    assert(lines_out.deep_view() =~= before + source_block(*s));
}

/// Stable insertion of position `x` into positions ordered by source id.
pub open spec fn insert_by_id(s: Seq<Source>, sorted: Seq<int>, x: int) -> Seq<int>
    decreases sorted.len(),
{
    if sorted.len() == 0 {
        seq![x]
    } else if lex_le(s[sorted.last()].id@, s[x].id@) {
        sorted.push(x)
    } else {
        insert_by_id(s, sorted.drop_last(), x).push(sorted.last())
    }
}

/// The positions of the first `n` sources, stably sorted by id.
pub open spec fn order_by_id(s: Seq<Source>, n: nat) -> Seq<int>
    decreases n,
{
    if n == 0 {
        seq![]
    } else {
        insert_by_id(s, order_by_id(s, (n - 1) as nat), n - 1)
    }
}

pub open spec fn positions(v: Seq<usize>) -> Seq<int> {
    Seq::new(v.len(), |i: int| v[i] as int)
}

fn insert_by_id_exec(s: &[Source], sorted: Vec<usize>, x: usize) -> (r: Vec<usize>)
    requires
        x < s@.len(),
        forall|i: int| 0 <= i < sorted@.len() ==> sorted@[i] < s@.len(),
    ensures
        positions(r@) == insert_by_id(s@, positions(sorted@), x as int),
        forall|i: int| 0 <= i < r@.len() ==> r@[i] < s@.len(),
    decreases sorted@.len(),
{
    let n = sorted.len();
    if n == 0 {
        let r = vec![x];
        assert(positions(r@) =~= seq![x as int]);
        return r;
    }
    let last = sorted[n - 1];
    assert(positions(sorted@).last() == last as int);
    if lex_le_exec(chars_of(s[last].id.as_str()).as_slice(), chars_of(s[x].id.as_str()).as_slice()) {
        let mut r = sorted;
        let ghost before = positions(r@);
        r.push(x);
        assert(positions(r@) =~= before.push(x as int));
        r
    } else {
        let mut rest = sorted;
        let ghost before = positions(rest@);
        let l = rest.pop().unwrap();
        assert(positions(rest@) =~= before.drop_last());
        let mut r = insert_by_id_exec(s, rest, x);
        let ghost mid = positions(r@);
        r.push(l);
        assert(positions(r@) =~= mid.push(l as int));
        r
    }
}

fn order_by_id_exec(s: &[Source]) -> (r: Vec<usize>)
    ensures
        positions(r@) == order_by_id(s@, s@.len()),
        forall|i: int| 0 <= i < r@.len() ==> r@[i] < s@.len(),
{
    let mut r: Vec<usize> = Vec::new();
    let mut i: usize = 0;
    assert(positions(r@) =~= Seq::<int>::empty());
    while i < s.len()
        invariant
            0 <= i <= s@.len(),
            positions(r@) == order_by_id(s@, i as nat),
            forall|k: int| 0 <= k < r@.len() ==> r@[k] < s@.len(),
        decreases s@.len() - i,
    {
        r = insert_by_id_exec(s, r, i);
        i = i + 1;
    }
    r
}

/// The lines of the configuration: the base (when not blank), then each
/// source's section in the given order, separated by blank lines.
pub open spec fn config_lines(base: Seq<char>, s: Seq<Source>, order: Seq<int>) -> Seq<Seq<char>>
    decreases order.len(),
{
    if order.len() == 0 {
        if trim(base).len() > 0 {
            seq![base]
        } else {
            seq![]
        }
    } else {
        let prev = config_lines(base, s, order.drop_last());
        (if prev.len() > 0 {
            prev.push(seq![])
        } else {
            prev
        }) + source_block(s[order.last()])
    }
}

/// The configuration text with the sources written after the base, sorted
/// by id, ending in a new line.
pub open spec fn rendered_config(base: Seq<char>, s: Seq<Source>) -> Seq<char> {
    join_with(config_lines(base, s, order_by_id(s, s.len())), "\n"@) + "\n"@
}

/// The configuration text that saving the sources writes over `existing`:
/// its source sections taken out, then the sources written after the rest.
pub fn saved_config_text(existing: &str, sources: &[Source]) -> (r: String)
    ensures
        r@ == rendered_config(without_source_sections(existing@), sources@),
{
    let base = strip_source_sections(existing);
    render_config_with_sources(base.as_str(), sources)
}

/// Writes the sources, sorted by id, as sections after the base text.
pub fn render_config_with_sources(base: &str, sources: &[Source]) -> (r: String)
    ensures
        r@ == rendered_config(base@, sources@),
{
    let order = order_by_id_exec(sources);
    let mut out: Vec<String> = Vec::new();
    let bt = trim_str(base);
    if bt.len() > 0 {
        out.push(owned(base));
    }
    let ghost ord = positions(order@);
    assert(out.deep_view() =~= config_lines(base@, sources@, ord.subrange(0, 0)));
    let mut k: usize = 0;
    while k < order.len()
        invariant
            0 <= k <= order@.len(),
            ord == positions(order@),
            forall|i: int| 0 <= i < order@.len() ==> order@[i] < sources@.len(),
            out.deep_view() == config_lines(base@, sources@, ord.subrange(0, k as int)),
        decreases order@.len() - k,
    {
        let ghost sub = ord.subrange(0, k + 1);
        assert(sub.drop_last() =~= ord.subrange(0, k as int));
        assert(sub.last() == order@[k as int] as int);
        if out.len() > 0 {
            let ghost before = out.deep_view();
            out.push(String::new());
            assert(out.deep_view() =~= before.push(seq![]));
        }
        push_source_block(&mut out, &sources[order[k]]);
        k = k + 1;
    }
    assert(ord.subrange(0, order@.len() as int) =~= ord);
    let joined = crate::text::join_strings(&out, "\n");
    crate::text::concat2(joined.as_str(), "\n")
}

// ---------------------------------------------------------------------------
// The default source
// ---------------------------------------------------------------------------

/// The name, save root and ROM root of the default source of a kind, for a
/// resolved root and, on a Steam Deck, the EmuDeck folder found, if any.
pub open spec fn default_layout(kind: SourceKind, root: Seq<char>, emudeck: Option<Seq<char>>) -> (
    Seq<char>,
    Seq<char>,
    Seq<char>,
) {
    match kind {
        SourceKind::MisterFpga => (
            "default-mister"@,
            path_join(root, "saves"@),
            path_join(root, "games"@),
        ),
        SourceKind::RetroArch => (
            "default-retroarch"@,
            path_join(root, "saves"@),
            path_join(root, "roms"@),
        ),
        SourceKind::OpenEmu => ("default-openemu"@, path_join(root, "Save States"@), root),
        SourceKind::AnaloguePocket => ("default-analogue-pocket"@, path_join(root, "Saves"@), root),
        SourceKind::Windows => ("default-windows"@, root, root),
        SourceKind::SteamDeck => match emudeck {
            Some(e) => ("auto-emudeck"@, path_join(e, "saves"@), path_join(e, "roms"@)),
            None => ("default-steamdeck"@, root, root),
        },
        SourceKind::Custom => ("default-custom"@, root, root),
    }
}

/// The source used when none is configured: laid out by kind under the
/// configured root (on a Steam Deck, under the EmuDeck folder when one was
/// found), recursive, with the kind's profile and systems, origin `default`.
/// `r` is the default source of `kind` for the configuration: the layout
/// of the kind under the configured root (or the EmuDeck folder), recursive,
/// with the kind's profile and systems, unmanaged, of origin `default`.
pub open spec fn is_default_source(config: crate::mister::config::AppConfig, kind: SourceKind, emudeck_root: Option<Seq<char>>, r: Source) -> bool {
    let (name, save, rom) = default_layout(kind, path_join(config.binary_dir@, config.root@), emudeck_root);
    &&& r.name@ == name
    &&& r.id@ == source_id(name)
    &&& r.save_roots.deep_view() == seq![save]
    &&& r.rom_roots.deep_view() == seq![rom]
    &&& r.kind == kind
    &&& r.profile == default_profile(kind)
    &&& r.recursive
    &&& r.systems.deep_view() == default_systems(kind)
    &&& !r.create_missing_system_dirs
    &&& !r.managed
    &&& r.origin@ == "default"@
}

pub open spec fn opt_seq(o: Option<&str>) -> Option<Seq<char>> {
    match o {
        Some(e) => Some(e@),
        None => None,
    }
}

pub fn default_source(
    config: &crate::mister::config::AppConfig,
    kind: SourceKind,
    emudeck_root: Option<&str>,
) -> (r: Source)
    ensures
        is_default_source(*config, kind, opt_seq(emudeck_root), r),
{
    let root = config.resolved_root();
    let (name, save, rom): (&str, String, String) = match kind {
        SourceKind::MisterFpga => (
            "default-mister",
            join_path(root.as_str(), "saves"),
            join_path(root.as_str(), "games"),
        ),
        SourceKind::RetroArch => (
            "default-retroarch",
            join_path(root.as_str(), "saves"),
            join_path(root.as_str(), "roms"),
        ),
        SourceKind::OpenEmu => (
            "default-openemu",
            join_path(root.as_str(), "Save States"),
            root.clone(),
        ),
        SourceKind::AnaloguePocket => (
            "default-analogue-pocket",
            join_path(root.as_str(), "Saves"),
            root.clone(),
        ),
        SourceKind::Windows => ("default-windows", root.clone(), root.clone()),
        SourceKind::SteamDeck => match emudeck_root {
            Some(e) => ("auto-emudeck", join_path(e, "saves"), join_path(e, "roms")),
            None => ("default-steamdeck", root.clone(), root.clone()),
        },
        SourceKind::Custom => ("default-custom", root.clone(), root.clone()),
    };
    let save_roots = vec![save];
    let rom_roots = vec![rom];
    assert(save_roots.deep_view() =~= seq![save_roots@[0]@]);
    assert(rom_roots.deep_view() =~= seq![rom_roots@[0]@]);
    let mut source = Source::new(owned(name), kind, save_roots, rom_roots, true);
    source.managed = false;
    source.origin = owned("default");
    source
}

/// The configured sources resolved against the helper's directory, or the
/// default source of `default_kind` when none is configured.
pub fn resolved_sources_or_default(
    store: &SourceStore,
    config: &crate::mister::config::AppConfig,
    default_kind: SourceKind,
    emudeck_root: Option<&str>,
) -> (r: Vec<ResolvedSource>)
    ensures
        store.sources@.len() == 0 ==> r@.len() == 1 && exists|d: Source|
            is_default_source(*config, default_kind, opt_seq(emudeck_root), d) && resolved_from(d, config.binary_dir@, #[trigger] r@[0]),
        store.sources@.len() > 0 ==> r@.len() == store.sources@.len() && forall|i: int|
            0 <= i < r@.len() ==> resolved_from(store.sources@[i], config.binary_dir@, #[trigger] r@[i]),
{
    if store.sources.len() == 0 {
        let source = default_source(config, default_kind, emudeck_root);
        let r = source.resolve(config.binary_dir.as_str());
        let v = vec![r];
        assert(v@[0] == r);
        return v;
    }
    let mut out: Vec<ResolvedSource> = Vec::new();
    let mut i: usize = 0;
    while i < store.sources.len()
        invariant
            0 <= i <= store.sources@.len(),
            out@.len() == i,
            forall|k: int| 0 <= k < i ==> resolved_from(store.sources@[k], config.binary_dir@, #[trigger] out@[k]),
        decreases store.sources@.len() - i,
    {
        out.push(store.sources[i].resolve(config.binary_dir.as_str()));
        i = i + 1;
    }
    out
}

/// The note shown when an EmuDeck folder was found on a Steam Deck.
pub fn steamdeck_autodetect_note(emudeck_root: Option<&str>) -> (r: Option<String>)
    ensures
        match emudeck_root {
            Some(e) => r matches Some(n) && n@ == "EmuDeck detected: using "@ + path_join(
                e@,
                "saves"@,
            ) + " as save location."@,
            None => r is None,
        },
{
    match emudeck_root {
        Some(e) => {
            let saves = join_path(e, "saves");
            Some(crate::text::concat3("EmuDeck detected: using ", saves.as_str(), " as save location."))
        },
        None => None,
    }
}

} // verus!

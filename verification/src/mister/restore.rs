//! Restoring saves that only the cloud holds: which listed saves are taken,
//! where each one is written and under which name, and how the listing is
//! paged through.
use vstd::prelude::*;
use crate::mister::sources::{EmulatorProfile, SourceKind, alnum_lower, alnum_lower_vec};
use crate::mister::syncer::{preferred_path, preferred_save_path, source_dir, system_directory_for_source};
use crate::steamdeck::ports::{pieces, pieces_exec, relative_path_under, relative_under};
use crate::mister::syncer::{
    allows_system, clean_extension, name_extension, normalize_extension_value,
    extension_from_filename, profile_is_system_specific, profile_specific, safe_file_name,
    sanitize_filename, source_allows_system, supports_cloud_restore_system,
};
use crate::mister::sources::all_sync_systems;
use crate::paths::{file_extension, file_name, file_stem, path_file_extension, path_file_name, path_file_stem, path_join, join_path};
use crate::steamdeck::api::{CloudSaveSummary, DownloadProfile, cloud_display, cloud_system};
use crate::steamdeck::scanner::{
    InvalidMemoryCard, SaveContainerFormat, normalize_save_bytes_for_sync, normalized_form,
    wii_code_of_path, wii_title_code, normalize_wii_title_code, wii_title_code_from_path,
};
use crate::text::{
    chars_of, eq_lit, lower, lower_str, lower_vec, owned, seq_eq, str_eq, string_of, trim, trim_str,
    trim_vec,
};

verus! {

// ---------------------------------------------------------------------------
// Which listed saves are restored
// ---------------------------------------------------------------------------

/// The system a listed save is restored as: its system, lower-cased, when the
/// helper can restore that system and the source syncs it.
pub open spec fn restore_system(c: CloudSaveSummary, systems: Seq<Seq<char>>) -> Option<Seq<char>> {
    match cloud_system(c) {
        Some(s) => {
            let slug = lower(s);
            if all_sync_systems().contains(slug) && allows_system(systems, slug) {
                Some(slug)
            } else {
                None
            }
        },
        None => None,
    }
}

/// The system a listed save is restored as, if it is restored at all.
pub fn cloud_restore_system(cloud_save: &CloudSaveSummary, source_systems: &[String]) -> (r: Option<String>)
    ensures
        match r {
            Some(s) => restore_system(*cloud_save, source_systems@.map_values(|x: String| x@)) == Some(s@),
            None => restore_system(*cloud_save, source_systems@.map_values(|x: String| x@)) is None,
        },
{
    let s = match cloud_save.system_slug() {
        Some(s) => s,
        None => {
            return None;
        },
    };
    let slug = string_of(lower_str(s.as_str()).as_slice());
    if !supports_cloud_restore_system(slug.as_str()) {
        return None;
    }
    if !source_allows_system(source_systems, slug.as_str()) {
        return None;
    }
    Some(slug)
}

// ---------------------------------------------------------------------------
// Paging through the listing
// ---------------------------------------------------------------------------

/// Where the listing goes on after a page of `page_len` saves read at
/// `offset`: nowhere after an empty page; else past the page, unless the
/// stated total is reached, or, with no total, the page came back short.
pub open spec fn next_offset(offset: nat, page_len: nat, total: nat, limit: nat) -> Option<nat> {
    if page_len == 0 {
        None
    } else if total > 0 {
        if offset + page_len >= total {
            None
        } else {
            Some(offset + page_len)
        }
    } else if page_len < limit {
        None
    } else {
        Some(offset + page_len)
    }
}

/// The offset of the next page of the listing, if there is one.
pub fn next_page_offset(offset: usize, page_len: usize, total: usize, limit: usize) -> (r: Option<usize>)
    requires
        offset + page_len <= usize::MAX,
    ensures
        match r {
            Some(n) => next_offset(offset as nat, page_len as nat, total as nat, limit as nat) == Some(n as nat),
            None => next_offset(offset as nat, page_len as nat, total as nat, limit as nat) is None,
        },
{
    if page_len == 0 {
        return None;
    }
    let next = offset + page_len;
    if total > 0 {
        if next >= total {
            None
        } else {
            Some(next)
        }
    } else if page_len < limit {
        None
    } else {
        Some(next)
    }
}

/// Paging always moves forward, so the listing is read to its end.
pub proof fn law_paging_moves_forward(offset: nat, page_len: nat, total: nat, limit: nat)
    ensures
        next_offset(offset, page_len, total, limit) matches Some(n) ==> n > offset,
        total > 0 && next_offset(offset, page_len, total, limit) is Some ==> next_offset(offset, page_len, total, limit)->0 < total,
{
}

// ---------------------------------------------------------------------------
// The extension and name a restored save gets
// ---------------------------------------------------------------------------

/// Whether a download profile has the id (any ASCII case) and an extension
/// that is not blank.
pub open spec fn profile_fits(p: DownloadProfile, id: Seq<char>) -> bool {
    lower(p.id@) == lower(id) && p.target_extension is Some && trim(p.target_extension->0@).len() > 0
}

/// The first download profile from `i` on that fits the id.
pub open spec fn profile_from(ps: Seq<DownloadProfile>, id: Seq<char>, i: int) -> Option<DownloadProfile>
    decreases ps.len() - i,
{
    if i < 0 || i >= ps.len() {
        None
    } else if profile_fits(ps[i], id) {
        Some(ps[i])
    } else {
        profile_from(ps, id, i + 1)
    }
}

proof fn lemma_profile_from_fits(ps: Seq<DownloadProfile>, id: Seq<char>, i: int)
    requires
        profile_from(ps, id, i) is Some,
    ensures
        profile_fits(profile_from(ps, id, i)->0, id),
    decreases ps.len() - i,
{
    if 0 <= i < ps.len() && !profile_fits(ps[i], id) {
        lemma_profile_from_fits(ps, id, i + 1);
    }
}

fn find_profile<'a>(ps: &'a Vec<DownloadProfile>, id: &str) -> (r: Option<&'a DownloadProfile>)
    ensures
        match r {
                Some(p) => profile_from(ps@, id@, 0) == Some(*p) && profile_fits(*p, id@),
            None => profile_from(ps@, id@, 0) is None,
        },
{
    let want = lower_str(id);
    let mut i: usize = 0;
    while i < ps.len()
        invariant
            0 <= i <= ps@.len(),
            want@ == lower(id@),
            profile_from(ps@, id@, 0) == profile_from(ps@, id@, i as int),
        decreases ps@.len() - i,
    {
        let p = &ps[i];
        let pid = lower_str(p.id.as_str());
        let fits = seq_eq(pid.as_slice(), want.as_slice()) && match &p.target_extension {
            Some(e) => trim_str(e.as_str()).len() > 0,
            None => false,
        };
        if fits {
            proof {
                lemma_profile_from_fits(ps@, id@, i as int);
            }
            return Some(p);
        }
        i = i + 1;
    }
    None
}

/// The extension a restored save is written with: that of the download
/// profile of the runtime (whose extension is not blank), normalised; else
/// that of the `original` profile, normalised; else the extension of the
/// listed file name.
pub open spec fn target_extension(c: CloudSaveSummary, runtime: Option<Seq<char>>) -> Option<Seq<char>> {
    let by_runtime = match runtime {
        Some(rp) => profile_from(c.download_profiles@, rp, 0),
        None => None,
    };
    match by_runtime {
        Some(p) => clean_extension(p.target_extension->0@),
        None => {
            let by_original = match profile_from(c.download_profiles@, "original"@, 0) {
                Some(p) => clean_extension(p.target_extension->0@),
                None => None,
            };
            match by_original {
                Some(e) => Some(e),
                None => name_extension(c.filename@),
            }
        },
    }
}

/// The extension a restored save is written with; see `target_extension`.
pub fn cloud_target_extension(cloud_save: &CloudSaveSummary, runtime_profile: Option<&str>) -> (r: Option<String>)
    ensures
        match r {
            Some(e) => target_extension(*cloud_save, crate::text::opt_chars(runtime_profile)) == Some(e@),
            None => target_extension(*cloud_save, crate::text::opt_chars(runtime_profile)) is None,
        },
{
    let ghost rt = crate::text::opt_chars(runtime_profile);
    match runtime_profile {
        Some(rp) => match find_profile(&cloud_save.download_profiles, rp) {
            Some(p) => {
                assert(rt == Some(rp@));
                return match &p.target_extension {
                    Some(e) => normalize_extension_value(e.as_str()),
                    None => None,
                };
            },
            None => {
                assert(rt == Some(rp@));
            },
        },
        None => {},
    }
    let by_original = match find_profile(&cloud_save.download_profiles, "original") {
        Some(p) => match &p.target_extension {
            Some(e) => normalize_extension_value(e.as_str()),
            None => None,
        },
        None => None,
    };
    match by_original {
        Some(e) => Some(e),
        None => extension_from_filename(cloud_save.filename.as_str()),
    }
}

/// The file name a restored save is written under: the listed file name (or
/// the display name where it is blank), made safe; its stem, made safe (or
/// the display name made safe, where that stem is blank), with the target
/// extension; without one, the safe name where it has an extension, else
/// the stem with `.sav`.
pub open spec fn restore_filename(c: CloudSaveSummary, ext: Option<Seq<char>>) -> Seq<char> {
    let fallback = cloud_display(c);
    let raw = if trim(c.filename@).len() == 0 {
        fallback
    } else {
        trim(c.filename@)
    };
    let safe = safe_file_name(raw);
    let stem = match file_stem(safe) {
        Some(s) => if trim(safe_file_name(s)).len() > 0 {
            safe_file_name(s)
        } else {
            safe_file_name(fallback)
        },
        None => safe_file_name(fallback),
    };
    let cleaned = match ext {
        Some(e) => clean_extension(e),
        None => None,
    };
    match cleaned {
        Some(e) => stem + "."@ + e,
        None => if file_extension(safe) is Some {
            safe
        } else {
            stem + ".sav"@
        },
    }
}

/// The file name a restored save is written under; see `restore_filename`.
pub fn cloud_restore_filename(cloud_save: &CloudSaveSummary, target_ext: Option<&str>) -> (r: String)
    ensures
        r@ == restore_filename(*cloud_save, crate::text::opt_chars(target_ext)),
{
    let fallback = cloud_save.display_name();
    let ft = trim_str(cloud_save.filename.as_str());
    let raw = if ft.len() == 0 {
        fallback.clone()
    } else {
        string_of(ft.as_slice())
    };
    let safe = sanitize_filename(raw.as_str());
    let stem = match path_file_stem(safe.as_str()) {
        Some(s) => {
            let st = sanitize_filename(string_of(s.as_slice()).as_str());
            if trim_str(st.as_str()).len() > 0 {
                st
            } else {
                sanitize_filename(fallback.as_str())
            }
        },
        None => sanitize_filename(fallback.as_str()),
    };
    let cleaned = match target_ext {
        Some(e) => normalize_extension_value(e),
        None => None,
    };
    match cleaned {
        Some(e) => {
            let mut out = stem;
            out.append(".");
            out.append(e.as_str());
            out
        },
        None => {
            if path_file_extension(safe.as_str()).is_some() {
                safe
            } else {
                let mut out = stem;
                out.append(".sav");
                out
            }
        },
    }
}

// ---------------------------------------------------------------------------
// The Wii title a listed save belongs to
// ---------------------------------------------------------------------------

/// The Wii title code a text names: the one in it read as a path, else the
/// text itself when it is one.
pub open spec fn candidate_title(v: Seq<char>) -> Option<Seq<char>> {
    match wii_code_of_path(v) {
        Some(c) => Some(c),
        None => wii_title_code(v),
    }
}

pub fn wii_title_code_from_candidate(candidate: &str) -> (r: Option<String>)
    ensures
        match r {
            Some(c) => candidate_title(candidate@) == Some(c@),
            None => candidate_title(candidate@) is None,
        },
{
    match wii_title_code_from_path(candidate) {
        Some(c) => Some(c),
        None => normalize_wii_title_code(chars_of(candidate).as_slice()),
    }
}

/// The first of the texts from `i` on that names a Wii title, trimmed, blank
/// ones passed over.
pub open spec fn title_in_fields(fs: Seq<Seq<char>>, i: int) -> Option<Seq<char>>
    decreases fs.len() - i,
{
    if i < 0 || i >= fs.len() {
        None
    } else if trim(fs[i]).len() > 0 && candidate_title(trim(fs[i])) is Some {
        candidate_title(trim(fs[i]))
    } else {
        title_in_fields(fs, i + 1)
    }
}

/// The value of an evidence text `key=value` whose key is `titleCode` (any
/// ASCII case, trimmed).
pub open spec fn evidence_title_value(t: Seq<char>) -> Option<Seq<char>> {
    let i = crate::text::first_index(t, '=');
    if 0 <= i < t.len() && lower(trim(t.subrange(0, i))) == "titlecode"@ {
        Some(t.subrange(i + 1, t.len() as int))
    } else {
        None
    }
}

/// The first evidence text from `i` on that names a Wii title code.
pub open spec fn title_in_evidence(ev: Seq<Seq<char>>, i: int) -> Option<Seq<char>>
    decreases ev.len() - i,
{
    if i < 0 || i >= ev.len() {
        None
    } else {
        match evidence_title_value(ev[i]) {
            Some(v) => if candidate_title(v) is Some {
                candidate_title(v)
            } else {
                title_in_evidence(ev, i + 1)
            },
            None => title_in_evidence(ev, i + 1),
        }
    }
}

/// The Wii title code of a listed save: from its metadata and inspection
/// fields; else from its inspection evidence; else from its card slot, its
/// file name or its display name.
pub open spec fn cloud_title(c: CloudSaveSummary) -> Option<Seq<char>> {
    let fields = c.wii_title_fields@.map_values(|s: String| s@);
    let evidence = c.inspection_evidence@.map_values(|s: String| s@);
    match title_in_fields(fields, 0) {
        Some(t) => Some(t),
        None => match title_in_evidence(evidence, 0) {
            Some(t) => Some(t),
            None => {
                let from_slot = match c.card_slot {
                    Some(s) => candidate_title(s@),
                    None => None,
                };
                match from_slot {
                    Some(t) => Some(t),
                    None => match candidate_title(c.filename@) {
                        Some(t) => Some(t),
                        None => candidate_title(cloud_display(c)),
                    },
                }
            },
        },
    }
}

fn evidence_title(text: &str) -> (r: Option<String>)
    ensures
        match r {
            Some(c) => evidence_title_value(text@) matches Some(v) && candidate_title(v) == Some(c@),
            None => evidence_title_value(text@) matches Some(v) ==> candidate_title(v) is None,
        },
{
    let t = chars_of(text);
    match crate::text::find_char(t.as_slice(), '=') {
        Some(i) => {
            let n = t.len();
            assert(i < n);
            let key = crate::text::slice_vec(t.as_slice(), 0, i);
            let key = trim_vec(key.as_slice());
            let key = lower_vec(key.as_slice());
            if !eq_lit(key.as_slice(), "titlecode") {
                return None;
            }
            let v = crate::text::slice_vec(t.as_slice(), i + 1, n);
            wii_title_code_from_candidate(string_of(v.as_slice()).as_str())
        },
        None => None,
    }
}

/// The Wii title code of a listed save; see `cloud_title`.
pub fn cloud_wii_title_code(cloud_save: &CloudSaveSummary) -> (r: Option<String>)
    ensures
        match r {
            Some(c) => cloud_title(*cloud_save) == Some(c@),
            None => cloud_title(*cloud_save) is None,
        },
{
    let ghost fields = cloud_save.wii_title_fields@.map_values(|s: String| s@);
    let mut i: usize = 0;
    while i < cloud_save.wii_title_fields.len()
        invariant
            0 <= i <= fields.len(),
            fields == cloud_save.wii_title_fields@.map_values(|s: String| s@),
            title_in_fields(fields, 0) == title_in_fields(fields, i as int),
        decreases fields.len() - i,
    {
        let t = trim_str(cloud_save.wii_title_fields[i].as_str());
        if t.len() > 0 {
            match wii_title_code_from_candidate(string_of(t.as_slice()).as_str()) {
                Some(c) => {
                    return Some(c);
                },
                None => {},
            }
        }
        i = i + 1;
    }
    let ghost evidence = cloud_save.inspection_evidence@.map_values(|s: String| s@);
    let mut j: usize = 0;
    while j < cloud_save.inspection_evidence.len()
        invariant
            0 <= j <= evidence.len(),
            title_in_fields(fields, 0) is None,
            fields == cloud_save.wii_title_fields@.map_values(|s: String| s@),
            evidence == cloud_save.inspection_evidence@.map_values(|s: String| s@),
            title_in_evidence(evidence, 0) == title_in_evidence(evidence, j as int),
        decreases evidence.len() - j,
    {
        match evidence_title(cloud_save.inspection_evidence[j].as_str()) {
            Some(c) => {
                return Some(c);
            },
            None => {},
        }
        j = j + 1;
    }
    match &cloud_save.card_slot {
        Some(s) => match wii_title_code_from_candidate(s.as_str()) {
            Some(c) => {
                return Some(c);
            },
            None => {},
        },
        None => {},
    }
    match wii_title_code_from_candidate(cloud_save.filename.as_str()) {
        Some(c) => {
            return Some(c);
        },
        None => {},
    }
    wii_title_code_from_candidate(cloud_save.display_name().as_str())
}

// ---------------------------------------------------------------------------
// The folder a restored save goes to
// ---------------------------------------------------------------------------

/// The folder names a system's saves are found under.
pub open spec fn directory_aliases(slug: Seq<char>) -> Seq<&'static str> {
    if slug == "nes"@ {
        seq!["nes", "famicom"]
    } else if slug == "snes"@ {
        seq!["snes", "sfc", "super nintendo", "supernintendo"]
    } else if slug == "gameboy"@ {
        seq!["gb", "gbc", "gameboy", "game boy", "gameboy color"]
    } else if slug == "gba"@ {
        seq!["gba", "gameboy advance", "game boy advance"]
    } else if slug == "n64"@ {
        seq!["n64", "nintendo 64", "nintendo64"]
    } else if slug == "nds"@ {
        seq!["nds", "nintendo ds", "nintendods"]
    } else if slug == "genesis"@ {
        seq!["genesis", "megadrive", "mega drive", "md"]
    } else if slug == "master-system"@ {
        seq!["mastersystem", "master system", "sms"]
    } else if slug == "game-gear"@ {
        seq!["gamegear", "game gear", "gg"]
    } else if slug == "sega-cd"@ {
        seq!["segacd", "sega cd", "mega cd", "megacd"]
    } else if slug == "sega-32x"@ {
        seq!["sega32x", "sega 32x", "32x"]
    } else if slug == "saturn"@ {
        seq!["saturn", "sega saturn"]
    } else if slug == "dreamcast"@ {
        seq!["dreamcast", "dc"]
    } else if slug == "neogeo"@ {
        seq!["neogeo", "neo geo", "mvs", "aes"]
    } else if slug == "wii"@ {
        seq!["wii", "nintendo wii", "dolphin", "rvl"]
    } else if slug == "psx"@ {
        seq!["psx", "ps1", "playstation", "playstation 1"]
    } else if slug == "ps2"@ {
        seq!["ps2", "playstation 2"]
    } else if slug == "psp"@ {
        seq!["psp"]
    } else if slug == "psvita"@ {
        seq!["psvita", "vita", "ps vita"]
    } else if slug == "ps3"@ {
        seq!["ps3", "playstation 3"]
    } else if slug == "ps4"@ {
        seq!["ps4", "playstation 4"]
    } else if slug == "ps5"@ {
        seq!["ps5", "playstation 5"]
    } else {
        seq![]
    }
}

/// The folder names a system's saves are found under.
pub fn system_directory_aliases(system_slug: &str) -> (r: Vec<&'static str>)
    ensures
        r@ == directory_aliases(system_slug@),
{
    let s = chars_of(system_slug);
    let s = s.as_slice();
    let v: Vec<&'static str> = if eq_lit(s, "nes") {
        vec!["nes", "famicom"]
    } else if eq_lit(s, "snes") {
        vec!["snes", "sfc", "super nintendo", "supernintendo"]
    } else if eq_lit(s, "gameboy") {
        vec!["gb", "gbc", "gameboy", "game boy", "gameboy color"]
    } else if eq_lit(s, "gba") {
        vec!["gba", "gameboy advance", "game boy advance"]
    } else if eq_lit(s, "n64") {
        vec!["n64", "nintendo 64", "nintendo64"]
    } else if eq_lit(s, "nds") {
        vec!["nds", "nintendo ds", "nintendods"]
    } else if eq_lit(s, "genesis") {
        vec!["genesis", "megadrive", "mega drive", "md"]
    } else if eq_lit(s, "master-system") {
        vec!["mastersystem", "master system", "sms"]
    } else if eq_lit(s, "game-gear") {
        vec!["gamegear", "game gear", "gg"]
    } else if eq_lit(s, "sega-cd") {
        vec!["segacd", "sega cd", "mega cd", "megacd"]
    } else if eq_lit(s, "sega-32x") {
        vec!["sega32x", "sega 32x", "32x"]
    } else if eq_lit(s, "saturn") {
        vec!["saturn", "sega saturn"]
    } else if eq_lit(s, "dreamcast") {
        vec!["dreamcast", "dc"]
    } else if eq_lit(s, "neogeo") {
        vec!["neogeo", "neo geo", "mvs", "aes"]
    } else if eq_lit(s, "wii") {
        vec!["wii", "nintendo wii", "dolphin", "rvl"]
    } else if eq_lit(s, "psx") {
        vec!["psx", "ps1", "playstation", "playstation 1"]
    } else if eq_lit(s, "ps2") {
        vec!["ps2", "playstation 2"]
    } else if eq_lit(s, "psp") {
        vec!["psp"]
    } else if eq_lit(s, "psvita") {
        vec!["psvita", "vita", "ps vita"]
    } else if eq_lit(s, "ps3") {
        vec!["ps3", "playstation 3"]
    } else if eq_lit(s, "ps4") {
        vec!["ps4", "playstation 4"]
    } else if eq_lit(s, "ps5") {
        vec!["ps5", "playstation 5"]
    } else {
        Vec::new()
    };
    assert(v@ =~= directory_aliases(system_slug@));
    v
}

/// A folder name reduced to its lower-cased ASCII letters and digits.
pub fn normalize_path_token(value: &str) -> (r: String)
    ensures
        r@ == alnum_lower(value@),
{
    string_of(alnum_lower_vec(chars_of(value).as_slice()).as_slice())
}

/// Whether a save root holds one system's saves only: the profile is one
/// system's, or the root's own name is one of the system's folder names
/// (compared by letters and digits).
pub open spec fn root_specific(root: Seq<char>, profile: EmulatorProfile, slug: Seq<char>) -> bool {
    profile_specific(profile, slug) || match file_name(root) {
        Some(n) => exists|i: int|
            0 <= i < directory_aliases(slug).len() && alnum_lower((#[trigger] directory_aliases(slug)[i])@)
                == alnum_lower(n),
        None => false,
    }
}

pub fn root_is_system_specific(root: &str, source_profile: &EmulatorProfile, system_slug: &str) -> (r: bool)
    ensures
        r == root_specific(root@, *source_profile, system_slug@),
{
    if profile_is_system_specific(source_profile, system_slug) {
        return true;
    }
    let name = match path_file_name(root) {
        Some(n) => n,
        None => {
            return false;
        },
    };
    let normalized = alnum_lower_vec(name.as_slice());
    let aliases = system_directory_aliases(system_slug);
    let mut i: usize = 0;
    while i < aliases.len()
        invariant
            0 <= i <= aliases@.len(),
            aliases@ == directory_aliases(system_slug@),
            normalized@ == alnum_lower(name@),
            file_name(root@) == Some(name@),
            forall|j: int| 0 <= j < i ==> alnum_lower((#[trigger] aliases@[j])@) != alnum_lower(name@),
        decreases aliases@.len() - i,
    {
        let a = alnum_lower_vec(chars_of(aliases[i]).as_slice());
        if seq_eq(a.as_slice(), normalized.as_slice()) {
            return true;
        }
        i = i + 1;
    }
    false
}

/// Where a listed save is restored, given the root, the folder the system's
/// saves go to under it, and a save already present under one of the
/// system's folder names: a Wii save with a title code goes to
/// `<title>/data.bin` (under the system folder unless the root is the
/// system's own); any other save goes under its restore file name into the
/// root when the root is the system's own, else to the file already present
/// under a system folder name, else into the system folder.
pub open spec fn target_path(
    root: Seq<char>,
    system_dir: Seq<char>,
    existing: Option<Seq<char>>,
    specific: bool,
    slug: Seq<char>,
    title: Option<Seq<char>>,
    filename: Seq<char>,
) -> Seq<char> {
    if slug == "wii"@ && title is Some {
        let dir = if specific {
            path_join(root, title->0)
        } else {
            path_join(path_join(root, system_dir), title->0)
        };
        path_join(dir, "data.bin"@)
    } else if specific {
        path_join(root, filename)
    } else {
        match existing {
            Some(e) => e,
            None => path_join(path_join(root, system_dir), filename),
        }
    }
}

/// Where a listed save is restored; see `target_path`. `existing_target` is
/// the file, under one of the system's folder names in the root, that
/// already holds a save of this name, if any.
pub fn cloud_target_path(
    cloud_save: &CloudSaveSummary,
    root: &str,
    system_dir: &str,
    existing_target: Option<&str>,
    source_profile: &EmulatorProfile,
    system_slug: &str,
    target_ext: Option<&str>,
) -> (r: String)
    ensures
        r@ == target_path(
            root@,
            system_dir@,
            crate::text::opt_chars(existing_target),
            root_specific(root@, *source_profile, system_slug@),
            system_slug@,
            cloud_title(*cloud_save),
            restore_filename(*cloud_save, crate::text::opt_chars(target_ext)),
        ),
{
    let specific = root_is_system_specific(root, source_profile, system_slug);
    if str_eq(system_slug, "wii") {
        match cloud_wii_title_code(cloud_save) {
            Some(code) => {
                let dir = if specific {
                    join_path(root, code.as_str())
                } else {
                    join_path(join_path(root, system_dir).as_str(), code.as_str())
                };
                return join_path(dir.as_str(), "data.bin");
            },
            None => {},
        }
    }
    let filename = cloud_restore_filename(cloud_save, target_ext);
    if specific {
        return join_path(root, filename.as_str());
    }
    match existing_target {
        Some(e) => e.to_string(),
        None => join_path(join_path(root, system_dir).as_str(), filename.as_str()),
    }
}

// ---------------------------------------------------------------------------
// The container a restored save is kept in
// ---------------------------------------------------------------------------

/// The local container of a downloaded save: native for every system but
/// the PlayStation; for that, the container its synced form is read from at
/// the target path; none when the download is no valid card.
pub open spec fn download_container(slug: Seq<char>, path: Seq<char>, b: Seq<u8>) -> Option<SaveContainerFormat> {
    if slug != "psx"@ {
        Some(SaveContainerFormat::Native)
    } else {
        match normalized_form(path, slug, b) {
            Some(n) => Some(n.1),
            None => None,
        }
    }
}

pub fn local_container_for_cloud_download(system_slug: &str, target_path: &str, downloaded_bytes: &[u8]) -> (r: Result<SaveContainerFormat, InvalidMemoryCard>)
    ensures
        match r {
            Ok(c) => download_container(system_slug@, target_path@, downloaded_bytes@) == Some(c),
            Err(_) => download_container(system_slug@, target_path@, downloaded_bytes@) is None,
        },
{
    if !str_eq(system_slug, "psx") {
        return Ok(SaveContainerFormat::Native);
    }
    match normalize_save_bytes_for_sync(target_path, system_slug, downloaded_bytes) {
        Some(n) => Ok(n.local_container),
        None => Err(InvalidMemoryCard),
    }
}

/// The slot a restored save is recorded under: the listed card slot where it
/// is not blank, else the slot read from the target path.
pub fn cloud_restore_slot(card_slot: &Option<String>, system_slug: &str, target_path: &str, configured_slot: &str) -> (r: String)
    ensures
        r@ == match card_slot {
            Some(s) => if trim(s@).len() > 0 {
                s@
            } else {
                crate::mister::syncer::sync_slot(system_slug@, target_path@, configured_slot@)
            },
            None => crate::mister::syncer::sync_slot(system_slug@, target_path@, configured_slot@),
        },
{
    match card_slot {
        Some(s) => if trim_str(s.as_str()).len() > 0 {
            return s.clone();
        },
        None => {},
    }
    crate::mister::syncer::resolve_slot_name_for_sync(system_slug, target_path, configured_slot)
}

/// The folders a system's saves may be in under a root, in the order they
/// are looked for: the source's own folder for the system, then the other
/// names of the system's folder.
pub open spec fn restore_dirs(kind: SourceKind, profile: EmulatorProfile, slug: Seq<char>) -> Seq<Seq<char>> {
    let own = source_dir(kind, profile, slug);
    seq![own] + directory_aliases(slug).map_values(|a: &'static str| a@).filter(|a: Seq<char>| a != own)
}

pub fn restore_directory_candidates(source_kind: &SourceKind, source_profile: &EmulatorProfile, system_slug: &str) -> (r: Vec<String>)
    ensures
        r.deep_view() == restore_dirs(*source_kind, *source_profile, system_slug@),
{
    let own = system_directory_for_source(source_kind, source_profile, system_slug);
    let aliases = system_directory_aliases(system_slug);
    let ghost av = aliases@.map_values(|a: &'static str| a@);
    let ghost pred = |a: Seq<char>| a != own@;
    let mut out: Vec<String> = Vec::new();
    out.push(own.clone());
    let mut i: usize = 0;
    assert(av.subrange(0, 0).filter(pred) =~= Seq::<Seq<char>>::empty());
    assert(out.deep_view() =~= seq![own@] + av.subrange(0, 0).filter(pred));
    while i < aliases.len()
        invariant
            0 <= i <= aliases@.len(),
            av == aliases@.map_values(|a: &'static str| a@),
            pred == (|a: Seq<char>| a != own@),
            out.deep_view() == seq![own@] + av.subrange(0, i as int).filter(pred),
        decreases aliases@.len() - i,
    {
        proof {
            reveal(Seq::filter);
            assert(av.subrange(0, i + 1).drop_last() =~= av.subrange(0, i as int));
            assert(av[i as int] == aliases@[i as int]@);
        }
        let ghost before = out.deep_view();
        if !str_eq(aliases[i], own.as_str()) {
            out.push(owned(aliases[i]));
            assert(out.deep_view() =~= before.push(aliases@[i as int]@));
        }
        i = i + 1;
    }
    assert(av.subrange(0, aliases@.len() as int) =~= av);
    proof {
        let own_v = source_dir(*source_kind, *source_profile, system_slug@);
        assert(pred =~= (|a: Seq<char>| a != own_v));
        assert(av =~= directory_aliases(system_slug@).map_values(|a: &'static str| a@));
    }
    out
}

/// The save root a cloud save is restored under: the first that exists, or
/// else the first. `exists` says of each root whether it exists.
pub fn select_cloud_restore_root(save_roots: &Vec<String>, exists: &Vec<bool>) -> (r: usize)
    requires
        save_roots@.len() > 0,
        exists@.len() == save_roots@.len(),
    ensures
        r < save_roots@.len(),
        (exists@[r as int] && forall|k: int| 0 <= k < r ==> !exists@[k])
            || (r == 0 && forall|k: int| 0 <= k < exists@.len() ==> !exists@[k]),
{
    let mut i: usize = 0;
    while i < exists.len()
        invariant
            0 <= i <= exists@.len(),
            exists@.len() == save_roots@.len(),
            forall|k: int| 0 <= k < i ==> !exists@[k],
        decreases exists@.len() - i,
    {
        if exists[i] {
            return i;
        }
        i = i + 1;
    }
    0
}

/// How a restore target lies under a save root: not under it (`None`); the
/// root itself or directly in it (`Some(None)`, always allowed); or deeper,
/// where the folder of the root it goes through must exist
/// (`Some(Some(folder))`).
pub open spec fn folder_on_the_way(root: Seq<char>, target: Seq<char>) -> Option<Option<Seq<char>>> {
    match relative_under(root, target) {
        None => None,
        Some(rel) => {
            let ps = pieces(rel);
            if ps.len() <= 1 {
                Some(None)
            } else {
                Some(Some(path_join(root, ps[0])))
            }
        },
    }
}

pub fn first_folder_under(root: &str, target: &str) -> (r: Option<Option<String>>)
    ensures
        match r {
            None => folder_on_the_way(root@, target@) is None,
            Some(None) => folder_on_the_way(root@, target@) == Some(None::<Seq<char>>),
            Some(Some(f)) => folder_on_the_way(root@, target@) == Some(Some(f@)),
        },
{
    match relative_path_under(root, target) {
        None => None,
        Some(rel) => {
            let rv = chars_of(rel.as_str());
            let ps = pieces_exec(rv.as_slice());
            if ps.len() <= 1 {
                Some(None)
            } else {
                let first = string_of(ps[0].as_slice());
                assert(ps.deep_view()[0] == ps@[0]@);
                Some(Some(join_path(root, first.as_str())))
            }
        },
    }
}

/// The size a listed save's native file is expected to have: its latest
/// size, else its file size.
pub open spec fn cloud_size(c: CloudSaveSummary) -> Option<u64> {
    if c.latest_size_bytes is Some {
        c.latest_size_bytes
    } else {
        c.file_size
    }
}

/// Where a restored save is kept when it is stored natively: the provisional
/// path moved to the extension the source keeps the system's saves under.
pub fn cloud_restore_native_target_path(
    provisional_path: &str,
    source_kind: &SourceKind,
    source_profile: &EmulatorProfile,
    system_slug: &str,
    cloud_save: &CloudSaveSummary,
) -> (r: String)
    ensures
        r@ == preferred_path(provisional_path@, *source_profile, Some(system_slug@), SaveContainerFormat::Native, cloud_size(*cloud_save)),
{
    let size = if cloud_save.latest_size_bytes.is_some() {
        cloud_save.latest_size_bytes
    } else {
        cloud_save.file_size
    };
    preferred_save_path(provisional_path, source_kind, source_profile, Some(system_slug), SaveContainerFormat::Native, size)
}

} // verus!

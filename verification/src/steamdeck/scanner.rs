//! Recognising save files: which console a file holds a save for, judged by
//! its path, its size and its bytes, and the conversions between the
//! PlayStation memory-card containers.
use vstd::prelude::*;
use aes::cipher::{BlockDecrypt, BlockEncrypt, KeyInit};
use crate::digest::{sha1_digest, sha1_of};
use crate::paths::{file_extension, file_name, file_stem, path_file_extension, path_file_stem};
use crate::text::{
    chars_of, contains, contains_lit, eq_lit, is_digit, is_upper, lower, lower_str, lower_vec, opt_chars, owned,
    str_eq, string_of, trim, trim_vec,
};

verus! {

// ---------------------------------------------------------------------------
// Records
// ---------------------------------------------------------------------------

/// A ROM found beside the saves, by its file stem.
#[derive(Debug, Clone)]
pub struct RomIndexEntry {
    pub stem: String,
    pub path: String,
}

/// The console a save belongs to, and why it was judged so.
#[derive(Debug, Clone, PartialEq, Eq)]
pub struct SaveClassification {
    pub system_slug: String,
    pub evidence: String,
}

/// How a save is stored on the device.
#[derive(Debug, Clone, Copy, PartialEq, Eq, Structural)]
pub enum SaveContainerFormat {
    Native,
    Ps1Raw,
    Ps1DexDrive,
    Ps1Vmp,
}

pub open spec fn container_name(c: SaveContainerFormat) -> Seq<char> {
    match c {
        SaveContainerFormat::Native => "native"@,
        SaveContainerFormat::Ps1Raw => "ps1-raw"@,
        SaveContainerFormat::Ps1DexDrive => "ps1-dexdrive"@,
        SaveContainerFormat::Ps1Vmp => "ps1-vmp"@,
    }
}

impl SaveContainerFormat {
    pub fn as_str(self) -> (r: &'static str)
        ensures
            r@ == container_name(self),
    {
        match self {
            SaveContainerFormat::Native => "native",
            SaveContainerFormat::Ps1Raw => "ps1-raw",
            SaveContainerFormat::Ps1DexDrive => "ps1-dexdrive",
            SaveContainerFormat::Ps1Vmp => "ps1-vmp",
        }
    }
}

/// The conversion between the device's container and the synced form.
#[derive(Debug, Clone, Copy, PartialEq, Eq, Structural)]
pub enum SaveAdapterProfile {
    Identity,
    Ps1Raw,
    Ps1DexDrive,
    Ps1Vmp,
}

pub open spec fn adapter_name(a: SaveAdapterProfile) -> Seq<char> {
    match a {
        SaveAdapterProfile::Identity => "identity"@,
        SaveAdapterProfile::Ps1Raw => "ps1-raw"@,
        SaveAdapterProfile::Ps1DexDrive => "ps1-dexdrive"@,
        SaveAdapterProfile::Ps1Vmp => "ps1-vmp"@,
    }
}

impl SaveAdapterProfile {
    pub fn as_str(self) -> (r: &'static str)
        ensures
            r@ == adapter_name(self),
    {
        match self {
            SaveAdapterProfile::Identity => "identity",
            SaveAdapterProfile::Ps1Raw => "ps1-raw",
            SaveAdapterProfile::Ps1DexDrive => "ps1-dexdrive",
            SaveAdapterProfile::Ps1Vmp => "ps1-vmp",
        }
    }
}

/// A save in the form that is synced, with how it is stored locally.
#[derive(Debug, Clone)]
pub struct NormalizedSave {
    pub canonical_bytes: Vec<u8>,
    pub local_container: SaveContainerFormat,
    pub adapter_profile: SaveAdapterProfile,
}

// ---------------------------------------------------------------------------
// Names from paths
// ---------------------------------------------------------------------------

/// The file stem of a path, or `Unknown`.
pub open spec fn stem_or_unknown(p: Seq<char>) -> Seq<char> {
    match file_stem(p) {
        Some(s) => s,
        None => "Unknown"@,
    }
}

/// The file stem of a path, or `Unknown` when it has none.
pub fn filename_stem(path: &str) -> (r: String)
    ensures
        r@ == stem_or_unknown(path@),
{
    match path_file_stem(path) {
        Some(s) => string_of(s.as_slice()),
        None => owned("Unknown"),
    }
}

/// The key a ROM is found by: its file stem, ASCII lower-cased.
pub open spec fn rom_key(p: Seq<char>) -> Seq<char> {
    lower(stem_or_unknown(p))
}

/// Whether a ROM path is indexed: one without a stem (`Unknown`) is not.
pub open spec fn rom_indexed(p: Seq<char>) -> bool {
    stem_or_unknown(p) != "Unknown"@
}

/// Whether `paths[j]` is the first indexed path with its key.
pub open spec fn first_rom_with_key(paths: Seq<String>, j: int) -> bool {
    &&& 0 <= j < paths.len()
    &&& rom_indexed(paths[j]@)
    &&& forall|k: int| 0 <= k < j && rom_indexed(#[trigger] paths[k]@) ==> rom_key(paths[k]@) != rom_key(paths[j]@)
}

/// An index entry built from `paths[j]`: its key, its stem and its path.
pub open spec fn rom_entry_of(paths: Seq<String>, j: int, e: (String, RomIndexEntry)) -> bool {
    &&& e.0@ == rom_key(paths[j]@)
    &&& e.1.stem@ == stem_or_unknown(paths[j]@)
    &&& e.1.path@ == paths[j]@
}

/// Whether an index entry was built from the first indexed path with its key.
pub open spec fn from_first_rom(paths: Seq<String>, e: (String, RomIndexEntry)) -> bool {
    exists|j: int| first_rom_with_key(paths, j) && #[trigger] rom_entry_of(paths, j, e)
}

/// The ROM index of the paths found beside the saves, in the order they were
/// found: one entry per lower-cased stem, taken from the first path with that
/// stem; a path whose stem is `Unknown` is left out.
pub fn rom_index_entries(paths: &Vec<String>) -> (r: Vec<(String, RomIndexEntry)>)
    ensures
        forall|i: int| 0 <= i < r@.len() ==> from_first_rom(paths@, #[trigger] r@[i]),
        forall|j: int| first_rom_with_key(paths@, j) ==> exists|i: int| 0 <= i < r@.len() && #[trigger] rom_entry_of(paths@, j, r@[i]),
        forall|a: int, b: int| 0 <= a < b < r@.len() ==> r@[a].0@ != r@[b].0@,
{
    let mut out: Vec<(String, RomIndexEntry)> = Vec::new();
    let ghost mut from: Seq<int> = Seq::empty();
    let mut j: usize = 0;
    while j < paths.len()
        invariant
            j <= paths@.len(),
            from.len() == out@.len(),
            forall|i: int| 0 <= i < out@.len() ==> 0 <= #[trigger] from[i] < j && first_rom_with_key(paths@, from[i]) && rom_entry_of(paths@, from[i], out@[i]),
            forall|q: int| 0 <= q < j && rom_indexed(#[trigger] paths@[q]@) ==> exists|i: int| 0 <= i < out@.len() && out@[i].0@ == rom_key(paths@[q]@),
            forall|a: int, b: int| 0 <= a < b < out@.len() ==> out@[a].0@ != out@[b].0@,
        decreases paths@.len() - j,
    {
        let path = &paths[j];
        let stem = filename_stem(path.as_str());
        if str_eq(stem.as_str(), "Unknown") {
            j = j + 1;
            continue;
        }
        let key_chars = lower_str(stem.as_str());
        let key = string_of(key_chars.as_slice());
        let mut found = false;
        let mut i: usize = 0;
        while i < out.len()
            invariant
                i <= out@.len(),
                !found ==> forall|a: int| 0 <= a < i ==> out@[a].0@ != key@,
                found ==> exists|a: int| 0 <= a < out@.len() && out@[a].0@ == key@,
            decreases out@.len() - i,
        {
            if str_eq(out[i].0.as_str(), key.as_str()) {
                found = true;
            }
            i = i + 1;
        }
        assert(key@ == rom_key(paths@[j as int]@));
        let ghost before = out@;
        let ghost from_before = from;
        if !found {
            proof {
                assert forall|k: int| 0 <= k < j && rom_indexed(#[trigger] paths@[k]@) implies rom_key(paths@[k]@) != rom_key(paths@[j as int]@) by {
                    let i = choose|i: int| 0 <= i < out@.len() && out@[i].0@ == rom_key(paths@[k]@);
                    assert(out@[i].0@ != key@);
                }
                assert(first_rom_with_key(paths@, j as int));
                from = from.push(j as int);
            }
            out.push((key, RomIndexEntry { stem, path: path.clone() }));
            proof {
                assert(rom_entry_of(paths@, j as int, out@[out@.len() - 1]));
                assert forall|i: int| 0 <= i < out@.len() implies 0 <= #[trigger] from[i] < j + 1 && first_rom_with_key(paths@, from[i]) && rom_entry_of(paths@, from[i], out@[i]) by {
                    if i < before.len() {
                        assert(out@[i] == before[i]);
                        assert(from[i] == from_before[i]);
                    }
                }
                assert forall|q: int| 0 <= q < j + 1 && rom_indexed(#[trigger] paths@[q]@) implies exists|i: int| 0 <= i < out@.len() && out@[i].0@ == rom_key(paths@[q]@) by {
                    if q < j {
                        let i = choose|i: int| 0 <= i < before.len() && before[i].0@ == rom_key(paths@[q]@);
                        assert(out@[i] == before[i]);
                    } else {
                        assert(out@[out@.len() - 1].0@ == rom_key(paths@[q]@));
                    }
                }
                assert forall|a: int, b: int| 0 <= a < b < out@.len() implies out@[a].0@ != out@[b].0@ by {
                    if b < before.len() {
                        assert(out@[a] == before[a] && out@[b] == before[b]);
                    } else {
                        assert(out@[a] == before[a]);
                    }
                }
            }
        } else {
            proof {
                assert forall|q: int| 0 <= q < j + 1 && rom_indexed(#[trigger] paths@[q]@) implies exists|i: int| 0 <= i < out@.len() && out@[i].0@ == rom_key(paths@[q]@) by {
                    if q == j {
                        let a = choose|a: int| 0 <= a < out@.len() && out@[a].0@ == key@;
                        assert(out@[a].0@ == rom_key(paths@[q]@));
                    }
                }
            }
        }
        j = j + 1;
    }
    proof {
        assert forall|i: int| 0 <= i < out@.len() implies from_first_rom(paths@, #[trigger] out@[i]) by {
            assert(first_rom_with_key(paths@, from[i]) && rom_entry_of(paths@, from[i], out@[i]));
        }
        assert forall|q: int| first_rom_with_key(paths@, q) implies exists|i: int| 0 <= i < out@.len() && #[trigger] rom_entry_of(paths@, q, out@[i]) by {
            let i = choose|i: int| 0 <= i < out@.len() && out@[i].0@ == rom_key(paths@[q]@);
            let f = from[i];
            if f != q {
                if f < q {
                    assert(rom_key(paths@[f]@) != rom_key(paths@[q]@));
                } else {
                    assert(rom_key(paths@[q]@) != rom_key(paths@[f]@));
                }
            }
        }
    }
    out
}

/// The lower-cased extension of a path.
pub open spec fn lower_ext(p: Seq<char>) -> Option<Seq<char>> {
    match file_extension(p) {
        Some(e) => Some(lower(e)),
        None => None,
    }
}

pub fn path_extension(path: &str) -> (r: Option<Vec<char>>)
    ensures
        match r {
            Some(e) => lower_ext(path@) == Some(e@),
            None => lower_ext(path@) is None,
        },
{
    match path_file_extension(path) {
        Some(e) => Some(lower_vec(e.as_slice())),
        None => None,
    }
}

/// The extensions that save files are looked for by.
pub open spec fn save_extensions() -> Seq<Seq<char>> {
    seq![
        "sav"@,
        "srm"@,
        "eep"@,
        "fla"@,
        "sa1"@,
        "rtc"@,
        "ram"@,
        "sra"@,
        "mpk"@,
        "cpk"@,
        "dsv"@,
        "gme"@,
        "mcr"@,
        "mc"@,
        "mcd"@,
        "vmp"@,
        "psv"@,
        "ps2"@,
        "bin"@,
        "vms"@,
        "dci"@,
        "bkr"@,
    ]
}

/// The extensions that save files are looked for by, in lexicographic order.
pub open spec fn sorted_save_extensions() -> Seq<Seq<char>> {
    seq![
        "bin"@,
        "bkr"@,
        "cpk"@,
        "dci"@,
        "dsv"@,
        "eep"@,
        "fla"@,
        "gme"@,
        "mc"@,
        "mcd"@,
        "mcr"@,
        "mpk"@,
        "ps2"@,
        "psv"@,
        "ram"@,
        "rtc"@,
        "sa1"@,
        "sav"@,
        "sra"@,
        "srm"@,
        "vmp"@,
        "vms"@,
    ]
}

/// The known save extensions, sorted and without repeats (a set).
pub fn known_save_extensions() -> (r: Vec<&'static str>)
    ensures
        r@.len() == sorted_save_extensions().len(),
        forall|i: int| 0 <= i < r@.len() ==> (#[trigger] r@[i])@ == sorted_save_extensions()[i],
{
    let r: Vec<&'static str> = vec![
        "bin",
        "bkr",
        "cpk",
        "dci",
        "dsv",
        "eep",
        "fla",
        "gme",
        "mc",
        "mcd",
        "mcr",
        "mpk",
        "ps2",
        "psv",
        "ram",
        "rtc",
        "sa1",
        "sav",
        "sra",
        "srm",
        "vmp",
        "vms",
    ];
    r
}

/// Whether a lower-cased extension is one that ROMs are looked for by.
pub open spec fn is_rom_extension(e: Seq<char>) -> bool {
    e == "nes"@ || e == "fds"@ || e == "sfc"@ || e == "smc"@ || e == "gb"@ || e == "gbc"@ || e == "gba"@ || e == "n64"@ || e == "z64"@ || e == "v64"@ || e == "nds"@ || e == "md"@ || e == "gen"@ || e == "32x"@ || e == "sms"@ || e == "gg"@ || e == "cue"@ || e == "iso"@ || e == "chd"@ || e == "gdi"@ || e == "cdi"@ || e == "rvz"@ || e == "wbfs"@ || e == "wad"@ || e == "pce"@ || e == "a26"@ || e == "a78"@ || e == "col"@ || e == "bin"@ || e == "zip"@ || e == "7z"@ || e == "pbp"@ || e == "cso"@ || e == "vpk"@
}

/// Whether a lower-cased extension is one that ROMs are looked for by.
pub fn rom_extension_known(e: &[char]) -> (r: bool)
    ensures
        r == is_rom_extension(e@),
{
    eq_lit(e, "nes") || eq_lit(e, "fds") || eq_lit(e, "sfc") || eq_lit(e, "smc") || eq_lit(e, "gb") || eq_lit(e, "gbc") || eq_lit(e, "gba") || eq_lit(e, "n64") || eq_lit(e, "z64") || eq_lit(e, "v64") || eq_lit(e, "nds") || eq_lit(e, "md") || eq_lit(e, "gen") || eq_lit(e, "32x") || eq_lit(e, "sms") || eq_lit(e, "gg") || eq_lit(e, "cue") || eq_lit(e, "iso") || eq_lit(e, "chd") || eq_lit(e, "gdi") || eq_lit(e, "cdi") || eq_lit(e, "rvz") || eq_lit(e, "wbfs") || eq_lit(e, "wad") || eq_lit(e, "pce") || eq_lit(e, "a26") || eq_lit(e, "a78") || eq_lit(e, "col") || eq_lit(e, "bin") || eq_lit(e, "zip") || eq_lit(e, "7z") || eq_lit(e, "pbp") || eq_lit(e, "cso") || eq_lit(e, "vpk")
}

/// Whether a path is looked at as a ROM: its extension, ASCII lower-cased,
/// is a ROM extension.
pub open spec fn is_rom_path(p: Seq<char>) -> bool {
    lower_ext(p) matches Some(e) && is_rom_extension(e)
}

/// Whether a path is looked at as a ROM; see `is_rom_path`.
pub fn is_rom_file(path: &str) -> (r: bool)
    ensures
        r == is_rom_path(path@),
{
    match path_extension(path) {
        Some(e) => rom_extension_known(e.as_slice()),
        None => false,
    }
}

/// Whether a lower-cased extension is one that saves are looked for by.
pub open spec fn is_save_extension(e: Seq<char>) -> bool {
    save_extensions().contains(e)
}

/// A Wii title code: four ASCII capitals or digits, after trimming and
/// upper-casing.
pub open spec fn wii_title_code(v: Seq<char>) -> Option<Seq<char>> {
    let clean = ascii_upper(trim(v));
    if clean.len() == 4 && (forall|i: int|
        0 <= i < 4 ==> is_upper(#[trigger] clean[i]) || is_digit(clean[i])) {
        Some(clean)
    } else {
        None
    }
}

pub open spec fn upper_char(c: char) -> char {
    if 'a' <= c && c <= 'z' {
        ((c as u32) - 32) as char
    } else {
        c
    }
}

/// ASCII upper-casing (`str::to_ascii_uppercase`).
pub open spec fn ascii_upper(s: Seq<char>) -> Seq<char> {
    s.map_values(|c: char| upper_char(c))
}

pub fn upper_of(c: char) -> (r: char)
    ensures
        r == upper_char(c),
{
    if 'a' <= c && c <= 'z' {
        let u: u32 = c as u32;
        let b: u8 = (u - 32) as u8;
        assert(b as u32 == u - 32);
        b as char
    } else {
        c
    }
}

pub fn upper_vec(v: &[char]) -> (r: Vec<char>)
    ensures
        r@ == ascii_upper(v@),
{
    let mut out: Vec<char> = Vec::new();
    let mut i: usize = 0;
    while i < v.len()
        invariant
            0 <= i <= v@.len(),
            out@ == ascii_upper(v@.subrange(0, i as int)),
        decreases v@.len() - i,
    {
        out.push(upper_of(v[i]));
        i = i + 1;
        assert(out@ =~= ascii_upper(v@.subrange(0, i as int)));
    }
    assert(v@.subrange(0, v@.len() as int) =~= v@);
    out
}

/// Reads a Wii title code.
pub fn normalize_wii_title_code(value: &[char]) -> (r: Option<String>)
    ensures
        match r {
            Some(c) => wii_title_code(value@) == Some(c@),
            None => wii_title_code(value@) is None,
        },
{
    let t = trim_vec(value);
    let clean = upper_vec(t.as_slice());
    if clean.len() != 4 {
        return None;
    }
    let mut i: usize = 0;
    while i < 4
        invariant
            0 <= i <= 4,
            clean@.len() == 4,
            clean@ == ascii_upper(trim(value@)),
            forall|k: int| 0 <= k < i ==> is_upper(#[trigger] clean@[k]) || is_digit(clean@[k]),
        decreases 4 - i,
    {
        let c = clean[i];
        if !(('A' <= c && c <= 'Z') || ('0' <= c && c <= '9')) {
            assert(!(is_upper(clean@[i as int]) || is_digit(clean@[i as int])));
            return None;
        }
        i = i + 1;
    }
    Some(string_of(clean.as_slice()))
}

/// The pieces of a path split at `/` and `\`, empty pieces kept.
pub open spec fn slash_split_state(s: Seq<char>) -> (Seq<Seq<char>>, Seq<char>)
    decreases s.len(),
{
    if s.len() == 0 {
        (seq![], seq![])
    } else {
        let (done, cur) = slash_split_state(s.drop_last());
        if s.last() == '/' || s.last() == '\\' {
            (done.push(cur), seq![])
        } else {
            (done, cur.push(s.last()))
        }
    }
}

pub open spec fn slash_parts(s: Seq<char>) -> Seq<Seq<char>> {
    let (done, cur) = slash_split_state(s);
    done.push(cur)
}

fn split_slashes(v: &[char]) -> (r: Vec<Vec<char>>)
    ensures
        r.deep_view() == slash_parts(v@),
{
    let mut done: Vec<Vec<char>> = Vec::new();
    let mut cur: Vec<char> = Vec::new();
    let mut i: usize = 0;
    while i < v.len()
        invariant
            0 <= i <= v@.len(),
            (done.deep_view(), cur@) == slash_split_state(v@.subrange(0, i as int)),
        decreases v@.len() - i,
    {
        assert(v@.subrange(0, i + 1).drop_last() =~= v@.subrange(0, i as int));
        let c = v[i];
        if c == '/' || c == '\\' {
            let ghost before = done.deep_view();
            assert(cur.deep_view() =~= cur@);
            done.push(cur);
            assert(done.deep_view() =~= before.push(cur@));
            cur = Vec::new();
        } else {
            cur.push(c);
        }
        i = i + 1;
    }
    assert(v@.subrange(0, v@.len() as int) =~= v@);
    let ghost before = done.deep_view();
    assert(cur.deep_view() =~= cur@);
    done.push(cur);
    assert(done.deep_view() =~= before.push(cur@));
    done
}

/// Whether the piece at `i` is a title code followed by `data.bin`.
pub open spec fn title_code_at(parts: Seq<Seq<char>>, i: int) -> bool {
    0 <= i && i + 1 < parts.len() && wii_title_code(parts[i]) is Some && lower(parts[i + 1])
        == "data.bin"@
}

/// The Wii title code of a path `.../<CODE>/data.bin`: the first piece that
/// is a title code and is followed by `data.bin` (any case).
pub open spec fn wii_code_of_path(p: Seq<char>) -> Option<Seq<char>> {
    let parts = slash_parts(p);
    if exists|i: int| title_code_at(parts, i) {
        let i = choose|i: int|
            title_code_at(parts, i) && forall|j: int| 0 <= j < i ==> !title_code_at(parts, j);
        wii_title_code(parts[i])
    } else {
        None
    }
}

/// Finds the Wii title code in a save path.
pub fn wii_title_code_from_path(path: &str) -> (r: Option<String>)
    ensures
        match r {
            Some(c) => wii_code_of_path(path@) == Some(c@),
            None => wii_code_of_path(path@) is None,
        },
{
    let v = chars_of(path);
    let parts = split_slashes(v.as_slice());
    let ghost ps = parts.deep_view();
    let mut i: usize = 0;
    while i < parts.len()
        invariant
            0 <= i <= parts@.len(),
            ps == parts.deep_view(),
            ps == slash_parts(path@),
            forall|j: int| 0 <= j < i ==> !title_code_at(ps, j),
        decreases parts@.len() - i,
    {
        assert(parts@[i as int]@ == ps[i as int]);
        match normalize_wii_title_code(parts[i].as_slice()) {
            Some(code) => {
                if i + 1 < parts.len() {
                    assert(parts@[i + 1]@ == ps[i + 1]);
                    let next = lower_vec(parts[i + 1].as_slice());
                    if eq_lit(next.as_slice(), "data.bin") {
                        proof {
                            assert(title_code_at(ps, i as int));
                            let k = choose|k: int|
                                title_code_at(ps, k) && forall|j: int| 0 <= j < k ==> !title_code_at(ps, j);
                            if k < i {
                            } else if k > i {
                            }
                            assert(k == i);
                        }
                        return Some(code);
                    }
                }
            },
            None => {},
        }
        i = i + 1;
    }
    assert(!exists|j: int| title_code_at(ps, j)) by {
        if exists|j: int| title_code_at(ps, j) {
            let j = choose|j: int| title_code_at(ps, j);
            assert(j < parts@.len());
        }
    }
    None
}

// ---------------------------------------------------------------------------
// Sizes and extensions that each console's saves come in
// ---------------------------------------------------------------------------

pub open spec fn max_save_bytes() -> nat {
    512 * 1024 * 1024
}

pub open spec fn plausible_size(size: u64) -> bool {
    0 < size && size <= max_save_bytes()
}

pub open spec fn is_pow2(n: nat) -> bool
    decreases n,
{
    if n == 0 {
        false
    } else if n == 1 {
        true
    } else if n % 2 == 1 {
        false
    } else {
        is_pow2(n / 2)
    }
}

pub fn is_power_of_two(n: u64) -> (r: bool)
    ensures
        r == is_pow2(n as nat),
{
    if n == 0 {
        return false;
    }
    let mut m: u64 = n;
    while m > 1 && m % 2 == 0
        invariant
            m >= 1,
            is_pow2(n as nat) == is_pow2(m as nat),
        decreases m,
    {
        m = m / 2;
    }
    m == 1
}

pub open spec fn is_saturn_size(size: u64) -> bool {
    size == 0x8000 || size == 0x10000 || size == 0x80000 || size == 0x100000 || size == 0x88000
        || size == 0x110000 || size == 0x400000 || size == 0x800000
}

pub open spec fn in_set(e: Seq<char>, s: Seq<Seq<char>>) -> bool {
    s.contains(e)
}

/// The save extensions a console's saves come with.
pub open spec fn extension_fits(slug: Seq<char>, e: Seq<char>) -> bool {
    if slug == "nes"@ {
        e == "sav"@ || e == "srm"@ || e == "ram"@
    } else if slug == "snes"@ {
        e == "srm"@ || e == "sav"@ || e == "sa1"@
    } else if slug == "gameboy"@ {
        e == "sav"@ || e == "srm"@ || e == "gme"@ || e == "rtc"@ || e == "ram"@
    } else if slug == "gba"@ {
        e == "sav"@ || e == "srm"@ || e == "sa1"@
    } else if slug == "n64"@ {
        e == "eep"@ || e == "fla"@ || e == "sra"@ || e == "mpk"@ || e == "cpk"@ || e == "srm"@
    } else if slug == "nds"@ {
        e == "sav"@ || e == "dsv"@
    } else if slug == "genesis"@ || slug == "master-system"@ || slug == "game-gear"@ || slug
        == "sega-cd"@ || slug == "sega-32x"@ || slug == "neogeo"@ || slug == "psp"@ || slug
        == "psvita"@ || slug == "ps3"@ || slug == "ps4"@ || slug == "ps5"@ {
        e == "sav"@ || e == "srm"@ || e == "ram"@
    } else if slug == "saturn"@ {
        e == "sav"@ || e == "srm"@ || e == "ram"@ || e == "bkr"@
    } else if slug == "dreamcast"@ {
        e == "bin"@ || e == "vms"@ || e == "dci"@
    } else if slug == "wii"@ {
        e == "bin"@
    } else if slug == "psx"@ {
        e == "sav"@ || e == "srm"@ || e == "ram"@ || e == "mcr"@ || e == "mc"@ || e == "mcd"@ || e
            == "vmp"@ || e == "psv"@ || e == "gme"@
    } else if slug == "ps2"@ {
        e == "ps2"@ || e == "bin"@
    } else {
        false
    }
}

pub open spec fn cart_size(size: u64) -> bool {
    size == 512 || size == 1024 || size == 2048 || size == 4096 || size == 8192 || size == 16384
        || size == 32768 || size == 65536
}

/// The sizes a console's saves come in, for their extension.
pub open spec fn size_fits(slug: Seq<char>, e: Seq<char>, size: u64) -> bool {
    if slug == "nes"@ || slug == "snes"@ {
        cart_size(size) || size == 131072
    } else if slug == "gameboy"@ {
        cart_size(size)
    } else if slug == "gba"@ {
        size == 512 || size == 8192 || size == 32768 || size == 65536 || size == 131072
    } else if slug == "n64"@ {
        if e == "eep"@ {
            size == 512 || size == 2048
        } else if e == "sra"@ || e == "mpk"@ || e == "cpk"@ {
            size == 32768
        } else if e == "fla"@ {
            size == 131072
        } else if e == "srm"@ {
            size == 0x48800
        } else {
            false
        }
    } else if slug == "nds"@ {
        is_pow2(size as nat) && 512 <= size <= 16777216
    } else if slug == "genesis"@ || slug == "master-system"@ || slug == "game-gear"@ || slug
        == "sega-cd"@ || slug == "sega-32x"@ {
        size == 64 || size == 128 || size == 256 || cart_size(size) || size == 131072
    } else if slug == "saturn"@ {
        is_saturn_size(size)
    } else if slug == "dreamcast"@ {
        if e == "bin"@ {
            size == 131072
        } else if e == "dci"@ {
            544 <= size && size <= 131104 && (size - 32) % 512 == 0
        } else {
            512 <= size && size <= 131072 && size % 512 == 0
        }
    } else if slug == "neogeo"@ {
        size == 0x12000 || (is_pow2(size as nat) && 512 <= size <= 2097152)
    } else if slug == "wii"@ {
        0xF1C0 <= size && size <= max_save_bytes()
    } else if slug == "psx"@ {
        size == 131072 || size == 3904 + 131072 || size == 0x80 + 131072
    } else if slug == "ps2"@ {
        8388608 <= size && size <= 134217728 && size % 512 == 0
    } else if slug == "psp"@ || slug == "psvita"@ || slug == "ps3"@ {
        1024 <= size && size <= 67108864
    } else if slug == "ps4"@ || slug == "ps5"@ {
        1024 <= size && size <= 268435456
    } else {
        false
    }
}

/// Whether a file of this extension and size can be a save of the console.
pub open spec fn plausible_for(e: Seq<char>, size: u64, slug: Seq<char>) -> bool {
    plausible_size(size) && extension_fits(slug, e) && size_fits(slug, e, size)
}

fn extension_fits_exec(slug: &[char], e: &[char]) -> (r: bool)
    ensures
        r == extension_fits(slug@, e@),
{
    if eq_lit(slug, "nes") {
        eq_lit(e, "sav") || eq_lit(e, "srm") || eq_lit(e, "ram")
    } else if eq_lit(slug, "snes") {
        eq_lit(e, "srm") || eq_lit(e, "sav") || eq_lit(e, "sa1")
    } else if eq_lit(slug, "gameboy") {
        eq_lit(e, "sav") || eq_lit(e, "srm") || eq_lit(e, "gme") || eq_lit(e, "rtc") || eq_lit(e, "ram")
    } else if eq_lit(slug, "gba") {
        eq_lit(e, "sav") || eq_lit(e, "srm") || eq_lit(e, "sa1")
    } else if eq_lit(slug, "n64") {
        eq_lit(e, "eep") || eq_lit(e, "fla") || eq_lit(e, "sra") || eq_lit(e, "mpk") || eq_lit(e, "cpk")
            || eq_lit(e, "srm")
    } else if eq_lit(slug, "nds") {
        eq_lit(e, "sav") || eq_lit(e, "dsv")
    } else if eq_lit(slug, "genesis") || eq_lit(slug, "master-system") || eq_lit(slug, "game-gear")
        || eq_lit(slug, "sega-cd") || eq_lit(slug, "sega-32x") || eq_lit(slug, "neogeo") || eq_lit(
        slug,
        "psp",
    ) || eq_lit(slug, "psvita") || eq_lit(slug, "ps3") || eq_lit(slug, "ps4") || eq_lit(slug, "ps5") {
        eq_lit(e, "sav") || eq_lit(e, "srm") || eq_lit(e, "ram")
    } else if eq_lit(slug, "saturn") {
        eq_lit(e, "sav") || eq_lit(e, "srm") || eq_lit(e, "ram") || eq_lit(e, "bkr")
    } else if eq_lit(slug, "dreamcast") {
        eq_lit(e, "bin") || eq_lit(e, "vms") || eq_lit(e, "dci")
    } else if eq_lit(slug, "wii") {
        eq_lit(e, "bin")
    } else if eq_lit(slug, "psx") {
        eq_lit(e, "sav") || eq_lit(e, "srm") || eq_lit(e, "ram") || eq_lit(e, "mcr") || eq_lit(e, "mc")
            || eq_lit(e, "mcd") || eq_lit(e, "vmp") || eq_lit(e, "psv") || eq_lit(e, "gme")
    } else if eq_lit(slug, "ps2") {
        eq_lit(e, "ps2") || eq_lit(e, "bin")
    } else {
        false
    }
}

fn cart_size_exec(size: u64) -> (r: bool)
    ensures
        r == cart_size(size),
{
    size == 512 || size == 1024 || size == 2048 || size == 4096 || size == 8192 || size == 16384
        || size == 32768 || size == 65536
}

fn size_fits_exec(slug: &[char], e: &[char], size: u64) -> (r: bool)
    ensures
        r == size_fits(slug@, e@, size),
{
    if eq_lit(slug, "nes") || eq_lit(slug, "snes") {
        cart_size_exec(size) || size == 131072
    } else if eq_lit(slug, "gameboy") {
        cart_size_exec(size)
    } else if eq_lit(slug, "gba") {
        size == 512 || size == 8192 || size == 32768 || size == 65536 || size == 131072
    } else if eq_lit(slug, "n64") {
        if eq_lit(e, "eep") {
            size == 512 || size == 2048
        } else if eq_lit(e, "sra") || eq_lit(e, "mpk") || eq_lit(e, "cpk") {
            size == 32768
        } else if eq_lit(e, "fla") {
            size == 131072
        } else if eq_lit(e, "srm") {
            size == 0x48800
        } else {
            false
        }
    } else if eq_lit(slug, "nds") {
        is_power_of_two(size) && 512 <= size && size <= 16777216
    } else if eq_lit(slug, "genesis") || eq_lit(slug, "master-system") || eq_lit(slug, "game-gear")
        || eq_lit(slug, "sega-cd") || eq_lit(slug, "sega-32x") {
        size == 64 || size == 128 || size == 256 || cart_size_exec(size) || size == 131072
    } else if eq_lit(slug, "saturn") {
        size == 0x8000 || size == 0x10000 || size == 0x80000 || size == 0x100000 || size == 0x88000
            || size == 0x110000 || size == 0x400000 || size == 0x800000
    } else if eq_lit(slug, "dreamcast") {
        if eq_lit(e, "bin") {
            size == 131072
        } else if eq_lit(e, "dci") {
            544 <= size && size <= 131104 && (size - 32) % 512 == 0
        } else {
            512 <= size && size <= 131072 && size % 512 == 0
        }
    } else if eq_lit(slug, "neogeo") {
        size == 0x12000 || (is_power_of_two(size) && 512 <= size && size <= 2097152)
    } else if eq_lit(slug, "wii") {
        0xF1C0 <= size && size <= 536870912
    } else if eq_lit(slug, "psx") {
        size == 131072 || size == 3904 + 131072 || size == 0x80 + 131072
    } else if eq_lit(slug, "ps2") {
        8388608 <= size && size <= 134217728 && size % 512 == 0
    } else if eq_lit(slug, "psp") || eq_lit(slug, "psvita") || eq_lit(slug, "ps3") {
        1024 <= size && size <= 67108864
    } else if eq_lit(slug, "ps4") || eq_lit(slug, "ps5") {
        1024 <= size && size <= 268435456
    } else {
        false
    }
}

/// The common cartridge and memory-card save sizes are taken for saves:
/// every EEPROM, SRAM and flash size of a Game Boy Advance cartridge (512,
/// 8192, 32768, 65536 and 131072 bytes); every power of two from 512 bytes
/// to 64 KiB on the NES, SNES and Game Boy; the N64's EEPROM (512, 2048),
/// SRAM and Controller Pak (32768) and flash (131072) files; and a 128 KiB
/// PlayStation card, raw or in its DexDrive or VMP container.
pub proof fn law_standard_save_sizes_are_plausible()
    ensures
        forall|s: u64| (s == 512 || s == 8192 || s == 32768 || s == 65536 || s == 131072)
            ==> #[trigger] plausible_for("sav"@, s, "gba"@) && plausible_for("srm"@, s, "gba"@),
        forall|s: u64| (s == 512 || s == 1024 || s == 2048 || s == 4096 || s == 8192 || s == 16384 || s == 32768
            || s == 65536) ==> #[trigger] plausible_for("sav"@, s, "gameboy"@) && plausible_for("srm"@, s, "snes"@)
            && plausible_for("sav"@, s, "nes"@),
        plausible_for("eep"@, 512, "n64"@),
        plausible_for("eep"@, 2048, "n64"@),
        plausible_for("sra"@, 32768, "n64"@),
        plausible_for("mpk"@, 32768, "n64"@),
        plausible_for("fla"@, 131072, "n64"@),
        plausible_for("mcr"@, 131072, "psx"@),
        plausible_for("srm"@, 131072, "psx"@),
        plausible_for("gme"@, 134976u64, "psx"@),
        plausible_for("vmp"@, 131200u64, "psx"@),
{
    reveal_strlit("nes");
    reveal_strlit("snes");
    reveal_strlit("gameboy");
    reveal_strlit("gba");
    reveal_strlit("n64");
    reveal_strlit("psx");
    reveal_strlit("sav");
    reveal_strlit("srm");
    reveal_strlit("ram");
    reveal_strlit("sa1");
    reveal_strlit("eep");
    reveal_strlit("fla");
    reveal_strlit("sra");
    reveal_strlit("mpk");
    reveal_strlit("mcr");
    reveal_strlit("gme");
    reveal_strlit("vmp");
    assert("gba"@ != "nes"@) by {
        assert("gba"@[0] != "nes"@[0]);
    }
    assert("gba"@.len() != "snes"@.len());
    assert("gba"@.len() != "gameboy"@.len());
    reveal_strlit("cpk");
    assert("fla"@ != "cpk"@) by {
        assert("fla"@[0] != "cpk"@[0]);
    }
    reveal_strlit("nds");
    reveal_strlit("genesis");
    reveal_strlit("master-system");
    reveal_strlit("game-gear");
    reveal_strlit("sega-cd");
    reveal_strlit("sega-32x");
    reveal_strlit("saturn");
    reveal_strlit("dreamcast");
    reveal_strlit("neogeo");
    reveal_strlit("wii");
    reveal_strlit("psp");
    reveal_strlit("psvita");
    reveal_strlit("ps3");
    reveal_strlit("ps4");
    reveal_strlit("ps5");
    reveal_strlit("mc");
    reveal_strlit("mcd");
    assert("psx"@ != "nes"@) by { assert("psx"@[0] != "nes"@[0]); }
    assert("psx"@ != "gba"@) by { assert("psx"@[0] != "gba"@[0]); }
    assert("psx"@ != "n64"@) by { assert("psx"@[0] != "n64"@[0]); }
    assert("psx"@ != "nds"@) by { assert("psx"@[0] != "nds"@[0]); }
    assert("psx"@ != "wii"@) by { assert("psx"@[0] != "wii"@[0]); }
    assert("psx"@ != "psp"@) by { assert("psx"@[2] != "psp"@[2]); }
    assert("psx"@ != "ps3"@) by { assert("psx"@[2] != "ps3"@[2]); }
    assert("psx"@ != "ps4"@) by { assert("psx"@[2] != "ps4"@[2]); }
    assert("psx"@ != "ps5"@) by { assert("psx"@[2] != "ps5"@[2]); }
    assert("psx"@.len() != "snes"@.len() && "psx"@.len() != "gameboy"@.len() && "psx"@.len() != "genesis"@.len()
        && "psx"@.len() != "master-system"@.len() && "psx"@.len() != "game-gear"@.len() && "psx"@.len()
        != "sega-cd"@.len() && "psx"@.len() != "sega-32x"@.len() && "psx"@.len() != "saturn"@.len()
        && "psx"@.len() != "dreamcast"@.len() && "psx"@.len() != "neogeo"@.len() && "psx"@.len() != "psvita"@.len());
    assert("mcr"@ != "sav"@) by { assert("mcr"@[0] != "sav"@[0]); }
    assert("mcr"@ != "srm"@) by { assert("mcr"@[0] != "srm"@[0]); }
    assert("mcr"@ != "ram"@) by { assert("mcr"@[0] != "ram"@[0]); }
    assert("mcr"@.len() != "mc"@.len());
    assert(extension_fits("psx"@, "mcr"@));
    assert(size_fits("psx"@, "mcr"@, 131072));
    assert(extension_fits("psx"@, "gme"@));
    assert(size_fits("psx"@, "gme"@, 134976u64));
    assert(plausible_size(134976u64));
    assert(extension_fits("psx"@, "vmp"@));
    assert(size_fits("psx"@, "vmp"@, 131200u64));
    assert("n64"@ != "nes"@ && "n64"@ != "snes"@ && "n64"@ != "gameboy"@ && "n64"@ != "gba"@) by {
        assert("n64"@[1] != "nes"@[1]);
        assert("n64"@[0] != "gba"@[0]);
    }
    assert("eep"@ != "sav"@ && "eep"@ != "srm"@ && "eep"@ != "sa1"@ && "eep"@ != "ram"@) by {
        assert("eep"@[0] != "sav"@[0]);
        assert("eep"@[0] != "srm"@[0]);
        assert("eep"@[0] != "ram"@[0]);
    }
    assert("sra"@ != "eep"@ && "mpk"@ != "eep"@ && "mpk"@ != "sra"@ && "fla"@ != "eep"@ && "fla"@ != "sra"@
        && "fla"@ != "mpk"@) by {
        assert("sra"@[0] != "eep"@[0]);
        assert("mpk"@[0] != "eep"@[0]);
        assert("mpk"@[0] != "sra"@[0]);
        assert("fla"@[0] != "eep"@[0]);
        assert("fla"@[0] != "sra"@[0]);
        assert("fla"@[0] != "mpk"@[0]);
    }
    assert forall|s: u64| (s == 512 || s == 8192 || s == 32768 || s == 65536 || s == 131072)
        implies #[trigger] plausible_for("sav"@, s, "gba"@) && plausible_for("srm"@, s, "gba"@) by {
        assert(size_fits("gba"@, "sav"@, s));
        assert(extension_fits("gba"@, "sav"@));
        assert(size_fits("gba"@, "srm"@, s));
        assert(extension_fits("gba"@, "srm"@));
    }
    assert(size_fits("n64"@, "eep"@, 512));
    assert(extension_fits("n64"@, "eep"@));
    assert(size_fits("n64"@, "eep"@, 2048));
    assert(size_fits("n64"@, "sra"@, 32768));
    assert(extension_fits("n64"@, "sra"@));
    assert(size_fits("n64"@, "mpk"@, 32768));
    assert(extension_fits("n64"@, "mpk"@));
    assert(size_fits("n64"@, "fla"@, 131072));
    assert(extension_fits("n64"@, "fla"@));
}

/// Whether a file of this extension and size can be a save of the console.
pub fn is_plausible_save_for_system(ext: &str, size: u64, slug: &str) -> (r: bool)
    ensures
        r == plausible_for(ext@, size, slug@),
{
    if !(0 < size && size <= 536870912) {
        return false;
    }
    let e = chars_of(ext);
    let s = chars_of(slug);
    extension_fits_exec(s.as_slice(), e.as_slice()) && size_fits_exec(s.as_slice(), e.as_slice(), size)
}

// ---------------------------------------------------------------------------
// Consoles named by paths and extensions
// ---------------------------------------------------------------------------

/// The console a ROM extension belongs to.
pub open spec fn rom_extension_system(e: Seq<char>) -> Option<Seq<char>> {
    if e == "nes"@ || e == "fds"@ {
        Some("nes"@)
    } else if e == "sfc"@ || e == "smc"@ {
        Some("snes"@)
    } else if e == "n64"@ || e == "z64"@ || e == "v64"@ {
        Some("n64"@)
    } else if e == "gb"@ || e == "gbc"@ {
        Some("gameboy"@)
    } else if e == "gba"@ {
        Some("gba"@)
    } else if e == "nds"@ {
        Some("nds"@)
    } else if e == "md"@ || e == "gen"@ {
        Some("genesis"@)
    } else if e == "32x"@ {
        Some("sega-32x"@)
    } else if e == "sms"@ {
        Some("master-system"@)
    } else if e == "gg"@ {
        Some("game-gear"@)
    } else if e == "gdi"@ || e == "cdi"@ {
        Some("dreamcast"@)
    } else if e == "rvz"@ || e == "wbfs"@ || e == "wad"@ {
        Some("wii"@)
    } else if e == "pbp"@ || e == "cso"@ {
        Some("psp"@)
    } else if e == "vpk"@ {
        Some("psvita"@)
    } else {
        None
    }
}

pub fn system_slug_from_rom_extension(ext: &[char]) -> (r: Option<&'static str>)
    ensures
        match r {
            Some(s) => rom_extension_system(ext@) == Some(s@),
            None => rom_extension_system(ext@) is None,
        },
{
    let e = ext;
    if eq_lit(e, "nes") || eq_lit(e, "fds") {
        Some("nes")
    } else if eq_lit(e, "sfc") || eq_lit(e, "smc") {
        Some("snes")
    } else if eq_lit(e, "n64") || eq_lit(e, "z64") || eq_lit(e, "v64") {
        Some("n64")
    } else if eq_lit(e, "gb") || eq_lit(e, "gbc") {
        Some("gameboy")
    } else if eq_lit(e, "gba") {
        Some("gba")
    } else if eq_lit(e, "nds") {
        Some("nds")
    } else if eq_lit(e, "md") || eq_lit(e, "gen") {
        Some("genesis")
    } else if eq_lit(e, "32x") {
        Some("sega-32x")
    } else if eq_lit(e, "sms") {
        Some("master-system")
    } else if eq_lit(e, "gg") {
        Some("game-gear")
    } else if eq_lit(e, "gdi") || eq_lit(e, "cdi") {
        Some("dreamcast")
    } else if eq_lit(e, "rvz") || eq_lit(e, "wbfs") || eq_lit(e, "wad") {
        Some("wii")
    } else if eq_lit(e, "pbp") || eq_lit(e, "cso") {
        Some("psp")
    } else if eq_lit(e, "vpk") {
        Some("psvita")
    } else {
        None
    }
}

/// The console a save extension alone points to.
pub open spec fn save_extension_system(e: Seq<char>) -> Option<Seq<char>> {
    if e == "eep"@ || e == "fla"@ || e == "sra"@ || e == "mpk"@ || e == "cpk"@ {
        Some("n64"@)
    } else if e == "dsv"@ {
        Some("nds"@)
    } else if e == "mcr"@ || e == "mc"@ || e == "mcd"@ || e == "vmp"@ || e == "psv"@ {
        Some("psx"@)
    } else if e == "ps2"@ || e == "bin"@ {
        Some("ps2"@)
    } else if e == "vms"@ || e == "dci"@ {
        Some("dreamcast"@)
    } else {
        None
    }
}

pub fn system_slug_from_save_extension(ext: &[char]) -> (r: Option<&'static str>)
    ensures
        match r {
            Some(s) => save_extension_system(ext@) == Some(s@),
            None => save_extension_system(ext@) is None,
        },
{
    let e = ext;
    if eq_lit(e, "eep") || eq_lit(e, "fla") || eq_lit(e, "sra") || eq_lit(e, "mpk") || eq_lit(e, "cpk") {
        Some("n64")
    } else if eq_lit(e, "dsv") {
        Some("nds")
    } else if eq_lit(e, "mcr") || eq_lit(e, "mc") || eq_lit(e, "mcd") || eq_lit(e, "vmp") || eq_lit(
        e,
        "psv",
    ) {
        Some("psx")
    } else if eq_lit(e, "ps2") || eq_lit(e, "bin") {
        Some("ps2")
    } else if eq_lit(e, "vms") || eq_lit(e, "dci") {
        Some("dreamcast")
    } else {
        None
    }
}

/// Whether the text mentions any of the hints.
pub open spec fn mentions_any(h: Seq<char>, needles: Seq<&str>) -> bool {
    exists|i: int| 0 <= i < needles.len() && contains(h, (#[trigger] needles[i])@)
}

pub fn contains_any(h: &[char], needles: &Vec<&str>) -> (r: bool)
    ensures
        r == mentions_any(h@, needles@),
{
    let mut i: usize = 0;
    while i < needles.len()
        invariant
            0 <= i <= needles@.len(),
            forall|j: int| 0 <= j < i ==> !contains(h@, (#[trigger] needles@[j])@),
        decreases needles@.len() - i,
    {
        if contains_lit(h, needles[i]) {
            return true;
        }
        i = i + 1;
    }
    false
}

pub open spec fn wii_hints() -> Seq<&'static str> {
    seq!["nintendo wii", "/wii/", "\\wii\\", "dolphin", "rvl"]
}

pub open spec fn gba_hints() -> Seq<&'static str> {
    seq!["gameboy advance", "/gba/", "\\gba\\"]
}

pub open spec fn nds_hints() -> Seq<&'static str> {
    seq!["nintendo ds", "/nds/", "\\nds\\"]
}

pub open spec fn n64_hints() -> Seq<&'static str> {
    seq!["nintendo 64", "/n64/", "\\n64\\"]
}

pub open spec fn snes_hints() -> Seq<&'static str> {
    seq!["super nintendo", "/snes/", "\\snes\\", "/sfc/", "\\sfc\\"]
}

pub open spec fn nes_hints() -> Seq<&'static str> {
    seq!["famicom", "/nes/", "\\nes\\"]
}

/// The Nintendo console a path points to (Game Boy when none more precise).
pub open spec fn nintendo_slug(h: Seq<char>) -> Seq<char> {
    if mentions_any(h, wii_hints()) {
        "wii"@
    } else if mentions_any(h, gba_hints()) {
        "gba"@
    } else if mentions_any(h, nds_hints()) {
        "nds"@
    } else if mentions_any(h, n64_hints()) {
        "n64"@
    } else if mentions_any(h, snes_hints()) {
        "snes"@
    } else if mentions_any(h, nes_hints()) {
        "nes"@
    } else {
        "gameboy"@
    }
}

pub fn infer_nintendo_slug(h: &[char]) -> (r: &'static str)
    ensures
        r@ == nintendo_slug(h@),
{
    let n: Vec<&str> = vec!["nintendo wii", "/wii/", "\\wii\\", "dolphin", "rvl"];
    assert(n@ =~= wii_hints());
    if contains_any(h, &n) {
        return "wii";
    }
    let n: Vec<&str> = vec!["gameboy advance", "/gba/", "\\gba\\"];
    assert(n@ =~= gba_hints());
    if contains_any(h, &n) {
        return "gba";
    }
    let n: Vec<&str> = vec!["nintendo ds", "/nds/", "\\nds\\"];
    assert(n@ =~= nds_hints());
    if contains_any(h, &n) {
        return "nds";
    }
    let n: Vec<&str> = vec!["nintendo 64", "/n64/", "\\n64\\"];
    assert(n@ =~= n64_hints());
    if contains_any(h, &n) {
        return "n64";
    }
    let n: Vec<&str> = vec!["super nintendo", "/snes/", "\\snes\\", "/sfc/", "\\sfc\\"];
    assert(n@ =~= snes_hints());
    if contains_any(h, &n) {
        return "snes";
    }
    let n: Vec<&str> = vec!["famicom", "/nes/", "\\nes\\"];
    assert(n@ =~= nes_hints());
    if contains_any(h, &n) {
        return "nes";
    }
    "gameboy"
}

pub open spec fn dreamcast_hints() -> Seq<&'static str> {
    seq![
        "dreamcast",
        "/dreamcast/",
        "\\dreamcast\\",
        "/dc/",
        "\\dc\\",
        "flycast",
        "redream",
        "demul",
        "reicast",
        "vmu",
    ]
}

pub open spec fn sms_hints() -> Seq<&'static str> {
    seq!["master system", "/sms/", "\\sms\\"]
}

pub open spec fn gg_hints() -> Seq<&'static str> {
    seq!["game gear", "/gg/", "\\gg\\"]
}

pub open spec fn saturn_hints() -> Seq<&'static str> {
    seq![
        "saturn",
        "/saturn/",
        "\\saturn\\",
        "yabause",
        "yabasanshiro",
        "kronos",
        "ssf",
        "beetle saturn",
        "mednafen saturn",
    ]
}

pub open spec fn segacd_hints() -> Seq<&'static str> {
    seq![
        "mega cd",
        "mega-cd",
        "megacd",
        "sega cd",
        "sega-cd",
        "segacd",
        "/megacd/",
        "\\megacd\\",
        "/mega-cd/",
        "\\mega-cd\\",
        "/segacd/",
        "\\segacd\\",
        "/sega-cd/",
        "\\sega-cd\\",
    ]
}

pub open spec fn sega32x_hints() -> Seq<&'static str> {
    seq!["sega 32x", "sega-32x", "sega32x", "32x", "/32x/", "\\32x\\"]
}

/// The Sega console a path points to (Genesis when none more precise).
pub open spec fn sega_slug(h: Seq<char>) -> Seq<char> {
    if mentions_any(h, dreamcast_hints()) {
        "dreamcast"@
    } else if mentions_any(h, sms_hints()) {
        "master-system"@
    } else if mentions_any(h, gg_hints()) {
        "game-gear"@
    } else if mentions_any(h, saturn_hints()) {
        "saturn"@
    } else if mentions_any(h, segacd_hints()) {
        "sega-cd"@
    } else if mentions_any(h, sega32x_hints()) {
        "sega-32x"@
    } else {
        "genesis"@
    }
}

pub fn infer_sega_slug(h: &[char]) -> (r: &'static str)
    ensures
        r@ == sega_slug(h@),
{
    let n: Vec<&str> = vec![
        "dreamcast",
        "/dreamcast/",
        "\\dreamcast\\",
        "/dc/",
        "\\dc\\",
        "flycast",
        "redream",
        "demul",
        "reicast",
        "vmu",
    ];
    assert(n@ =~= dreamcast_hints());
    if contains_any(h, &n) {
        return "dreamcast";
    }
    let n: Vec<&str> = vec!["master system", "/sms/", "\\sms\\"];
    assert(n@ =~= sms_hints());
    if contains_any(h, &n) {
        return "master-system";
    }
    let n: Vec<&str> = vec!["game gear", "/gg/", "\\gg\\"];
    assert(n@ =~= gg_hints());
    if contains_any(h, &n) {
        return "game-gear";
    }
    let n: Vec<&str> = vec![
        "saturn",
        "/saturn/",
        "\\saturn\\",
        "yabause",
        "yabasanshiro",
        "kronos",
        "ssf",
        "beetle saturn",
        "mednafen saturn",
    ];
    assert(n@ =~= saturn_hints());
    if contains_any(h, &n) {
        return "saturn";
    }
    let n: Vec<&str> = vec![
        "mega cd",
        "mega-cd",
        "megacd",
        "sega cd",
        "sega-cd",
        "segacd",
        "/megacd/",
        "\\megacd\\",
        "/mega-cd/",
        "\\mega-cd\\",
        "/segacd/",
        "\\segacd\\",
        "/sega-cd/",
        "\\sega-cd\\",
    ];
    assert(n@ =~= segacd_hints());
    if contains_any(h, &n) {
        return "sega-cd";
    }
    let n: Vec<&str> = vec!["sega 32x", "sega-32x", "sega32x", "32x", "/32x/", "\\32x\\"];
    assert(n@ =~= sega32x_hints());
    if contains_any(h, &n) {
        return "sega-32x";
    }
    "genesis"
}

pub open spec fn ps5_hints() -> Seq<&'static str> {
    seq!["playstation 5", "/ps5/", "\\ps5\\", "sony ps5", "ps5"]
}

pub open spec fn ps4_hints() -> Seq<&'static str> {
    seq!["playstation 4", "/ps4/", "\\ps4\\", "sony ps4", "ps4"]
}

pub open spec fn ps3_hints() -> Seq<&'static str> {
    seq!["playstation 3", "/ps3/", "\\ps3\\", "sony ps3", "rpcs3", "ps3"]
}

pub open spec fn vita_hints() -> Seq<&'static str> {
    seq![
        "playstation vita",
        "ps vita",
        "/psvita/",
        "\\psvita\\",
        "vita3k",
        "/vita/",
        "\\vita\\",
        "psvita",
    ]
}

pub open spec fn psp_hints() -> Seq<&'static str> {
    seq!["playstation portable", "/psp/", "\\psp\\", "ppsspp", "sony psp", "psp"]
}

pub open spec fn ps2_hints() -> Seq<&'static str> {
    seq!["playstation 2", "/ps2/", "\\ps2\\", "pcsx2", "sony ps2", "ps2"]
}

/// The Sony console a path points to (PlayStation when none more precise).
pub open spec fn sony_slug(h: Seq<char>) -> Seq<char> {
    if mentions_any(h, ps5_hints()) {
        "ps5"@
    } else if mentions_any(h, ps4_hints()) {
        "ps4"@
    } else if mentions_any(h, ps3_hints()) {
        "ps3"@
    } else if mentions_any(h, vita_hints()) {
        "psvita"@
    } else if mentions_any(h, psp_hints()) {
        "psp"@
    } else if mentions_any(h, ps2_hints()) {
        "ps2"@
    } else {
        "psx"@
    }
}

pub fn infer_sony_slug(h: &[char]) -> (r: &'static str)
    ensures
        r@ == sony_slug(h@),
{
    let n: Vec<&str> = vec!["playstation 5", "/ps5/", "\\ps5\\", "sony ps5", "ps5"];
    assert(n@ =~= ps5_hints());
    if contains_any(h, &n) {
        return "ps5";
    }
    let n: Vec<&str> = vec!["playstation 4", "/ps4/", "\\ps4\\", "sony ps4", "ps4"];
    assert(n@ =~= ps4_hints());
    if contains_any(h, &n) {
        return "ps4";
    }
    let n: Vec<&str> = vec!["playstation 3", "/ps3/", "\\ps3\\", "sony ps3", "rpcs3", "ps3"];
    assert(n@ =~= ps3_hints());
    if contains_any(h, &n) {
        return "ps3";
    }
    let n: Vec<&str> = vec![
        "playstation vita",
        "ps vita",
        "/psvita/",
        "\\psvita\\",
        "vita3k",
        "/vita/",
        "\\vita\\",
        "psvita",
    ];
    assert(n@ =~= vita_hints());
    if contains_any(h, &n) {
        return "psvita";
    }
    let n: Vec<&str> = vec!["playstation portable", "/psp/", "\\psp\\", "ppsspp", "sony psp", "psp"];
    assert(n@ =~= psp_hints());
    if contains_any(h, &n) {
        return "psp";
    }
    let n: Vec<&str> = vec!["playstation 2", "/ps2/", "\\ps2\\", "pcsx2", "sony ps2", "ps2"];
    assert(n@ =~= ps2_hints());
    if contains_any(h, &n) {
        return "ps2";
    }
    "psx"
}

// ---------------------------------------------------------------------------
// Byte-level checks
// ---------------------------------------------------------------------------

/// Whether every byte equals `v`.
pub open spec fn all_bytes(b: Seq<u8>, v: u8) -> bool {
    forall|i: int| 0 <= i < b.len() ==> b[i] == v
}

pub fn all_bytes_are(b: &[u8], v: u8) -> (r: bool)
    ensures
        r == all_bytes(b@, v),
{
    let mut i: usize = 0;
    while i < b.len()
        invariant
            0 <= i <= b@.len(),
            forall|k: int| 0 <= k < i ==> b@[k] == v,
        decreases b@.len() - i,
    {
        if b[i] != v {
            return false;
        }
        i = i + 1;
    }
    true
}

/// Content that is not blank: not empty, not all `0x00`, not all `0xFF`.
pub open spec fn non_blank(b: Seq<u8>) -> bool {
    b.len() > 0 && !all_bytes(b, 0x00) && !all_bytes(b, 0xFF)
}

pub fn validate_non_blank_payload(bytes: &[u8]) -> (r: bool)
    ensures
        r == non_blank(bytes@),
{
    bytes.len() > 0 && !all_bytes_are(bytes, 0x00) && !all_bytes_are(bytes, 0xFF)
}

/// Whether `b` begins with the bytes `p`.
pub open spec fn bytes_start_with(b: Seq<u8>, p: Seq<u8>) -> bool {
    p.len() <= b.len() && b.subrange(0, p.len() as int) == p
}

pub fn starts_with_bytes(b: &[u8], p: &[u8]) -> (r: bool)
    ensures
        r == bytes_start_with(b@, p@),
{
    if p.len() > b.len() {
        return false;
    }
    let mut i: usize = 0;
    while i < p.len()
        invariant
            p@.len() <= b@.len(),
            0 <= i <= p@.len(),
            forall|k: int| 0 <= k < i ==> b@[k] == p@[k],
        decreases p@.len() - i,
    {
        if b[i] != p[i] {
            assert(b@.subrange(0, p@.len() as int)[i as int] != p@[i as int]);
            return false;
        }
        i = i + 1;
    }
    assert(b@.subrange(0, p@.len() as int) =~= p@);
    true
}

/// The first bytes of a file that one read takes in: up to `n`.
pub open spec fn head(b: Seq<u8>, n: nat) -> Seq<u8> {
    if b.len() <= n {
        b
    } else {
        b.subrange(0, n as int)
    }
}

/// Magic numbers of executables and archives.
pub open spec fn binary_magic(h: Seq<u8>) -> bool {
    bytes_start_with(h, seq![0x4Du8, 0x5Au8]) || bytes_start_with(h, seq![0x7Fu8, 0x45u8, 0x4Cu8, 0x46u8])
        || bytes_start_with(h, seq![0x50u8, 0x4Bu8, 0x03u8, 0x04u8]) || bytes_start_with(
        h,
        seq![0x50u8, 0x4Bu8, 0x05u8, 0x06u8],
    ) || bytes_start_with(h, seq![0x50u8, 0x4Bu8, 0x07u8, 0x08u8]) || bytes_start_with(
        h,
        seq![0x1Fu8, 0x8Bu8],
    ) || bytes_start_with(h, seq![0x37u8, 0x7Au8, 0xBCu8, 0xAFu8, 0x27u8, 0x1Cu8])
}

/// A file that starts like an executable or an archive (read over its first
/// eight bytes; fewer than two bytes never count).
pub open spec fn executable_or_archive(b: Seq<u8>) -> bool {
    let h = head(b, 8);
    h.len() >= 2 && binary_magic(h)
}

pub fn looks_like_executable_or_archive(bytes: &[u8]) -> (r: bool)
    ensures
        r == executable_or_archive(bytes@),
{
    let n: usize = if bytes.len() < 8 {
        bytes.len()
    } else {
        8
    };
    let h = &bytes[0..n];
    assert(h@ =~= head(bytes@, 8));
    if n < 2 {
        return false;
    }
    starts_with_bytes(h, &[0x4D, 0x5A]) || starts_with_bytes(h, &[0x7F, 0x45, 0x4C, 0x46])
        || starts_with_bytes(h, &[0x50, 0x4B, 0x03, 0x04]) || starts_with_bytes(h, &[0x50, 0x4B, 0x05, 0x06])
        || starts_with_bytes(h, &[0x50, 0x4B, 0x07, 0x08]) || starts_with_bytes(h, &[0x1F, 0x8B])
        || starts_with_bytes(h, &[0x37, 0x7A, 0xBC, 0xAF, 0x27, 0x1C])
}

pub open spec fn is_text_byte(v: u8) -> bool {
    v == 0x0A || v == 0x0D || v == 0x09 || (0x20 <= v && v <= 0x7E)
}

/// How many of the first `n` bytes are text characters.
pub open spec fn text_count(b: Seq<u8>, n: int) -> nat
    decreases n,
{
    if n <= 0 {
        0
    } else {
        text_count(b, n - 1) + if is_text_byte(b[n - 1]) {
            1nat
        } else {
            0nat
        }
    }
}

/// A file that reads as plain text: its first 4096 bytes hold no zero byte
/// and at least 95% text characters.
pub open spec fn plain_text(b: Seq<u8>) -> bool {
    let h = head(b, 4096);
    h.len() > 0 && !h.contains(0u8) && text_count(h, h.len() as int) * 100 >= h.len() * 95
}

pub fn looks_plain_text(bytes: &[u8]) -> (r: bool)
    ensures
        r == plain_text(bytes@),
{
    let n: usize = if bytes.len() < 4096 {
        bytes.len()
    } else {
        4096
    };
    let h = &bytes[0..n];
    assert(h@ =~= head(bytes@, 4096));
    if n == 0 {
        return false;
    }
    let mut count: usize = 0;
    let mut i: usize = 0;
    while i < n
        invariant
            n == h@.len(),
            h@ == head(bytes@, 4096),
            n <= 4096,
            0 <= i <= n,
            count == text_count(h@, i as int),
            count <= i,
            forall|k: int| 0 <= k < i ==> h@[k] != 0,
        decreases n - i,
    {
        let v = h[i];
        if v == 0 {
            assert(h@.contains(0u8));
            return false;
        }
        if v == 0x0A || v == 0x0D || v == 0x09 || (0x20 <= v && v <= 0x7E) {
            count = count + 1;
        }
        i = i + 1;
    }
    assert(!h@.contains(0u8));
    count * 100 >= n * 95
}

/// An N64 save of the size its media type has, and not blank.
pub open spec fn n64_media_ok(e: Seq<char>, size: u64, b: Seq<u8>) -> bool {
    let size_ok = if e == "eep"@ {
        size == 512 || size == 2048
    } else if e == "sra"@ || e == "mpk"@ || e == "cpk"@ {
        size == 32768
    } else if e == "fla"@ {
        size == 131072
    } else if e == "srm"@ {
        size == 0x48800
    } else {
        false
    };
    size_ok && non_blank(b)
}

pub fn validate_n64_save_media(ext: &[char], size: u64, bytes: &[u8]) -> (r: bool)
    ensures
        r == n64_media_ok(ext@, size, bytes@),
{
    let size_ok = if eq_lit(ext, "eep") {
        size == 512 || size == 2048
    } else if eq_lit(ext, "sra") || eq_lit(ext, "mpk") || eq_lit(ext, "cpk") {
        size == 32768
    } else if eq_lit(ext, "fla") {
        size == 131072
    } else if eq_lit(ext, "srm") {
        size == 0x48800
    } else {
        false
    };
    size_ok && validate_non_blank_payload(bytes)
}

/// The magic that a PS2 memory card image starts with.
pub open spec fn ps2_magic() -> Seq<u8> {
    seq![
        0x53u8, 0x6Fu8, 0x6Eu8, 0x79u8, 0x20u8, 0x50u8, 0x53u8, 0x32u8, 0x20u8, 0x4Du8, 0x65u8, 0x6Du8,
        0x6Fu8, 0x72u8, 0x79u8, 0x20u8, 0x43u8, 0x61u8, 0x72u8, 0x64u8, 0x20u8, 0x46u8, 0x6Fu8, 0x72u8,
        0x6Du8, 0x61u8, 0x74u8, 0x20u8,
    ]
}

/// A PS2 memory card image: starts with `Sony PS2 Memory Card Format `.
pub fn validate_ps2_memory_card_image(bytes: &[u8]) -> (r: bool)
    ensures
        r == bytes_start_with(bytes@, ps2_magic()),
{
    let magic: [u8; 28] = [
        0x53, 0x6F, 0x6E, 0x79, 0x20, 0x50, 0x53, 0x32, 0x20, 0x4D, 0x65, 0x6D, 0x6F, 0x72, 0x79, 0x20,
        0x43, 0x61, 0x72, 0x64, 0x20, 0x46, 0x6F, 0x72, 0x6D, 0x61, 0x74, 0x20,
    ];
    assert(magic@ =~= ps2_magic());
    starts_with_bytes(bytes, &magic)
}

// ---------------------------------------------------------------------------
// PlayStation memory cards
// ---------------------------------------------------------------------------

/// The XOR of the first `n` bytes.
pub open spec fn xor_prefix(b: Seq<u8>, n: int) -> u8
    decreases n,
{
    if n <= 0 {
        0
    } else {
        xor_prefix(b, n - 1) ^ b[n - 1]
    }
}

/// A 128-byte frame whose last byte is the XOR of the others.
pub open spec fn frame_ok(f: Seq<u8>) -> bool {
    f.len() == 128 && xor_prefix(f, 127) == f[127]
}

pub fn frame_checksum_ok(frame: &[u8]) -> (r: bool)
    ensures
        r == frame_ok(frame@),
{
    if frame.len() != 128 {
        return false;
    }
    let mut acc: u8 = 0;
    let mut i: usize = 0;
    while i < 127
        invariant
            frame@.len() == 128,
            0 <= i <= 127,
            acc == xor_prefix(frame@, i as int),
        decreases 127 - i,
    {
        acc = acc ^ frame[i];
        i = i + 1;
    }
    acc == frame[127]
}

pub open spec fn frame(b: Seq<u8>, k: int) -> Seq<u8> {
    b.subrange(k * 128, k * 128 + 128)
}

pub open spec fn mc_magic() -> Seq<u8> {
    seq![0x4Du8, 0x43u8]
}

/// A raw PS1 memory card: 128 KiB, whose header frame and last directory
/// frame start with `MC`, and whose header, directory and last frame carry
/// valid checksums.
pub open spec fn ps1_memcard(b: Seq<u8>) -> bool {
    b.len() == 131072 && bytes_start_with(frame(b, 0), mc_magic()) && frame_ok(frame(b, 0)) && (
    forall|k: int| 1 <= k <= 15 ==> frame_ok(#[trigger] frame(b, k))) && bytes_start_with(
        frame(b, 63),
        mc_magic(),
    ) && frame_ok(frame(b, 63))
}

pub fn validate_ps1_raw_memcard(bytes: &[u8]) -> (r: bool)
    ensures
        r == ps1_memcard(bytes@),
{
    if bytes.len() != 131072 {
        return false;
    }
    let f0 = &bytes[0..128];
    assert(f0@ =~= frame(bytes@, 0));
    if !starts_with_bytes(f0, &[0x4D, 0x43]) || !frame_checksum_ok(f0) {
        return false;
    }
    let mut k: usize = 1;
    while k <= 15
        invariant
            bytes@.len() == 131072,
            1 <= k <= 16,
            forall|j: int| 1 <= j < k ==> frame_ok(#[trigger] frame(bytes@, j)),
        decreases 16 - k,
    {
        let f = &bytes[k * 128..k * 128 + 128];
        assert(f@ =~= frame(bytes@, k as int));
        if !frame_checksum_ok(f) {
            return false;
        }
        k = k + 1;
    }
    let t = &bytes[63 * 128..63 * 128 + 128];
    assert(t@ =~= frame(bytes@, 63));
    starts_with_bytes(t, &[0x4D, 0x43]) && frame_checksum_ok(t)
}

/// How many of the bytes are not zero.
pub open spec fn nonzero_count(b: Seq<u8>, n: int) -> nat
    decreases n,
{
    if n <= 0 {
        0
    } else {
        nonzero_count(b, n - 1) + if b[n - 1] != 0 {
            1nat
        } else {
            0nat
        }
    }
}

pub open spec fn dexdrive_magic() -> Seq<u8> {
    seq![0x31u8, 0x32u8, 0x33u8, 0x2Du8, 0x34u8, 0x35u8, 0x36u8, 0x2Du8, 0x53u8, 0x54u8, 0x44u8]
}

/// The raw card inside a DexDrive (`.gme`) file: a raw card as it is, or
/// after the 3904-byte header when that header carries the DexDrive magic
/// or is all but blank (at most 16 non-zero bytes).
#[verifier::opaque]
pub open spec fn dexdrive_payload(b: Seq<u8>) -> Option<Seq<u8>> {
    if b.len() == 131072 && ps1_memcard(b) {
        Some(b)
    } else if b.len() != 3904 + 131072 {
        None
    } else {
        let header = b.subrange(0, 3904);
        let payload = b.subrange(3904, b.len() as int);
        if !bytes_start_with(header, dexdrive_magic()) && nonzero_count(header, 3904) > 16 {
            None
        } else if !ps1_memcard(payload) {
            None
        } else {
            Some(payload)
        }
    }
}

pub fn decode_ps1_dexdrive(bytes: &[u8]) -> (r: Option<Vec<u8>>)
    ensures
        match r {
            Some(p) => dexdrive_payload(bytes@) == Some(p@),
            None => dexdrive_payload(bytes@) is None,
        },
{
    proof {
        reveal(dexdrive_payload);
    }
    if bytes.len() == 131072 && validate_ps1_raw_memcard(bytes) {
        return Some(vstd::slice::slice_to_vec(bytes));
    }
    if bytes.len() != 3904 + 131072 {
        return None;
    }
    let header = &bytes[0..3904];
    let magic: [u8; 11] = [0x31, 0x32, 0x33, 0x2D, 0x34, 0x35, 0x36, 0x2D, 0x53, 0x54, 0x44];
    assert(magic@ =~= dexdrive_magic());
    let has_magic = starts_with_bytes(header, &magic);
    let mut count: usize = 0;
    let mut i: usize = 0;
    while i < 3904
        invariant
            header@.len() == 3904,
            0 <= i <= 3904,
            count == nonzero_count(header@, i as int),
            count <= i,
        decreases 3904 - i,
    {
        if header[i] != 0 {
            count = count + 1;
        }
        i = i + 1;
    }
    if !has_magic && count > 16 {
        return None;
    }
    let payload = &bytes[3904..bytes.len()];
    if !validate_ps1_raw_memcard(payload) {
        return None;
    }
    Some(vstd::slice::slice_to_vec(payload))
}

/// The DexDrive header written before a raw card.
pub open spec fn dexdrive_header() -> Seq<u8> {
    Seq::new(
        3904,
        |i: int|
            if i < 11 {
                dexdrive_magic()[i]
            } else if i == 18 || i == 20 {
                1u8
            } else if i == 21 {
                0x4Du8
            } else {
                0u8
            },
    )
}

/// A raw card wrapped as a DexDrive file.
pub fn encode_ps1_dexdrive(raw: &[u8]) -> (r: Vec<u8>)
    ensures
        r@ == dexdrive_header() + raw@,
{
    let mut out: Vec<u8> = Vec::new();
    let magic: [u8; 11] = [0x31, 0x32, 0x33, 0x2D, 0x34, 0x35, 0x36, 0x2D, 0x53, 0x54, 0x44];
    assert(magic@ =~= dexdrive_magic());
    let mut i: usize = 0;
    while i < 3904
        invariant
            0 <= i <= 3904,
            magic@ == dexdrive_magic(),
            out@ == dexdrive_header().subrange(0, i as int),
        decreases 3904 - i,
    {
        let v: u8 = if i < 11 {
            magic[i]
        } else if i == 18 || i == 20 {
            1
        } else if i == 21 {
            0x4D
        } else {
            0
        };
        out.push(v);
        i = i + 1;
        assert(out@ =~= dexdrive_header().subrange(0, i as int));
    }
    let mut k: usize = 0;
    while k < raw.len()
        invariant
            0 <= k <= raw@.len(),
            out@ == dexdrive_header() + raw@.subrange(0, k as int),
        decreases raw@.len() - k,
    {
        out.push(raw[k]);
        k = k + 1;
        assert(out@ =~= dexdrive_header() + raw@.subrange(0, k as int));
    }
    assert(raw@.subrange(0, raw@.len() as int) =~= raw@);
    out
}

// ---------------------------------------------------------------------------
// PSP virtual memory cards (`.vmp`)
// ---------------------------------------------------------------------------

/// What the `aes` crate's AES-128 block encryption gives for a key and a
/// 16-byte block.
pub uninterp spec fn aes128_encrypted(key: Seq<u8>, block: Seq<u8>) -> Seq<u8>;

/// What the `aes` crate's AES-128 block decryption gives for a key and a
/// 16-byte block.
pub uninterp spec fn aes128_decrypted(key: Seq<u8>, block: Seq<u8>) -> Seq<u8>;


/// Encrypts one block with AES-128 (`aes::Aes128`, `BlockEncrypt::encrypt_block`).
/// The contract names the result and says nothing more of the cipher.
#[verifier::external_body]
fn aes128_ecb_encrypt(key: [u8; 16], block: [u8; 16]) -> (r: [u8; 16])
    ensures
        r@ == aes128_encrypted(key@, block@),
{
    let cipher = aes::Aes128::new(&aes::cipher::generic_array::GenericArray::from(key));
    let mut output = aes::cipher::generic_array::GenericArray::from(block);
    cipher.encrypt_block(&mut output);
    output.into()
}

/// Decrypts one block with AES-128 (`aes::Aes128`, `BlockDecrypt::decrypt_block`).
/// The contract names the result and says nothing more of the cipher.
#[verifier::external_body]
fn aes128_ecb_decrypt(key: [u8; 16], block: [u8; 16]) -> (r: [u8; 16])
    ensures
        r@ == aes128_decrypted(key@, block@),
{
    let cipher = aes::Aes128::new(&aes::cipher::generic_array::GenericArray::from(key));
    let mut output = aes::cipher::generic_array::GenericArray::from(block);
    cipher.decrypt_block(&mut output);
    output.into()
}

pub open spec fn vmp_key() -> Seq<u8> {
    seq![
        0xABu8, 0x5Au8, 0xBCu8, 0x9Fu8, 0xC1u8, 0xF4u8, 0x9Du8, 0xE6u8, 0xA0u8, 0x51u8, 0xDBu8, 0xAEu8,
        0xFAu8, 0x51u8, 0x88u8, 0x59u8,
    ]
}

pub open spec fn vmp_iv() -> Seq<u8> {
    seq![
        0xB3u8, 0x0Fu8, 0xFEu8, 0xEDu8, 0xB7u8, 0xDCu8, 0x5Eu8, 0xB7u8, 0x13u8, 0x3Du8, 0xA6u8, 0x0Du8,
        0x1Bu8, 0x6Bu8, 0x2Cu8, 0xDCu8,
    ]
}

pub open spec fn vmp_magic() -> Seq<u8> {
    seq![0u8, 0x50u8, 0x4Du8, 0x56u8, 0x80u8, 0u8, 0u8, 0u8, 0u8, 0u8, 0u8, 0u8]
}

pub open spec fn vmp_seed_init() -> Seq<u8> {
    Seq::new(20, |i: int| i as u8)
}

/// The salt of a VMP signature, before its pad bytes are mixed in: the
/// seed's first block decrypted and XORed with the IV, then the seed's first
/// block encrypted, its first four bytes XORed with the rest of the seed,
/// then zeros.
pub open spec fn vmp_salt(seed: Seq<u8>) -> Seq<u8> {
    let dec = aes128_decrypted(vmp_key(), seed.subrange(0, 16));
    let enc = aes128_encrypted(vmp_key(), seed.subrange(0, 16));
    Seq::new(
        64,
        |i: int|
            if i < 16 {
                dec[i] ^ vmp_iv()[i]
            } else if i < 20 {
                enc[i - 16] ^ seed[i]
            } else {
                0u8
            },
    )
}

pub open spec fn xor_all(s: Seq<u8>, pad: u8) -> Seq<u8> {
    s.map_values(|v: u8| v ^ pad)
}

/// The bytes with the signature field (`0x20..0x34`) zeroed.
pub open spec fn without_signature(b: Seq<u8>) -> Seq<u8> {
    Seq::new(b.len(), |i: int| if 0x20 <= i < 0x34 { 0u8 } else { b[i] })
}

/// The VMP signature of a file for a salt seed: an HMAC-style double SHA-1
/// over the file with its signature field zeroed.
pub open spec fn vmp_signature(full: Seq<u8>, seed: Seq<u8>) -> Seq<u8> {
    let salt = vmp_salt(seed);
    let inner = sha1_20(xor_all(salt, 0x36) + without_signature(full));
    sha1_20(xor_all(xor_all(salt, 0x36), 0x6A) + inner)
}

/// A SHA-1 digest as its 20 bytes.
pub open spec fn sha1_20(data: Seq<u8>) -> Seq<u8> {
    Seq::new(20, |i: int| sha1_of(data)[i])
}

pub fn calculate_ps1_vmp_signature(full_bytes: &[u8], salt_seed: &[u8]) -> (r: Option<[u8; 20]>)
    ensures
        match r {
            Some(s) => full_bytes@.len() >= 0x34 && salt_seed@.len() >= 20 && s@ == vmp_signature(
                full_bytes@,
                salt_seed@,
            ),
            None => full_bytes@.len() < 0x34 || salt_seed@.len() < 20,
        },
{
    if full_bytes.len() < 0x34 || salt_seed.len() < 20 {
        return None;
    }
    let key: [u8; 16] = [
        0xAB, 0x5A, 0xBC, 0x9F, 0xC1, 0xF4, 0x9D, 0xE6, 0xA0, 0x51, 0xDB, 0xAE, 0xFA, 0x51, 0x88, 0x59,
    ];
    let iv: [u8; 16] = [
        0xB3, 0x0F, 0xFE, 0xED, 0xB7, 0xDC, 0x5E, 0xB7, 0x13, 0x3D, 0xA6, 0x0D, 0x1B, 0x6B, 0x2C, 0xDC,
    ];
    assert(key@ =~= vmp_key());
    assert(iv@ =~= vmp_iv());
    let mut seed_head: [u8; 16] = [0u8; 16];
    let mut i: usize = 0;
    while i < 16
        invariant
            0 <= i <= 16,
            salt_seed@.len() >= 20,
            forall|k: int| 0 <= k < i ==> seed_head@[k] == salt_seed@[k],
        decreases 16 - i,
    {
        seed_head[i] = salt_seed[i];
        i = i + 1;
    }
    assert(seed_head@ =~= salt_seed@.subrange(0, 16));
    let dec = aes128_ecb_decrypt(key, seed_head);
    let enc = aes128_ecb_encrypt(key, seed_head);
    let ghost base = vmp_salt(salt_seed@);
    let mut salt: Vec<u8> = Vec::new();
    let mut j: usize = 0;
    while j < 64
        invariant
            0 <= j <= 64,
            salt_seed@.len() >= 20,
            iv@ == vmp_iv(),
            dec@ == aes128_decrypted(vmp_key(), salt_seed@.subrange(0, 16)),
            enc@ == aes128_encrypted(vmp_key(), salt_seed@.subrange(0, 16)),
            base == vmp_salt(salt_seed@),
            salt@ == xor_all(base.subrange(0, j as int), 0x36),
        decreases 64 - j,
    {
        let v: u8 = if j < 16 {
            dec[j] ^ iv[j]
        } else if j < 20 {
            enc[j - 16] ^ salt_seed[j]
        } else {
            0
        };
        salt.push(v ^ 0x36);
        j = j + 1;
        assert(salt@ =~= xor_all(base.subrange(0, j as int), 0x36));
    }
    assert(base.subrange(0, 64) =~= base);
    let mut input1: Vec<u8> = Vec::new();
    let mut k: usize = 0;
    while k < 64
        invariant
            0 <= k <= 64,
            salt@.len() == 64,
            input1@ == salt@.subrange(0, k as int),
        decreases 64 - k,
    {
        input1.push(salt[k]);
        k = k + 1;
        assert(input1@ =~= salt@.subrange(0, k as int));
    }
    let mut m: usize = 0;
    while m < full_bytes.len()
        invariant
            0 <= m <= full_bytes@.len(),
            salt@.len() == 64,
            input1@ == salt@ + without_signature(full_bytes@).subrange(0, m as int),
        decreases full_bytes@.len() - m,
    {
        let v: u8 = if 0x20 <= m && m < 0x34 {
            0
        } else {
            full_bytes[m]
        };
        input1.push(v);
        m = m + 1;
        assert(input1@ =~= salt@ + without_signature(full_bytes@).subrange(0, m as int));
    }
    assert(without_signature(full_bytes@).subrange(0, full_bytes@.len() as int) =~= without_signature(full_bytes@));
    let digest1 = sha1_digest(input1.as_slice());
    assert(digest1@ =~= sha1_20(input1@));
    let mut input2: Vec<u8> = Vec::new();
    let mut p: usize = 0;
    while p < 64
        invariant
            0 <= p <= 64,
            salt@.len() == 64,
            input2@ == xor_all(salt@, 0x6A).subrange(0, p as int),
        decreases 64 - p,
    {
        input2.push(salt[p] ^ 0x6A);
        p = p + 1;
        assert(input2@ =~= xor_all(salt@, 0x6A).subrange(0, p as int));
    }
    let mut q: usize = 0;
    while q < 20
        invariant
            0 <= q <= 20,
            salt@.len() == 64,
            input2@ == xor_all(salt@, 0x6A) + digest1@.subrange(0, q as int),
        decreases 20 - q,
    {
        input2.push(digest1[q]);
        q = q + 1;
        assert(input2@ =~= xor_all(salt@, 0x6A) + digest1@.subrange(0, q as int));
    }
    assert(xor_all(salt@, 0x6A).subrange(0, 64) =~= xor_all(salt@, 0x6A));
    assert(digest1@.subrange(0, 20) =~= digest1@);
    let outer = sha1_digest(input2.as_slice());
    assert(outer@ =~= sha1_20(input2@));
    Some(outer)
}

/// The raw card inside a VMP file whose signature checks out.
#[verifier::opaque]
pub open spec fn vmp_payload(b: Seq<u8>) -> Option<Seq<u8>> {
    if b.len() != 0x80 + 131072 {
        None
    } else if b.subrange(0, 12) != vmp_magic() {
        None
    } else if b.subrange(0x20, 0x34) != vmp_signature(b, b.subrange(0x0C, 0x20)) {
        None
    } else if !ps1_memcard(b.subrange(0x80, b.len() as int)) {
        None
    } else {
        Some(b.subrange(0x80, b.len() as int))
    }
}

fn bytes_equal(a: &[u8], b: &[u8]) -> (r: bool)
    ensures
        r == (a@ == b@),
{
    if a.len() != b.len() {
        return false;
    }
    let mut i: usize = 0;
    while i < a.len()
        invariant
            a@.len() == b@.len(),
            0 <= i <= a@.len(),
            forall|k: int| 0 <= k < i ==> a@[k] == b@[k],
        decreases a@.len() - i,
    {
        if a[i] != b[i] {
            return false;
        }
        i = i + 1;
    }
    assert(a@ =~= b@);
    true
}

pub fn decode_ps1_vmp(bytes: &[u8]) -> (r: Option<Vec<u8>>)
    ensures
        match r {
            Some(p) => vmp_payload(bytes@) == Some(p@),
            None => vmp_payload(bytes@) is None,
        },
{
    proof {
        reveal(vmp_payload);
    }
    if bytes.len() != 0x80 + 131072 {
        return None;
    }
    let magic: [u8; 12] = [0, 0x50, 0x4D, 0x56, 0x80, 0, 0, 0, 0, 0, 0, 0];
    assert(magic@ =~= vmp_magic());
    if !bytes_equal(&bytes[0..12], &magic) {
        return None;
    }
    let seed = &bytes[0x0C..0x20];
    let found = &bytes[0x20..0x34];
    let computed = match calculate_ps1_vmp_signature(bytes, seed) {
        Some(s) => s,
        None => {
            return None;
        },
    };
    if !bytes_equal(found, &computed) {
        return None;
    }
    let payload = &bytes[0x80..bytes.len()];
    if !validate_ps1_raw_memcard(payload) {
        return None;
    }
    Some(vstd::slice::slice_to_vec(payload))
}

/// The VMP header before its signature is filled in.
pub open spec fn vmp_unsigned_header() -> Seq<u8> {
    Seq::new(
        0x80,
        |i: int|
            if i < 12 {
                vmp_magic()[i]
            } else if 0x0C <= i < 0x20 {
                vmp_seed_init()[i - 0x0C]
            } else {
                0u8
            },
    )
}

/// The VMP file for a raw card: the header with the signature of the
/// unsigned file written into `0x20..0x34`, then the card.
pub open spec fn vmp_image(raw: Seq<u8>) -> Seq<u8> {
    let unsigned = vmp_unsigned_header() + raw;
    let sig = vmp_signature(unsigned, vmp_seed_init());
    Seq::new(unsigned.len(), |i: int| if 0x20 <= i < 0x34 { sig[i - 0x20] } else { unsigned[i] })
}

/// A raw card that cannot be wrapped, because it is not a valid PS1 card.
#[derive(Debug, Clone, Copy, PartialEq, Eq)]
pub struct InvalidMemoryCard;

impl InvalidMemoryCard {
    /// The message shown for the error.
    pub fn message(&self) -> (r: String)
        ensures
            r@ == "kan geen VMP maken: input is geen geldige PS1 memory card"@,
    {
        owned("kan geen VMP maken: input is geen geldige PS1 memory card")
    }
}

pub fn encode_ps1_vmp(raw: &[u8]) -> (r: Result<Vec<u8>, InvalidMemoryCard>)
    ensures
        match r {
            Ok(v) => ps1_memcard(raw@) && v@ == vmp_image(raw@),
            Err(_) => !ps1_memcard(raw@),
        },
{
    if !validate_ps1_raw_memcard(raw) {
        return Err(InvalidMemoryCard);
    }
    let mut out: Vec<u8> = Vec::new();
    let mut i: usize = 0;
    while i < 0x80
        invariant
            0 <= i <= 0x80,
            out@ == vmp_unsigned_header().subrange(0, i as int),
        decreases 0x80 - i,
    {
        let v: u8 = if i == 1 {
            0x50
        } else if i == 2 {
            0x4D
        } else if i == 3 {
            0x56
        } else if i == 4 {
            0x80
        } else if 0x0C <= i && i < 0x20 {
            (i - 0x0C) as u8
        } else {
            0
        };
        out.push(v);
        i = i + 1;
        assert(out@ =~= vmp_unsigned_header().subrange(0, i as int));
    }
    let mut k: usize = 0;
    while k < raw.len()
        invariant
            0 <= k <= raw@.len(),
            out@ == vmp_unsigned_header() + raw@.subrange(0, k as int),
        decreases raw@.len() - k,
    {
        out.push(raw[k]);
        k = k + 1;
        assert(out@ =~= vmp_unsigned_header() + raw@.subrange(0, k as int));
    }
    assert(raw@.subrange(0, raw@.len() as int) =~= raw@);
    let seed: [u8; 20] = [0, 1, 2, 3, 4, 5, 6, 7, 8, 9, 10, 11, 12, 13, 14, 15, 16, 17, 18, 19];
    assert(seed@ =~= vmp_seed_init());
    let sig = match calculate_ps1_vmp_signature(out.as_slice(), &seed) {
        Some(s) => s,
        None => {
            return Err(InvalidMemoryCard);
        },
    };
    let ghost unsigned = out@;
    let mut j: usize = 0;
    while j < 20
        invariant
            0 <= j <= 20,
            unsigned.len() == out@.len(),
            unsigned.len() >= 0x34,
            sig@ == vmp_signature(unsigned, vmp_seed_init()),
            forall|x: int|
                0 <= x < out@.len() ==> out@[x] == if 0x20 <= x < 0x20 + j {
                    sig@[x - 0x20]
                } else {
                    unsigned[x]
                },
        decreases 20 - j,
    {
        out.set(0x20 + j, sig[j]);
        j = j + 1;
    }
    assert(out@ =~= vmp_image(raw@));
    Ok(out)
}

/// Wrapping a valid PS1 card as a VMP file and reading that file back gives
/// the same card.
pub proof fn lemma_vmp_roundtrip(raw: Seq<u8>)
    requires
        ps1_memcard(raw),
    ensures
        vmp_payload(vmp_image(raw)) == Some(raw),
{
    reveal(vmp_payload);
    let unsigned = vmp_unsigned_header() + raw;
    let img = vmp_image(raw);
    let sig = vmp_signature(unsigned, vmp_seed_init());
    assert(img.len() == 0x80 + 131072);
    assert(img.subrange(0, 12) =~= vmp_magic());
    assert(img.subrange(0x0C, 0x20) =~= vmp_seed_init());
    assert(without_signature(img) =~= without_signature(unsigned));
    assert(img.subrange(0x20, 0x34) =~= sig);
    assert(img.subrange(0x80, img.len() as int) =~= raw);
}

/// HMAC-SHA1 (RFC 2104) under a 64-byte key: SHA-1 over the key with each
/// byte XORed with `0x5C`, followed by SHA-1 over the key with each byte
/// XORed with `0x36` followed by the message.
pub open spec fn hmac_sha1(key: Seq<u8>, msg: Seq<u8>) -> Seq<u8> {
    let ipad = key.map_values(|k: u8| k ^ 0x36u8);
    let opad = key.map_values(|k: u8| k ^ 0x5Cu8);
    let inner = Seq::new(20, |i: int| sha1_of(ipad + msg)[i]);
    Seq::new(20, |i: int| sha1_of(opad + inner)[i])
}

/// The VMP signature is the PSP's: HMAC-SHA1 keyed with the salt the seed
/// gives, over the file with its signature field zeroed.
pub proof fn law_vmp_signature_is_hmac_sha1(full: Seq<u8>, seed: Seq<u8>)
    ensures
        vmp_signature(full, seed) == hmac_sha1(vmp_salt(seed), without_signature(full)),
{
    let salt = vmp_salt(seed);
    assert forall|i: int| 0 <= i < salt.len() implies #[trigger] xor_all(xor_all(salt, 0x36), 0x6A)[i]
        == salt.map_values(|k: u8| k ^ 0x5Cu8)[i] by {
        let k = salt[i];
        assert((k ^ 0x36u8) ^ 0x6Au8 == k ^ 0x5Cu8) by (bit_vector);
    }
    assert(xor_all(xor_all(salt, 0x36), 0x6A) =~= salt.map_values(|k: u8| k ^ 0x5Cu8));
    assert(xor_all(salt, 0x36) =~= salt.map_values(|k: u8| k ^ 0x36u8));
}

/// A VMP file is read only when its signature is the PSP's, and a VMP file
/// written for a card carries the PSP's signature: the HMAC-SHA1 keyed with
/// the salt of the seed at `0x0C..0x20`, over the file with the signature
/// field zeroed, at `0x20..0x34`.
pub proof fn law_vmp_files_carry_psp_signatures(raw: Seq<u8>, file: Seq<u8>)
    ensures
        ps1_memcard(raw) ==> {
            let v = vmp_image(raw);
            v.subrange(0x20, 0x34) == hmac_sha1(vmp_salt(v.subrange(0x0C, 0x20)), without_signature(v))
        },
        vmp_payload(file) is Some ==> file.subrange(0x20, 0x34) == hmac_sha1(
            vmp_salt(file.subrange(0x0C, 0x20)),
            without_signature(file),
        ),
{
    reveal(vmp_payload);
    law_vmp_signature_is_hmac_sha1(file, file.subrange(0x0C, 0x20));
    if ps1_memcard(raw) {
        let unsigned = vmp_unsigned_header() + raw;
        let v = vmp_image(raw);
        assert(v.subrange(0x0C, 0x20) =~= vmp_seed_init());
        assert(without_signature(v) =~= without_signature(unsigned));
        law_vmp_signature_is_hmac_sha1(unsigned, vmp_seed_init());
        assert(v.subrange(0x20, 0x34) =~= vmp_signature(unsigned, vmp_seed_init()));
    }
}

/// Wrapping a valid PS1 card as a DexDrive file and reading that file back
/// gives the same card.
pub proof fn lemma_dexdrive_roundtrip(raw: Seq<u8>)
    requires
        ps1_memcard(raw),
    ensures
        dexdrive_payload(dexdrive_header() + raw) == Some(raw),
{
    reveal(dexdrive_payload);
    let f = dexdrive_header() + raw;
    assert(f.subrange(0, 3904) =~= dexdrive_header());
    assert(dexdrive_header().subrange(0, 11) =~= dexdrive_magic());
    assert(f.subrange(3904, f.len() as int) =~= raw);
}

// ---------------------------------------------------------------------------
// Sega Saturn backup RAM
// ---------------------------------------------------------------------------

/// A big-endian 16-bit value at `off`, where the bytes are there.
pub open spec fn be16(b: Seq<u8>, off: int) -> Option<nat> {
    if 0 <= off && off + 2 <= b.len() {
        Some((b[off] as nat) * 256 + (b[off + 1] as nat))
    } else {
        None
    }
}

/// A big-endian 32-bit value at `off`, where the bytes are there.
pub open spec fn be32(b: Seq<u8>, off: int) -> Option<nat> {
    if 0 <= off && off + 4 <= b.len() {
        Some(
            (b[off] as nat) * 16777216 + (b[off + 1] as nat) * 65536 + (b[off + 2] as nat) * 256 + (b[off
                + 3] as nat),
        )
    } else {
        None
    }
}

pub fn be_u16(bytes: &[u8], offset: usize) -> (r: Option<u16>)
    ensures
        match r {
            Some(v) => be16(bytes@, offset as int) == Some(v as nat),
            None => be16(bytes@, offset as int) is None,
        },
{
    if offset >= bytes.len() || bytes.len() - offset < 2 {
        return None;
    }
    let a = bytes[offset] as u16;
    let b = bytes[offset + 1] as u16;
    Some(a * 256 + b)
}

pub fn be_u32(bytes: &[u8], offset: usize) -> (r: Option<u32>)
    ensures
        match r {
            Some(v) => be32(bytes@, offset as int) == Some(v as nat),
            None => be32(bytes@, offset as int) is None,
        },
{
    if offset >= bytes.len() || bytes.len() - offset < 4 {
        return None;
    }
    let a = bytes[offset] as u32;
    let b = bytes[offset + 1] as u32;
    let c = bytes[offset + 2] as u32;
    let d = bytes[offset + 3] as u32;
    Some(a * 16777216 + b * 65536 + c * 256 + d)
}

pub open spec fn saturn_magic() -> Seq<u8> {
    seq![
        0x42u8, 0x61u8, 0x63u8, 0x6Bu8, 0x55u8, 0x70u8, 0x52u8, 0x61u8, 0x6Du8, 0x20u8, 0x46u8, 0x6Fu8,
        0x72u8, 0x6Du8, 0x61u8, 0x74u8,
    ]
}

/// A Saturn volume header: its first `min(0x40, bs)` bytes repeat
/// `BackUpRam Format`, and its second block is all zero.
pub open spec fn saturn_header(raw: Seq<u8>, bs: int) -> bool {
    raw.len() >= bs * 2 && (forall|i: int|
        0 <= i < (if bs < 0x40 { bs } else { 0x40 }) ==> raw[i] == saturn_magic()[i % 16]) && (forall|
        i: int,
    | bs <= i < bs * 2 ==> raw[i] == 0)
}

fn saturn_header_valid(raw: &[u8], block_size: usize) -> (r: bool)
    requires
        block_size <= 0x200,
    ensures
        r == saturn_header(raw@, block_size as int),
{
    if raw.len() < block_size * 2 {
        return false;
    }
    let magic: [u8; 16] = [
        0x42, 0x61, 0x63, 0x6B, 0x55, 0x70, 0x52, 0x61, 0x6D, 0x20, 0x46, 0x6F, 0x72, 0x6D, 0x61, 0x74,
    ];
    assert(magic@ =~= saturn_magic());
    let limit: usize = if block_size < 0x40 {
        block_size
    } else {
        0x40
    };
    let mut i: usize = 0;
    while i < limit
        invariant
            0 <= i <= limit,
            limit <= block_size,
            raw@.len() >= block_size * 2,
            magic@ == saturn_magic(),
            limit == (if block_size < 0x40 { block_size } else { 0x40 }),
            forall|k: int| 0 <= k < i ==> raw@[k] == saturn_magic()[k % 16],
        decreases limit - i,
    {
        if raw[i] != magic[i % 16] {
            return false;
        }
        i = i + 1;
    }
    let mut j: usize = block_size;
    while j < block_size * 2
        invariant
            block_size <= 0x200,
            block_size <= j <= block_size * 2,
            raw@.len() >= block_size * 2,
            forall|k: int| block_size <= k < j ==> raw@[k] == 0,
        decreases block_size * 2 - j,
    {
        if raw[j] != 0 {
            return false;
        }
        j = j + 1;
    }
    true
}

/// Every second byte (the odd ones) of a byte-expanded image.
pub open spec fn collapsed(b: Seq<u8>) -> Option<Seq<u8>> {
    if b.len() % 2 != 0 {
        None
    } else {
        Some(Seq::new(b.len() / 2, |i: int| b[2 * i + 1]))
    }
}

pub fn collapse_saturn_byte_expanded(bytes: &[u8]) -> (r: Option<Vec<u8>>)
    ensures
        match r {
            Some(v) => collapsed(bytes@) == Some(v@),
            None => collapsed(bytes@) is None,
        },
{
    if bytes.len() % 2 != 0 {
        return None;
    }
    let n = bytes.len() / 2;
    let mut out: Vec<u8> = Vec::new();
    let mut i: usize = 0;
    while i < n
        invariant
            0 <= i <= n,
            n * 2 == bytes@.len(),
            n * 2 == bytes.len(),
            out@ == Seq::new(i as nat, |k: int| bytes@[2 * k + 1]),
        decreases n - i,
    {
        out.push(bytes[2 * i + 1]);
        i = i + 1;
        assert(out@ =~= Seq::new(i as nat, |k: int| bytes@[2 * k + 1]));
    }
    Some(out)
}

proof fn lemma_block_bounds(k: int, total: int, bs: int, len: int)
    requires
        0 <= k < total,
        0 < bs,
        total * bs <= len,
    ensures
        0 <= k * bs,
        k * bs + bs <= len,
{
    assert(k * bs + bs <= total * bs) by (nonlinear_arith)
        requires
            0 <= k < total,
            0 < bs,
    ;
    assert(0 <= k * bs) by (nonlinear_arith)
        requires
            0 <= k,
            0 < bs,
    ;
}

/// Reading an entry's block list: the list so far, the read position, and
/// which listed block holds the continuation; `fuel` bounds how many
/// entries can be read (one per two bytes of the image).
pub open spec fn saturn_list(
    raw: Seq<u8>,
    bs: int,
    total: int,
    offset: int,
    blocks: Seq<int>,
    li: int,
    fuel: nat,
) -> Option<Seq<int>>
    decreases fuel,
{
    if fuel == 0 {
        None
    } else {
        match be16(raw, offset) {
            None => None,
            Some(next) => if next == 0 {
                Some(blocks)
            } else if next >= total {
                None
            } else {
                let blocks2 = blocks.push(next as int);
                let off2 = offset + 2;
                if bs != 0 && off2 % bs == 0 {
                    if 0 <= li < blocks2.len() {
                        saturn_list(raw, bs, total, blocks2[li] * bs + 4, blocks2, li + 1, (fuel - 1) as nat)
                    } else {
                        None
                    }
                } else {
                    saturn_list(raw, bs, total, off2, blocks2, li, (fuel - 1) as nat)
                }
            },
        }
    }
}

/// The blocks of the entry that starts at block `first`, or `None` when its
/// list leaves the volume, runs past the image, or does not end.
pub open spec fn saturn_blocks(raw: Seq<u8>, bs: int, total: int, first: int) -> Option<Seq<int>> {
    saturn_list(raw, bs, total, first * bs + 0x22, seq![first], 1, raw.len() / 2 + 1)
}

fn saturn_read_block_list(raw: &[u8], block_size: usize, total_blocks: usize, first_block: usize) -> (r: Option<Vec<usize>>)
    requires
        0 < block_size <= 0x200,
        first_block < total_blocks,
        total_blocks * block_size <= raw@.len(),
        raw@.len() <= 0x1000000,
    ensures
        match r {
            Some(v) => saturn_blocks(raw@, block_size as int, total_blocks as int, first_block as int)
                == Some(v@.map_values(|x: usize| x as int)) && v@.len() <= raw@.len() + 2 && (forall|
                k: int,
            | 0 <= k < v@.len() ==> v@[k] < total_blocks),
            None => saturn_blocks(raw@, block_size as int, total_blocks as int, first_block as int) is None,
        },
{
    proof {
        lemma_block_bounds(first_block as int, total_blocks as int, block_size as int, raw@.len() as int);
    }
    let mut offset: usize = first_block * block_size + 0x22;
    let mut blocks: Vec<usize> = vec![first_block];
    let mut li: usize = 1;
    let mut fuel: usize = raw.len() / 2 + 1;
    assert(blocks@.map_values(|x: usize| x as int) =~= seq![first_block as int]);
    loop
        invariant
            0 < block_size <= 0x200,
            total_blocks * block_size <= raw@.len(),
            raw@.len() <= 0x1000000,
            offset <= raw@.len() + 0x200,
            forall|k: int| 0 <= k < blocks@.len() ==> blocks@[k] < total_blocks,
            first_block < total_blocks,
            fuel <= raw@.len() / 2 + 1,
            blocks@.len() + fuel <= raw@.len() / 2 + 2,
            blocks@.len() >= 1,
            li <= blocks@.len(),
            saturn_blocks(raw@, block_size as int, total_blocks as int, first_block as int)
                == saturn_list(
                raw@,
                block_size as int,
                total_blocks as int,
                offset as int,
                blocks@.map_values(|x: usize| x as int),
                li as int,
                fuel as nat,
            ),
        decreases fuel,
    {
        let ghost bv = blocks@.map_values(|x: usize| x as int);
        if fuel == 0 {
            return None;
        }
        let next = match be_u16(raw, offset) {
            None => {
                return None;
            },
            Some(v) => v,
        };
        if next == 0 {
            return Some(blocks);
        }
        if next as usize >= total_blocks {
            return None;
        }
        blocks.push(next as usize);
        assert(blocks@.map_values(|x: usize| x as int) =~= bv.push(next as int));
        offset = offset + 2;
        fuel = fuel - 1;
        if offset % block_size == 0 {
            if li < blocks.len() {
                let nl = blocks[li];
                proof {
                    lemma_block_bounds(nl as int, total_blocks as int, block_size as int, raw@.len() as int);
                }
                offset = nl * block_size + 4;
                li = li + 1;
            } else {
                return None;
            }
        }
    }
}

/// Whether the entry's data fits in its blocks: after the block list (two
/// bytes per block) the blocks' payload areas must cover `size` bytes
/// within the image.
pub open spec fn saturn_data(raw: Seq<u8>, bs: int, blocks: Seq<int>, i: int, blr: int, rem: int) -> bool
    decreases blocks.len() - i,
{
    if i >= blocks.len() || rem == 0 {
        rem == 0
    } else {
        let block_offset = blocks[i] * bs;
        let inner = if i == 0 { 0x22int } else { 4int };
        let avail = if bs > inner { bs - inner } else { 0 };
        if blr >= avail {
            saturn_data(raw, bs, blocks, i + 1, blr - avail, rem)
        } else {
            let inner2 = if blr > 0 { inner + blr } else { inner };
            let avail2 = if blr > 0 { avail - blr } else { avail };
            if block_offset + inner2 + avail2 > raw.len() {
                false
            } else {
                let take = if avail2 < rem { avail2 } else { rem };
                saturn_data(raw, bs, blocks, i + 1, 0, rem - take)
            }
        }
    }
}

fn saturn_entry_data_present(raw: &[u8], block_size: usize, total_blocks: usize, blocks: &Vec<usize>, size: usize) -> (r: bool)
    requires
        0 < block_size <= 0x200,
        raw@.len() <= 0x1000000,
        blocks@.len() <= raw@.len() + 2,
        total_blocks * block_size <= raw@.len(),
        forall|k: int| 0 <= k < blocks@.len() ==> blocks@[k] < total_blocks,
    ensures
        r == saturn_data(raw@, block_size as int, blocks@.map_values(|x: usize| x as int), 0, (blocks@.len() * 2) as int, size as int),
{
    let ghost bv = blocks@.map_values(|x: usize| x as int);
    let mut blr: usize = blocks.len() * 2;
    let mut remaining: usize = size;
    let mut index: usize = 0;
    while index < blocks.len()
        invariant
            0 <= index <= blocks@.len(),
            0 < block_size <= 0x200,
            raw@.len() <= 0x1000000,
            bv == blocks@.map_values(|x: usize| x as int),
            blocks@.len() <= raw@.len() + 2,
            total_blocks * block_size <= raw@.len(),
            forall|k: int| 0 <= k < blocks@.len() ==> blocks@[k] < total_blocks,
            blr <= 2 * blocks@.len(),
            saturn_data(raw@, block_size as int, bv, 0, (blocks@.len() * 2) as int, size as int)
                == saturn_data(raw@, block_size as int, bv, index as int, blr as int, remaining as int),
        decreases blocks@.len() - index,
    {
        if remaining == 0 {
            return true;
        }
        proof {
            lemma_block_bounds(blocks@[index as int] as int, total_blocks as int, block_size as int, raw@.len() as int);
        }
        let block_offset = blocks[index] * block_size;
        let mut inner: usize = if index == 0 {
            0x22
        } else {
            4
        };
        let mut avail: usize = if block_size > inner {
            block_size - inner
        } else {
            0
        };
        if blr >= avail {
            blr = blr - avail;
            index = index + 1;
            continue ;
        }
        if blr > 0 {
            inner = inner + blr;
            avail = avail - blr;
            blr = 0;
        }
        if block_offset + inner + avail > raw.len() {
            return false;
        }
        let take = if avail < remaining {
            avail
        } else {
            remaining
        };
        remaining = remaining - take;
        index = index + 1;
    }
    remaining == 0
}

/// Whether the block at `first` holds a valid archive entry: its header
/// fits, its language byte is at most 5, its size fits the image, and its
/// block list and data check out.
pub open spec fn saturn_entry_ok(raw: Seq<u8>, bs: int, total: int, first: int) -> bool {
    let offset = first * bs;
    if offset + 0x22 > raw.len() {
        false
    } else if raw[offset + 0x0F] > 5 {
        false
    } else {
        let size = be32(raw, offset + 0x1E)->0;
        if size > raw.len() {
            false
        } else {
            match saturn_blocks(raw, bs, total, first) {
                Some(bl) => bl.len() > 0 && saturn_data(raw, bs, bl, 0, (bl.len() * 2) as int, size as int),
                None => false,
            }
        }
    }
}

fn validate_saturn_archive_entry(raw: &[u8], block_size: usize, total_blocks: usize, first_block: usize) -> (r: bool)
    requires
        0 < block_size <= 0x200,
        first_block < total_blocks,
        total_blocks * block_size <= raw@.len(),
        raw@.len() <= 0x1000000,
    ensures
        r == saturn_entry_ok(raw@, block_size as int, total_blocks as int, first_block as int),
{
    proof {
        lemma_block_bounds(first_block as int, total_blocks as int, block_size as int, raw@.len() as int);
    }
    let offset = first_block * block_size;
    if offset + 0x22 > raw.len() {
        return false;
    }
    if raw[offset + 0x0F] > 5 {
        return false;
    }
    let save_size = match be_u32(raw, offset + 0x1E) {
        Some(v) => v as usize,
        None => {
            return false;
        },
    };
    if save_size > raw.len() {
        return false;
    }
    let blocks = match saturn_read_block_list(raw, block_size, total_blocks, first_block) {
        Some(b) => b,
        None => {
            return false;
        },
    };
    if blocks.len() == 0 {
        return false;
    }
    saturn_entry_data_present(raw, block_size, total_blocks, &blocks, save_size)
}

/// The number of valid archive entries among blocks `b..total` of a volume
/// (an entry starts with the marker `0x80000000`).
pub open spec fn saturn_entries_from(raw: Seq<u8>, bs: int, total: int, b: int) -> Option<nat>
    decreases total - b,
{
    if b >= total {
        Some(0)
    } else {
        match be32(raw, b * bs) {
            None => None,
            Some(marker) => match saturn_entries_from(raw, bs, total, b + 1) {
                None => None,
                Some(rest) => Some(
                    rest + if marker == 0x80000000 && saturn_entry_ok(raw, bs, total, b) {
                        1nat
                    } else {
                        0nat
                    },
                ),
            },
        }
    }
}

/// The number of saves in a Saturn volume, or `None` when it is not one.
pub open spec fn saturn_volume(raw: Seq<u8>, bs: int) -> Option<nat> {
    if bs == 0 || raw.len() < bs * 2 || !saturn_header(raw, bs) {
        None
    } else {
        saturn_entries_from(raw, bs, (raw.len() as int) / bs, 2)
    }
}

proof fn lemma_saturn_entries_none_sticks(raw: Seq<u8>, bs: int, total: int, b: int, c: int)
    requires
        b <= c,
        saturn_entries_from(raw, bs, total, c) is None,
    ensures
        saturn_entries_from(raw, bs, total, b) is None,
    decreases c - b,
{
    if b < c {
        lemma_saturn_entries_none_sticks(raw, bs, total, b + 1, c);
    }
}

fn inspect_saturn_volume(raw: &[u8], block_size: usize) -> (r: Option<usize>)
    requires
        0 < block_size <= 0x200,
        raw@.len() <= 0x1000000,
    ensures
        match r {
            Some(n) => saturn_volume(raw@, block_size as int) == Some(n as nat) && n <= raw@.len(),
            None => saturn_volume(raw@, block_size as int) is None,
        },
{
    if raw.len() < block_size * 2 || !saturn_header_valid(raw, block_size) {
        return None;
    }
    let total = raw.len() / block_size;
    assert(total * block_size <= raw@.len()) by (nonlinear_arith)
        requires
            total == (raw@.len() as int) / (block_size as int),
            block_size > 0,
    ;
    let ghost bs = block_size as int;
    assert(total >= 2) by (nonlinear_arith)
        requires
            total == (raw@.len() as int) / (block_size as int),
            raw@.len() >= block_size * 2,
            block_size > 0,
    ;
    let mut b: usize = total;
    let mut count: usize = 0;
    while b > 2
        invariant
            2 <= b <= total,
            total == (raw@.len() as int) / bs,
            bs == block_size,
            0 < block_size <= 0x200,
            raw@.len() <= 0x1000000,
            total * block_size <= raw@.len(),
            count <= total - b,
            total <= raw@.len(),
            saturn_entries_from(raw@, bs, total as int, b as int) == Some(count as nat),
        decreases b,
    {
        let blk = b - 1;
        proof {
            lemma_block_bounds(blk as int, total as int, block_size as int, raw@.len() as int);
        }
        let offset = blk * block_size;
        let marker = match be_u32(raw, offset) {
            Some(m) => m,
            None => {
                proof {
                    lemma_saturn_entries_none_sticks(raw@, bs, total as int, 2, blk as int);
                }
                return None;
            },
        };
        if marker == 0x80000000 && validate_saturn_archive_entry(raw, block_size, total, blk) {
            count = count + 1;
        }
        b = blk;
    }
    Some(count)
}

/// The way a Saturn backup RAM image is laid out.
#[derive(Debug, Clone, Copy, PartialEq, Eq, Structural)]
pub enum SaturnFormat {
    InternalRaw,
    CartridgeRaw,
    MisterInternalInterleaved,
    CartridgeInterleaved,
    CombinedRaw,
    MisterCombinedInterleaved,
    YabasanshiroRaw,
    YabasanshiroInterleaved,
}

pub open spec fn saturn_format_name(f: SaturnFormat) -> Seq<char> {
    match f {
        SaturnFormat::InternalRaw => "internal-raw"@,
        SaturnFormat::CartridgeRaw => "cartridge-raw"@,
        SaturnFormat::MisterInternalInterleaved => "mister-internal-interleaved"@,
        SaturnFormat::CartridgeInterleaved => "cartridge-interleaved"@,
        SaturnFormat::CombinedRaw => "combined-raw"@,
        SaturnFormat::MisterCombinedInterleaved => "mister-combined-interleaved"@,
        SaturnFormat::YabasanshiroRaw => "yabasanshiro-raw"@,
        SaturnFormat::YabasanshiroInterleaved => "yabasanshiro-interleaved"@,
    }
}

impl SaturnFormat {
    pub fn as_str(self) -> (r: &'static str)
        ensures
            r@ == saturn_format_name(self),
    {
        match self {
            SaturnFormat::InternalRaw => "internal-raw",
            SaturnFormat::CartridgeRaw => "cartridge-raw",
            SaturnFormat::MisterInternalInterleaved => "mister-internal-interleaved",
            SaturnFormat::CartridgeInterleaved => "cartridge-interleaved",
            SaturnFormat::CombinedRaw => "combined-raw",
            SaturnFormat::MisterCombinedInterleaved => "mister-combined-interleaved",
            SaturnFormat::YabasanshiroRaw => "yabasanshiro-raw",
            SaturnFormat::YabasanshiroInterleaved => "yabasanshiro-interleaved",
        }
    }
}

/// What a Saturn backup RAM image holds.
#[derive(Debug, Clone, Copy, PartialEq, Eq)]
pub struct SaturnMetadata {
    pub format: SaturnFormat,
    pub save_entries: usize,
    pub has_internal: bool,
    pub has_cartridge: bool,
}

/// A volume that may be absent: empty or all-zero counts as no saves.
pub open spec fn saturn_optional_volume(raw: Seq<u8>, bs: int) -> Option<nat> {
    if raw.len() == 0 || all_bytes(raw, 0) {
        Some(0)
    } else {
        saturn_volume(raw, bs)
    }
}

fn inspect_optional_saturn_volume(raw: &[u8], block_size: usize) -> (r: Option<usize>)
    requires
        0 < block_size <= 0x200,
        raw@.len() <= 0x1000000,
    ensures
        match r {
            Some(n) => saturn_optional_volume(raw@, block_size as int) == Some(n as nat) && n <= raw@.len(),
            None => saturn_optional_volume(raw@, block_size as int) is None,
        },
{
    if raw.len() == 0 || all_bytes_are(raw, 0) {
        return Some(0);
    }
    inspect_saturn_volume(raw, block_size)
}

pub open spec fn sat_meta(format: SaturnFormat, entries: nat, internal: bool, cartridge: bool) -> (SaturnFormat, nat, bool, bool) {
    (format, entries, internal, cartridge)
}

/// What a Saturn image of a known size holds, by its layout: internal
/// memory (64-byte blocks), a cartridge (512-byte blocks), both, and the
/// byte-expanded forms MiSTer writes.
#[verifier::opaque]
pub open spec fn saturn_image(b: Seq<u8>) -> Option<(SaturnFormat, nat, bool, bool)> {
    let n = b.len();
    if n == 0x8000 {
        match saturn_volume(b, 0x40) {
            Some(e) => Some(sat_meta(SaturnFormat::InternalRaw, e, true, false)),
            None => None,
        }
    } else if n == 0x80000 {
        match saturn_volume(b, 0x200) {
            Some(e) => Some(sat_meta(SaturnFormat::CartridgeRaw, e, false, true)),
            None => None,
        }
    } else if n == 0x10000 {
        match saturn_volume(collapsed(b)->0, 0x40) {
            Some(e) => Some(sat_meta(SaturnFormat::MisterInternalInterleaved, e, true, false)),
            None => None,
        }
    } else if n == 0x100000 {
        match saturn_volume(collapsed(b)->0, 0x200) {
            Some(e) => Some(sat_meta(SaturnFormat::CartridgeInterleaved, e, false, true)),
            None => None,
        }
    } else if n == 0x88000 {
        match (saturn_volume(b.subrange(0, 0x8000), 0x40), saturn_optional_volume(b.subrange(0x8000, n as int), 0x200)) {
            (Some(i), Some(c)) => Some(sat_meta(SaturnFormat::CombinedRaw, i + c, true, true)),
            _ => None,
        }
    } else if n == 0x110000 {
        match (
            saturn_volume(collapsed(b.subrange(0, 0x10000))->0, 0x40),
            saturn_optional_volume(collapsed(b.subrange(0x10000, n as int))->0, 0x200),
        ) {
            (Some(i), Some(c)) => Some(sat_meta(SaturnFormat::MisterCombinedInterleaved, i + c, true, true)),
            _ => None,
        }
    } else if n == 0x400000 {
        match saturn_volume(b, 0x40) {
            Some(e) => Some(sat_meta(SaturnFormat::YabasanshiroRaw, e, true, false)),
            None => None,
        }
    } else if n == 0x800000 {
        match saturn_volume(collapsed(b)->0, 0x40) {
            Some(e) => Some(sat_meta(SaturnFormat::YabasanshiroInterleaved, e, true, false)),
            None => None,
        }
    } else {
        None
    }
}

pub open spec fn saturn_view(m: SaturnMetadata) -> (SaturnFormat, nat, bool, bool) {
    (m.format, m.save_entries as nat, m.has_internal, m.has_cartridge)
}

fn sat(format: SaturnFormat, entries: usize, internal: bool, cartridge: bool) -> (r: Option<SaturnMetadata>)
    ensures
        r matches Some(m) && saturn_view(m) == sat_meta(format, entries as nat, internal, cartridge),
{
    Some(SaturnMetadata { format, save_entries: entries, has_internal: internal, has_cartridge: cartridge })
}

/// Reads the layout and save count of a Saturn backup RAM image.
pub fn inspect_saturn_bytes(bytes: &[u8]) -> (r: Option<SaturnMetadata>)
    ensures
        match r {
            Some(m) => saturn_image(bytes@) == Some(saturn_view(m)),
            None => saturn_image(bytes@) is None,
        },
{
    proof {
        reveal(saturn_image);
    }
    let n = bytes.len();
    if n == 0x8000 {
        match inspect_saturn_volume(bytes, 0x40) {
            Some(e) => sat(SaturnFormat::InternalRaw, e, true, false),
            None => None,
        }
    } else if n == 0x80000 {
        match inspect_saturn_volume(bytes, 0x200) {
            Some(e) => sat(SaturnFormat::CartridgeRaw, e, false, true),
            None => None,
        }
    } else if n == 0x10000 {
        let c = collapse_saturn_byte_expanded(bytes).unwrap();
        match inspect_saturn_volume(c.as_slice(), 0x40) {
            Some(e) => sat(SaturnFormat::MisterInternalInterleaved, e, true, false),
            None => None,
        }
    } else if n == 0x100000 {
        let c = collapse_saturn_byte_expanded(bytes).unwrap();
        match inspect_saturn_volume(c.as_slice(), 0x200) {
            Some(e) => sat(SaturnFormat::CartridgeInterleaved, e, false, true),
            None => None,
        }
    } else if n == 0x88000 {
        let i = inspect_saturn_volume(&bytes[0..0x8000], 0x40);
        let c = inspect_optional_saturn_volume(&bytes[0x8000..n], 0x200);
        assert(bytes@.subrange(0, 0x8000) =~= bytes@.subrange(0, 0x8000));
        match (i, c) {
            (Some(i), Some(c)) => sat(SaturnFormat::CombinedRaw, i + c, true, true),
            _ => None,
        }
    } else if n == 0x110000 {
        let a = collapse_saturn_byte_expanded(&bytes[0..0x10000]).unwrap();
        let b = collapse_saturn_byte_expanded(&bytes[0x10000..n]).unwrap();
        let i = inspect_saturn_volume(a.as_slice(), 0x40);
        let c = inspect_optional_saturn_volume(b.as_slice(), 0x200);
        match (i, c) {
            (Some(i), Some(c)) => sat(SaturnFormat::MisterCombinedInterleaved, i + c, true, true),
            _ => None,
        }
    } else if n == 0x400000 {
        match inspect_saturn_volume(bytes, 0x40) {
            Some(e) => sat(SaturnFormat::YabasanshiroRaw, e, true, false),
            None => None,
        }
    } else if n == 0x800000 {
        let c = collapse_saturn_byte_expanded(bytes).unwrap();
        match inspect_saturn_volume(c.as_slice(), 0x40) {
            Some(e) => sat(SaturnFormat::YabasanshiroInterleaved, e, true, false),
            None => None,
        }
    } else {
        None
    }
}

// ---------------------------------------------------------------------------
// Dreamcast VMU images and files
// ---------------------------------------------------------------------------

/// A little-endian 16-bit value at `off`, where the bytes are there.
pub open spec fn le16(b: Seq<u8>, off: int) -> Option<nat> {
    if 0 <= off && off + 2 <= b.len() {
        Some((b[off] as nat) + (b[off + 1] as nat) * 256)
    } else {
        None
    }
}

pub fn le_u16(bytes: &[u8], offset: usize) -> (r: Option<u16>)
    ensures
        match r {
            Some(v) => le16(bytes@, offset as int) == Some(v as nat),
            None => le16(bytes@, offset as int) is None,
        },
{
    if offset >= bytes.len() || bytes.len() - offset < 2 {
        return None;
    }
    let a = bytes[offset] as u16;
    let b = bytes[offset + 1] as u16;
    Some(a + b * 256)
}

/// The layout fields of a VMU root block.
#[derive(Debug, Clone, Copy, PartialEq, Eq, Structural)]
pub struct DreamcastRoot {
    pub fat_loc: u16,
    pub fat_size: u16,
    pub dir_loc: u16,
    pub dir_size: u16,
    pub user_blocks: u16,
}

pub open spec fn root_block(b: Seq<u8>) -> Seq<u8> {
    b.subrange(255 * 512int, 256 * 512int)
}

/// The root block (block 255) of a 128 KiB VMU image: sixteen `0x55` bytes,
/// then the FAT and directory locations, which must lie on the card, and a
/// user-block count of 1 to 200.
pub open spec fn vmu_root(b: Seq<u8>) -> Option<DreamcastRoot> {
    if b.len() != 131072 {
        None
    } else {
        let r = root_block(b);
        if !all_bytes(r.subrange(0, 16), 0x55) {
            None
        } else {
            let fat_loc = le16(r, 0x46)->0;
            let fat_size = le16(r, 0x48)->0;
            let dir_loc = le16(r, 0x4A)->0;
            let dir_size = le16(r, 0x4C)->0;
            let user_blocks = le16(r, 0x50)->0;
            if fat_size == 0 || dir_size == 0 || fat_loc >= 256 {
                None
            } else if dir_loc >= 256 || user_blocks == 0 || user_blocks > 200 {
                None
            } else {
                Some(
                    DreamcastRoot {
                        fat_loc: fat_loc as u16,
                        fat_size: fat_size as u16,
                        dir_loc: dir_loc as u16,
                        dir_size: dir_size as u16,
                        user_blocks: user_blocks as u16,
                    },
                )
            }
        }
    }
}

fn parse_dreamcast_root(bytes: &[u8]) -> (r: Option<DreamcastRoot>)
    ensures
        r == vmu_root(bytes@),
{
    if bytes.len() != 131072 {
        return None;
    }
    let root = &bytes[255 * 512..256 * 512];
    assert(root@ =~= root_block(bytes@));
    let head16 = &root[0..16];
    assert(head16@ =~= root@.subrange(0, 16));
    if !all_bytes_are(head16, 0x55) {
        return None;
    }
    let fat_loc = le_u16(root, 0x46).unwrap();
    let fat_size = le_u16(root, 0x48).unwrap();
    let dir_loc = le_u16(root, 0x4A).unwrap();
    let dir_size = le_u16(root, 0x4C).unwrap();
    let user_blocks = le_u16(root, 0x50).unwrap();
    if fat_size == 0 || dir_size == 0 || fat_loc >= 256 {
        return None;
    }
    if dir_loc >= 256 || user_blocks == 0 || user_blocks > 200 {
        return None;
    }
    Some(DreamcastRoot { fat_loc, fat_size, dir_loc, dir_size, user_blocks })
}

/// The file allocation table: 256 little-endian entries at the start of
/// the FAT blocks, which must lie within the image.
pub open spec fn vmu_fat(b: Seq<u8>, root: DreamcastRoot) -> Option<Seq<nat>> {
    let start = root.fat_loc as int * 512;
    let end = start + root.fat_size as int * 512;
    if end > b.len() {
        None
    } else if end - start < 512 {
        None
    } else {
        Some(Seq::new(256, |i: int| le16(b, start + 2 * i)->0))
    }
}

fn parse_dreamcast_fat(bytes: &[u8], root: DreamcastRoot) -> (r: Option<Vec<u16>>)
    requires
        bytes@.len() == 131072,
    ensures
        match r {
            Some(v) => vmu_fat(bytes@, root) == Some(v@.map_values(|x: u16| x as nat)) && v@.len() == 256,
            None => vmu_fat(bytes@, root) is None,
        },
{
    let start: usize = root.fat_loc as usize * 512;
    let end: usize = start + root.fat_size as usize * 512;
    if end > bytes.len() {
        return None;
    }
    if end - start < 512 {
        return None;
    }
    let mut out: Vec<u16> = Vec::new();
    let mut i: usize = 0;
    while i < 256
        invariant
            0 <= i <= 256,
            start + 512 <= end <= bytes@.len(),
            start == root.fat_loc as int * 512,
            out@.len() == i,
            forall|k: int| 0 <= k < i ==> out@[k] as nat == le16(bytes@, start + 2 * k)->0,
        decreases 256 - i,
    {
        let v = le_u16(bytes, start + 2 * i).unwrap();
        out.push(v);
        i = i + 1;
    }
    assert(out@.map_values(|x: u16| x as nat) =~= Seq::new(256, |k: int| le16(bytes@, start + 2 * k)->0));
    Some(out)
}

/// A 32-byte directory entry: its file type, first block, size in blocks
/// and the block offset of its package header.
#[derive(Debug, Clone, Copy, PartialEq, Eq, Structural)]
pub struct DreamcastDirEntry {
    pub file_type: u8,
    pub first_block: u16,
    pub file_size_blocks: u16,
    pub header_offset_blocks: u16,
}

/// A directory entry read: an unused one (type 0) as zeros; otherwise its
/// first block must lie on the card, its size be non-zero, and its header
/// offset within its size.
pub open spec fn dir_entry(b: Seq<u8>) -> Option<DreamcastDirEntry> {
    if b.len() != 32 {
        None
    } else if b[0] == 0 {
        Some(DreamcastDirEntry { file_type: 0, first_block: 0, file_size_blocks: 0, header_offset_blocks: 0 })
    } else {
        let first = le16(b, 0x02)->0;
        let size = le16(b, 0x18)->0;
        let hdr = le16(b, 0x1A)->0;
        if first >= 256 || size == 0 || hdr > size {
            None
        } else {
            Some(
                DreamcastDirEntry {
                    file_type: b[0],
                    first_block: first as u16,
                    file_size_blocks: size as u16,
                    header_offset_blocks: hdr as u16,
                },
            )
        }
    }
}

fn parse_dreamcast_dir_entry(bytes: &[u8]) -> (r: Option<DreamcastDirEntry>)
    ensures
        r == dir_entry(bytes@),
{
    if bytes.len() != 32 {
        return None;
    }
    let file_type = bytes[0];
    if file_type == 0 {
        return Some(DreamcastDirEntry { file_type, first_block: 0, file_size_blocks: 0, header_offset_blocks: 0 });
    }
    let first_block = le_u16(bytes, 0x02).unwrap();
    let file_size_blocks = le_u16(bytes, 0x18).unwrap();
    let header_offset_blocks = le_u16(bytes, 0x1A).unwrap();
    if first_block >= 256 || file_size_blocks == 0 || header_offset_blocks > file_size_blocks {
        return None;
    }
    Some(DreamcastDirEntry { file_type, first_block, file_size_blocks, header_offset_blocks })
}

/// Following a chain of blocks through the FAT from `current`, with the
/// blocks visited so far: it stops at `expected` blocks, at the end marker
/// `0xFFFA`, at `hard` blocks or at a block past the table; a free block
/// (`0xFFFC`), a block off the card or a block seen before fails it.
pub open spec fn fat_chain(fat: Seq<nat>, current: int, expected: int, hard: int, out: Seq<int>) -> Option<Seq<int>>
    decreases hard - out.len(),
{
    if out.len() >= hard || current < 0 || current >= fat.len() {
        if out.len() == 0 {
            None
        } else {
            Some(out)
        }
    } else if current >= 256 || out.contains(current) {
        None
    } else {
        let out2 = out.push(current);
        if out2.len() >= expected {
            Some(out2)
        } else {
            let next = fat[current];
            if next == 0xFFFA {
                Some(out2)
            } else if next == 0xFFFC {
                None
            } else {
                fat_chain(fat, next as int, expected, hard, out2)
            }
        }
    }
}

/// The blocks of a chain that starts at `start`.
pub open spec fn block_chain(fat: Seq<nat>, start: int, expected: int, hard: int) -> Option<Seq<int>> {
    if start >= fat.len() || expected == 0 {
        None
    } else {
        fat_chain(fat, start, expected, hard, seq![])
    }
}

fn collect_dreamcast_block_chain(start_block: usize, expected_blocks: usize, fat: &Vec<u16>, hard_limit: usize) -> (r: Option<Vec<usize>>)
    requires
        fat@.len() == 256,
    ensures
        match r {
            Some(v) => block_chain(fat@.map_values(|x: u16| x as nat), start_block as int, expected_blocks as int, hard_limit as int)
                == Some(v@.map_values(|x: usize| x as int)) && v@.len() <= hard_limit && (forall|k: int|
                0 <= k < v@.len() ==> v@[k] < 256),
            None => block_chain(fat@.map_values(|x: u16| x as nat), start_block as int, expected_blocks as int, hard_limit as int) is None,
        },
{
    let ghost fv = fat@.map_values(|x: u16| x as nat);
    if start_block >= fat.len() || expected_blocks == 0 {
        return None;
    }
    let mut out: Vec<usize> = Vec::new();
    let mut seen: Vec<bool> = vec![false; 256];
    let mut current: usize = start_block;
    assert(out@.map_values(|x: usize| x as int) =~= Seq::<int>::empty());
    loop
        invariant
            fat@.len() == 256,
            fv == fat@.map_values(|x: u16| x as nat),
            seen@.len() == 256,
            out@.len() <= hard_limit,
            forall|k: int| 0 <= k < out@.len() ==> out@[k] < 256,
            forall|c: int| 0 <= c < 256 ==> (seen@[c] <==> out@.map_values(|x: usize| x as int).contains(c)),
            block_chain(fv, start_block as int, expected_blocks as int, hard_limit as int)
                == fat_chain(fv, current as int, expected_blocks as int, hard_limit as int, out@.map_values(|x: usize| x as int)),
        decreases hard_limit - out@.len(),
    {
        let ghost ov = out@.map_values(|x: usize| x as int);
        if !(out.len() < hard_limit && current < fat.len()) {
            if out.len() == 0 {
                return None;
            }
            return Some(out);
        }
        if current >= 256 || seen[current] {
            return None;
        }
        seen.set(current, true);
        out.push(current);
        let ghost ov2 = out@.map_values(|x: usize| x as int);
        assert(ov2 =~= ov.push(current as int));
        assert forall|c: int| 0 <= c < 256 implies (seen@[c] <==> ov2.contains(c)) by {
            if c == current {
                assert(ov2[ov2.len() - 1] == c);
            } else {
                if ov2.contains(c) {
                    let j = choose|j: int| 0 <= j < ov2.len() && ov2[j] == c;
                    assert(j < ov.len());
                    assert(ov.contains(c));
                }
                if ov.contains(c) {
                    let j = choose|j: int| 0 <= j < ov.len() && ov[j] == c;
                    assert(ov2[j] == c);
                }
            }
        }
        if out.len() >= expected_blocks {
            return Some(out);
        }
        let next = fat[current];
        if next == 0xFFFA {
            return Some(out);
        }
        if next == 0xFFFC {
            return None;
        }
        current = next as usize;
    }
}

/// The printable ASCII of a text field read up to its first zero byte,
/// trimmed.
pub open spec fn printable_state(b: Seq<u8>) -> (Seq<char>, bool)
    decreases b.len(),
{
    if b.len() == 0 {
        (seq![], false)
    } else {
        let (out, stopped) = printable_state(b.drop_last());
        let v = b.last();
        if stopped || v == 0 {
            (out, true)
        } else if 0x20 <= v && v <= 0x7E {
            (out.push(v as char), false)
        } else {
            (out, false)
        }
    }
}

pub open spec fn printable_text(b: Seq<u8>) -> Seq<char> {
    trim(printable_state(b).0)
}

fn decode_printable_ascii(bytes: &[u8]) -> (r: String)
    ensures
        r@ == printable_text(bytes@),
{
    let mut out: Vec<char> = Vec::new();
    let mut stopped = false;
    let mut i: usize = 0;
    while i < bytes.len()
        invariant
            0 <= i <= bytes@.len(),
            (out@, stopped) == printable_state(bytes@.subrange(0, i as int)),
        decreases bytes@.len() - i,
    {
        assert(bytes@.subrange(0, i + 1).drop_last() =~= bytes@.subrange(0, i as int));
        let v = bytes[i];
        if stopped || v == 0 {
            stopped = true;
        } else if 0x20 <= v && v <= 0x7E {
            out.push(v as char);
        }
        i = i + 1;
    }
    assert(bytes@.subrange(0, bytes@.len() as int) =~= bytes@);
    string_of(trim_vec(out.as_slice()).as_slice())
}

/// A VMS package header: short description, application id, and icon
/// count (at most 16, with the icons within the data).
pub open spec fn pkg_header(b: Seq<u8>) -> Option<(Seq<char>, Seq<char>, nat)> {
    if b.len() < 0x80 {
        None
    } else {
        let icons = le16(b, 0x40)->0;
        if icons > 16 {
            None
        } else if 0x80 + icons * 512 > b.len() {
            None
        } else {
            Some((printable_text(b.subrange(0, 0x10)), printable_text(b.subrange(0x30, 0x40)), icons))
        }
    }
}

/// A VMS package header.
#[derive(Debug, Clone)]
pub struct DreamcastPkgHeader {
    pub short_desc: String,
    pub app_id: String,
    pub icon_count: u16,
}

fn parse_dreamcast_pkg_header(bytes: &[u8]) -> (r: Option<DreamcastPkgHeader>)
    ensures
        match r {
            Some(h) => pkg_header(bytes@) == Some((h.short_desc@, h.app_id@, h.icon_count as nat)),
            None => pkg_header(bytes@) is None,
        },
{
    if bytes.len() < 0x80 {
        return None;
    }
    let icon_count = le_u16(bytes, 0x40).unwrap();
    if icon_count > 16 {
        return None;
    }
    if 0x80 + (icon_count as usize) * 512 > bytes.len() {
        return None;
    }
    let short_desc = decode_printable_ascii(&bytes[0..0x10]);
    let app_id = decode_printable_ascii(&bytes[0x30..0x40]);
    Some(DreamcastPkgHeader { short_desc, app_id, icon_count })
}

/// The blocks' bytes in chain order.
pub open spec fn blocks_data(b: Seq<u8>, chain: Seq<int>) -> Seq<u8>
    decreases chain.len(),
{
    if chain.len() == 0 {
        seq![]
    } else {
        blocks_data(b, chain.drop_last()) + b.subrange(chain.last() * 512, chain.last() * 512 + 512)
    }
}

/// The data of a file on a VMU: its block chain (at most its size, all in
/// the user area below block 200), the blocks' bytes in order.
pub open spec fn file_data(b: Seq<u8>, fat: Seq<nat>, e: DreamcastDirEntry) -> Option<Seq<u8>> {
    let size = e.file_size_blocks as int;
    match block_chain(fat, e.first_block as int, size, size + 2) {
        None => None,
        Some(chain) => if chain.len() == 0 || chain.len() > size {
            None
        } else if exists|k: int| 0 <= k < chain.len() && chain[k] >= 200 {
            None
        } else {
            Some(blocks_data(b, chain))
        },
    }
}

fn collect_dreamcast_file_bytes(bytes: &[u8], fat: &Vec<u16>, entry: DreamcastDirEntry) -> (r: Option<Vec<u8>>)
    requires
        bytes@.len() == 131072,
        fat@.len() == 256,
    ensures
        match r {
            Some(v) => file_data(bytes@, fat@.map_values(|x: u16| x as nat), entry) == Some(v@),
            None => file_data(bytes@, fat@.map_values(|x: u16| x as nat), entry) is None,
        },
{
    let size = entry.file_size_blocks as usize;
    let chain = match collect_dreamcast_block_chain(entry.first_block as usize, size, fat, size + 2) {
        Some(c) => c,
        None => {
            return None;
        },
    };
    let ghost cv = chain@.map_values(|x: usize| x as int);
    if chain.len() == 0 || chain.len() > size {
        return None;
    }
    let mut out: Vec<u8> = Vec::new();
    let mut k: usize = 0;
    while k < chain.len()
        invariant
            0 <= k <= chain@.len(),
            bytes@.len() == 131072,
            cv == chain@.map_values(|x: usize| x as int),
            size == entry.file_size_blocks,
            block_chain(fat@.map_values(|x: u16| x as nat), entry.first_block as int, size as int, size + 2)
                == Some(cv),
            0 < cv.len() <= size,
            forall|j: int| 0 <= j < k ==> cv[j] < 200,
            out@ == blocks_data(bytes@, cv.subrange(0, k as int)),
        decreases chain@.len() - k,
    {
        let block = chain[k];
        if block >= 200 {
            assert(cv[k as int] >= 200);
            return None;
        }
        let start = block * 512;
        let ghost before = out@;
        let mut m: usize = 0;
        while m < 512
            invariant
                0 <= m <= 512,
                bytes@.len() == 131072,
                start < 200 * 512,
                start + 512 <= bytes@.len(),
                out@ == before + bytes@.subrange(start as int, start + m),
            decreases 512 - m,
        {
            out.push(bytes[start + m]);
            m = m + 1;
            assert(out@ =~= before + bytes@.subrange(start as int, start + m));
        }
        assert(cv.subrange(0, k + 1).drop_last() =~= cv.subrange(0, k as int));
        k = k + 1;
    }
    assert(cv.subrange(0, chain@.len() as int) =~= cv);
    assert(!exists|j: int| 0 <= j < cv.len() && cv[j] >= 200);
    Some(out)
}

/// Where a Dreamcast save's metadata was read from.
#[derive(Debug, Clone, Copy, PartialEq, Eq, Structural)]
pub enum DreamcastContainer {
    VmuBin,
    Vms,
    Dci,
}

pub open spec fn dc_container_name(c: DreamcastContainer) -> Seq<char> {
    match c {
        DreamcastContainer::VmuBin => "vmu-bin"@,
        DreamcastContainer::Vms => "vms"@,
        DreamcastContainer::Dci => "dci"@,
    }
}

impl DreamcastContainer {
    pub fn as_str(self) -> (r: &'static str)
        ensures
            r@ == dc_container_name(self),
    {
        match self {
            DreamcastContainer::VmuBin => "vmu-bin",
            DreamcastContainer::Vms => "vms",
            DreamcastContainer::Dci => "dci",
        }
    }
}

/// What a Dreamcast save holds: its saves, icon frames, and the first
/// title and application id found.
#[derive(Debug, Clone)]
pub struct DreamcastMetadata {
    pub container: DreamcastContainer,
    pub save_entries: usize,
    pub icon_frames: usize,
    pub sample_title: Option<String>,
    pub sample_app: Option<String>,
}

pub struct DcView {
    pub container: DreamcastContainer,
    pub entries: nat,
    pub icons: nat,
    pub title: Option<Seq<char>>,
    pub app: Option<Seq<char>>,
}

pub open spec fn opt_seq(o: Option<String>) -> Option<Seq<char>> {
    match o {
        Some(s) => Some(s@),
        None => None,
    }
}

impl DreamcastMetadata {
    pub open spec fn view(self) -> DcView {
        DcView {
            container: self.container,
            entries: self.save_entries as nat,
            icons: self.icon_frames as nat,
            title: opt_seq(self.sample_title),
            app: opt_seq(self.sample_app),
        }
    }
}

pub open spec fn nonempty(s: Seq<char>) -> Option<Seq<char>> {
    if s.len() > 0 {
        Some(s)
    } else {
        None
    }
}

/// The directory entry `j` of the directory blocks (sixteen to a block).
pub open spec fn dir_chunk(b: Seq<u8>, blocks: Seq<int>, j: int) -> Seq<u8> {
    let start = blocks[j / 16] * 512 + (j % 16) * 32;
    b.subrange(start, start + 32)
}

/// Going through the first `n` directory entries: saves counted, icon
/// frames added, first title and application id kept; an unreadable entry
/// or save file fails the image.
pub open spec fn vmu_scan(b: Seq<u8>, fat: Seq<nat>, blocks: Seq<int>, n: int) -> Option<(nat, nat, Option<Seq<char>>, Option<Seq<char>>)>
    decreases n,
{
    if n <= 0 {
        Some((0, 0, None, None))
    } else {
        match vmu_scan(b, fat, blocks, n - 1) {
            None => None,
            Some((entries, icons, title, app)) => match dir_entry(dir_chunk(b, blocks, n - 1)) {
                None => None,
                Some(e) => if e.file_type != 0x33 && e.file_type != 0xCC {
                    Some((entries, icons, title, app))
                } else {
                    match file_data(b, fat, e) {
                        None => None,
                        Some(fd) => {
                            let off = e.header_offset_blocks as int * 512;
                            if off >= fd.len() {
                                Some((entries + 1, icons, title, app))
                            } else {
                                match pkg_header(fd.subrange(off, fd.len() as int)) {
                                    None => Some((entries + 1, icons, title, app)),
                                    Some((short, appid, ic)) => Some(
                                        (
                                            entries + 1,
                                            icons + ic,
                                            if title is None { nonempty(short) } else { title },
                                            if app is None { nonempty(appid) } else { app },
                                        ),
                                    ),
                                }
                            }
                        },
                    }
                },
            },
        }
    }
}

pub open spec fn nvmem_magic() -> Seq<u8> {
    seq![
        0x4Bu8, 0x41u8, 0x54u8, 0x41u8, 0x4Eu8, 0x41u8, 0x5Fu8, 0x46u8, 0x4Cu8, 0x41u8, 0x53u8, 0x48u8,
        0x5Fu8, 0x5Fu8, 0x5Fu8, 0x5Fu8,
    ]
}

/// What a 128 KiB VMU image holds (not a Dreamcast flash dump).
#[verifier::opaque]
pub open spec fn vmu_image(b: Seq<u8>) -> Option<DcView> {
    if b.len() != 131072 || bytes_start_with(b, nvmem_magic()) {
        None
    } else {
        match vmu_root(b) {
            None => None,
            Some(root) => match vmu_fat(b, root) {
                None => None,
                Some(fat) => match block_chain(
                    fat,
                    root.dir_loc as int,
                    root.dir_size as int,
                    root.user_blocks as int + root.dir_size as int + root.fat_size as int + 4,
                ) {
                    None => None,
                    Some(blocks) => match vmu_scan(b, fat, blocks, (blocks.len() * 16) as int) {
                        None => None,
                        Some((entries, icons, title, app)) => Some(
                            DcView { container: DreamcastContainer::VmuBin, entries, icons, title, app },
                        ),
                    },
                },
            },
        }
    }
}

fn first_nonempty(cur: Option<String>, s: &String) -> (r: Option<String>)
    ensures
        opt_seq(r) == if opt_seq(cur) is None {
            nonempty(s@)
        } else {
            opt_seq(cur)
        },
{
    match cur {
        Some(c) => Some(c),
        None => {
            let v = chars_of(s.as_str());
            if v.len() > 0 {
                Some(s.clone())
            } else {
                None
            }
        },
    }
}

pub fn inspect_dreamcast_vmu_image(bytes: &[u8]) -> (r: Option<DreamcastMetadata>)
    ensures
        match r {
            Some(m) => vmu_image(bytes@) == Some(m.view()),
            None => vmu_image(bytes@) is None,
        },
{
    proof {
        reveal(vmu_image);
    }
    let magic: [u8; 16] = [
        0x4B, 0x41, 0x54, 0x41, 0x4E, 0x41, 0x5F, 0x46, 0x4C, 0x41, 0x53, 0x48, 0x5F, 0x5F, 0x5F, 0x5F,
    ];
    assert(magic@ =~= nvmem_magic());
    if bytes.len() != 131072 || starts_with_bytes(bytes, &magic) {
        return None;
    }
    let root = match parse_dreamcast_root(bytes) {
        Some(r) => r,
        None => {
            return None;
        },
    };
    let fat = match parse_dreamcast_fat(bytes, root) {
        Some(f) => f,
        None => {
            return None;
        },
    };
    let ghost fv = fat@.map_values(|x: u16| x as nat);
    let hard = root.user_blocks as usize + root.dir_size as usize + root.fat_size as usize + 4;
    let blocks = match collect_dreamcast_block_chain(root.dir_loc as usize, root.dir_size as usize, &fat, hard) {
        Some(b) => b,
        None => {
            return None;
        },
    };
    let ghost bv = blocks@.map_values(|x: usize| x as int);
    let total = blocks.len() * 16;
    let mut entries: usize = 0;
    let mut icons: usize = 0;
    let mut title: Option<String> = None;
    let mut app: Option<String> = None;
    let mut j: usize = 0;
    while j < total
        invariant
            0 <= j <= total,
            total == blocks@.len() * 16,
            blocks@.len() <= hard,
            hard <= 0x30000,
            bytes@.len() == 131072,
            fat@.len() == 256,
            fv == fat@.map_values(|x: u16| x as nat),
            bv == blocks@.map_values(|x: usize| x as int),
            forall|k: int| 0 <= k < blocks@.len() ==> blocks@[k] < 256,
            entries <= j,
            icons <= j * 16,
            vmu_image(bytes@) == match vmu_scan(bytes@, fv, bv, total as int) {
                None => None,
                Some((entries, icons, title, app)) => Some(
                    DcView { container: DreamcastContainer::VmuBin, entries, icons, title, app },
                ),
            },
            vmu_scan(bytes@, fv, bv, j as int) == Some(
                (entries as nat, icons as nat, opt_seq(title), opt_seq(app)),
            ),
        decreases total - j,
    {
        let block = blocks[j / 16];
        let start = block * 512 + (j % 16) * 32;
        let chunk = &bytes[start..start + 32];
        assert(chunk@ =~= dir_chunk(bytes@, bv, j as int));
        let e = match parse_dreamcast_dir_entry(chunk) {
            Some(e) => e,
            None => {
                proof {
                    lemma_vmu_scan_none_sticks(bytes@, fv, bv, j + 1, total as int);
                }
                return None;
            },
        };
        if e.file_type != 0x33 && e.file_type != 0xCC {
            j = j + 1;
            continue ;
        }
        let fd = match collect_dreamcast_file_bytes(bytes, &fat, e) {
            Some(fd) => fd,
            None => {
                proof {
                    lemma_vmu_scan_none_sticks(bytes@, fv, bv, j + 1, total as int);
                }
                return None;
            },
        };
        entries = entries + 1;
        let off = e.header_offset_blocks as usize * 512;
        if off < fd.len() {
            let n = fd.len();
            match parse_dreamcast_pkg_header(&fd[off..n]) {
                Some(h) => {
                    icons = icons + h.icon_count as usize;
                    title = first_nonempty(title, &h.short_desc);
                    app = first_nonempty(app, &h.app_id);
                },
                None => {},
            }
        }
        j = j + 1;
    }
    Some(
        DreamcastMetadata {
            container: DreamcastContainer::VmuBin,
            save_entries: entries,
            icon_frames: icons,
            sample_title: title,
            sample_app: app,
        },
    )
}

proof fn lemma_vmu_scan_none_sticks(b: Seq<u8>, fat: Seq<nat>, blocks: Seq<int>, n: int, m: int)
    requires
        n <= m,
        vmu_scan(b, fat, blocks, n) is None,
    ensures
        vmu_scan(b, fat, blocks, m) is None,
    decreases m - n,
{
    if n < m {
        lemma_vmu_scan_none_sticks(b, fat, blocks, n, m - 1);
    }
}

/// A lone VMS file: one save, with its package header.
pub open spec fn vms_payload(b: Seq<u8>) -> Option<DcView> {
    match pkg_header(b) {
        None => None,
        Some((short, app, icons)) => Some(
            DcView { container: DreamcastContainer::Vms, entries: 1, icons, title: nonempty(short), app: nonempty(app) },
        ),
    }
}

pub fn inspect_dreamcast_vms_payload(bytes: &[u8]) -> (r: Option<DreamcastMetadata>)
    ensures
        match r {
            Some(m) => vms_payload(bytes@) == Some(m.view()),
            None => vms_payload(bytes@) is None,
        },
{
    let h = match parse_dreamcast_pkg_header(bytes) {
        Some(h) => h,
        None => {
            return None;
        },
    };
    let title = first_nonempty(None, &h.short_desc);
    let app = first_nonempty(None, &h.app_id);
    Some(
        DreamcastMetadata {
            container: DreamcastContainer::Vms,
            save_entries: 1,
            icon_frames: h.icon_count as usize,
            sample_title: title,
            sample_app: app,
        },
    )
}

/// The file data of a DCI dump: its blocks after the 32-byte header, each
/// 4-byte word byte-reversed.
pub open spec fn dci_data(b: Seq<u8>, blocks: int) -> Seq<u8> {
    Seq::new((blocks * 512) as nat, |i: int| b[32 + (i / 4) * 4 + 3 - i % 4])
}

proof fn lemma_dci_index(i: int, n: int)
    requires
        0 <= i < n,
        n % 4 == 0,
    ensures
        0 <= (i / 4) * 4 + 3 - i % 4 < n,
{
    assert(0 <= (i / 4) * 4 + 3 - i % 4 < n) by (nonlinear_arith)
        requires
            0 <= i < n,
            n % 4 == 0,
    ;
}

/// A DCI dump: a directory entry of a save or game file, its blocks, and a
/// package header in them.
#[verifier::opaque]
pub open spec fn dci_payload(b: Seq<u8>) -> Option<DcView> {
    if b.len() < 32 + 512 {
        None
    } else {
        match dir_entry(b.subrange(0, 32)) {
            None => None,
            Some(e) => if e.file_type != 0x33 && e.file_type != 0xCC {
                None
            } else {
                let fb = e.file_size_blocks as int;
                if fb == 0 || b.len() < 32 + fb * 512 {
                    None
                } else {
                    let data = dci_data(b, fb);
                    let off = e.header_offset_blocks as int * 512;
                    if off >= data.len() {
                        None
                    } else {
                        match pkg_header(data.subrange(off, data.len() as int)) {
                            None => None,
                            Some((short, app, icons)) => Some(
                                DcView {
                                    container: DreamcastContainer::Dci,
                                    entries: 1,
                                    icons,
                                    title: nonempty(short),
                                    app: nonempty(app),
                                },
                            ),
                        }
                    }
                }
            },
        }
    }
}

pub fn inspect_dreamcast_dci_payload(bytes: &[u8]) -> (r: Option<DreamcastMetadata>)
    ensures
        match r {
            Some(m) => dci_payload(bytes@) == Some(m.view()),
            None => dci_payload(bytes@) is None,
        },
{
    proof {
        reveal(dci_payload);
    }
    if bytes.len() < 32 + 512 {
        return None;
    }
    let e = match parse_dreamcast_dir_entry(&bytes[0..32]) {
        Some(e) => e,
        None => {
            return None;
        },
    };
    if e.file_type != 0x33 && e.file_type != 0xCC {
        return None;
    }
    let fb = e.file_size_blocks as usize;
    if fb == 0 {
        return None;
    }
    let expected = 32 + fb * 512;
    if bytes.len() < expected {
        return None;
    }
    let n = fb * 512;
    let mut data: Vec<u8> = Vec::new();
    let mut i: usize = 0;
    assert(n % 4 == 0) by (nonlinear_arith)
        requires
            n == fb * 512,
    ;
    assert(dci_data(bytes@, fb as int).len() == n);
    while i < n
        invariant
            0 <= i <= n,
            n % 4 == 0,
            dci_data(bytes@, fb as int).len() == n,
            32 + n <= bytes@.len(),
            data@ == dci_data(bytes@, fb as int).subrange(0, i as int),
        decreases n - i,
    {
        proof {
            lemma_dci_index(i as int, n as int);
        }
        let idx = 32 + (i / 4) * 4 + 3 - i % 4;
        data.push(bytes[idx]);
        i = i + 1;
        assert(data@ =~= dci_data(bytes@, fb as int).subrange(0, i as int));
    }
    assert(dci_data(bytes@, fb as int).subrange(0, n as int) =~= dci_data(bytes@, fb as int));
    let off = e.header_offset_blocks as usize * 512;
    if off >= data.len() {
        return None;
    }
    let h = match parse_dreamcast_pkg_header(&data[off..n]) {
        Some(h) => h,
        None => {
            return None;
        },
    };
    let title = first_nonempty(None, &h.short_desc);
    let app = first_nonempty(None, &h.app_id);
    Some(
        DreamcastMetadata {
            container: DreamcastContainer::Dci,
            save_entries: 1,
            icon_frames: h.icon_count as usize,
            sample_title: title,
            sample_app: app,
        },
    )
}

/// What a Dreamcast save file holds, read by its extension.
pub open spec fn dreamcast_meta(e: Seq<char>, b: Seq<u8>) -> Option<DcView> {
    if e == "bin"@ {
        vmu_image(b)
    } else if e == "vms"@ {
        vms_payload(b)
    } else if e == "dci"@ {
        dci_payload(b)
    } else {
        None
    }
}

pub fn inspect_dreamcast_metadata(ext: &[char], bytes: &[u8]) -> (r: Option<DreamcastMetadata>)
    ensures
        match r {
            Some(m) => dreamcast_meta(ext@, bytes@) == Some(m.view()),
            None => dreamcast_meta(ext@, bytes@) is None,
        },
{
    if eq_lit(ext, "bin") {
        inspect_dreamcast_vmu_image(bytes)
    } else if eq_lit(ext, "vms") {
        inspect_dreamcast_vms_payload(bytes)
    } else if eq_lit(ext, "dci") {
        inspect_dreamcast_dci_payload(bytes)
    } else {
        None
    }
}

// ---------------------------------------------------------------------------
// Wii `data.bin` backups
// ---------------------------------------------------------------------------

pub open spec fn is_printable_byte(v: u8) -> bool {
    0x20 <= v && v <= 0x7E
}

pub open spec fn ascii_text(s: Seq<u8>) -> Seq<char> {
    s.map_values(|v: u8| v as char)
}

/// A run of printable bytes kept as a candidate name when it is at least
/// three characters after trimming, holds a `.` or `/`, and is longer than
/// the best so far.
pub open spec fn name_flush(h: Seq<u8>, best: Seq<char>, st: int, end: int) -> Seq<char> {
    if st < 0 || end <= st {
        best
    } else {
        let c = trim(ascii_text(h.subrange(st, end)));
        if c.len() < 3 || (!c.contains('.') && !c.contains('/')) {
            best
        } else if c.len() > best.len() {
            c
        } else {
            best
        }
    }
}

/// Scanning the first `n` header bytes: the best name so far and where the
/// current printable run started (-1 outside a run).
pub open spec fn name_state(h: Seq<u8>, n: int) -> (Seq<char>, int)
    decreases n,
{
    if n <= 0 {
        (seq![], -1)
    } else {
        let (best, st) = name_state(h, n - 1);
        if is_printable_byte(h[n - 1]) {
            (best, if st < 0 { n - 1 } else { st })
        } else {
            (name_flush(h, best, st, n - 1), -1)
        }
    }
}

/// The longest file-name-like printable run of a file header.
pub open spec fn embedded_name(h: Seq<u8>) -> Option<Seq<char>> {
    let (best, st) = name_state(h, h.len() as int);
    let b = name_flush(h, best, st, h.len() as int);
    if b.len() == 0 {
        None
    } else {
        Some(b)
    }
}

proof fn lemma_name_state_start(h: Seq<u8>, n: int)
    requires
        0 <= n <= h.len(),
    ensures
        name_state(h, n).1 < n,
        name_state(h, n).1 >= -1,
    decreases n,
{
    if n > 0 {
        lemma_name_state_start(h, n - 1);
    }
}

fn flush_name(h: &[u8], best: Vec<char>, st: Option<usize>, end: usize) -> (r: Vec<char>)
    requires
        end <= h@.len(),
        st matches Some(s) ==> s < end,
    ensures
        r@ == name_flush(h@, best@, match st { Some(s) => s as int, None => -1 }, end as int),
{
    let s = match st {
        None => {
            return best;
        },
        Some(s) => s,
    };
    let mut run: Vec<char> = Vec::new();
    let mut i: usize = s;
    while i < end
        invariant
            s <= i <= end,
            end <= h@.len(),
            run@ == ascii_text(h@.subrange(s as int, i as int)),
        decreases end - i,
    {
        run.push(h[i] as char);
        i = i + 1;
        assert(run@ =~= ascii_text(h@.subrange(s as int, i as int)));
    }
    let c = trim_vec(run.as_slice());
    let has_dot = match find_char_in(c.as_slice(), '.') {
        true => true,
        false => false,
    };
    let has_slash = find_char_in(c.as_slice(), '/');
    if c.len() < 3 || (!has_dot && !has_slash) {
        return best;
    }
    if c.len() > best.len() {
        c
    } else {
        best
    }
}

fn find_char_in(v: &[char], c: char) -> (r: bool)
    ensures
        r == v@.contains(c),
{
    let mut i: usize = 0;
    while i < v.len()
        invariant
            0 <= i <= v@.len(),
            forall|k: int| 0 <= k < i ==> v@[k] != c,
        decreases v@.len() - i,
    {
        if v[i] == c {
            return true;
        }
        i = i + 1;
    }
    false
}

pub fn extract_wii_embedded_file_name(header: &[u8]) -> (r: Option<String>)
    ensures
        match r {
            Some(n) => embedded_name(header@) == Some(n@),
            None => embedded_name(header@) is None,
        },
{
    let mut best: Vec<char> = Vec::new();
    let mut start: Option<usize> = None;
    let mut i: usize = 0;
    while i < header.len()
        invariant
            0 <= i <= header@.len(),
            start matches Some(s) ==> s < i,
            (best@, match start { Some(s) => s as int, None => -1 }) == name_state(header@, i as int),
        decreases header@.len() - i,
    {
        if 0x20 <= header[i] && header[i] <= 0x7E {
            if start.is_none() {
                start = Some(i);
            }
        } else {
            best = flush_name(header, best, start, i);
            start = None;
        }
        i = i + 1;
    }
    let b = flush_name(header, best, start, header.len());
    if b.len() == 0 {
        None
    } else {
        Some(string_of(b.as_slice()))
    }
}

/// Whether the bytes hold `p` somewhere.
pub open spec fn bytes_contain(b: Seq<u8>, p: Seq<u8>) -> bool {
    exists|i: int| 0 <= i && i + p.len() <= b.len() && #[trigger] b.subrange(i, i + p.len()) == p
}

fn contains_bytes(b: &[u8], p: &[u8]) -> (r: bool)
    requires
        p@.len() > 0,
    ensures
        r == bytes_contain(b@, p@),
{
    if p.len() > b.len() {
        return false;
    }
    let last = b.len() - p.len();
    let mut i: usize = 0;
    loop
        invariant
            p@.len() <= b@.len(),
            b@.len() == b.len(),
            last == b@.len() - p@.len(),
            0 <= i <= last,
            forall|j: int| 0 <= j < i ==> #[trigger] b@.subrange(j, j + p@.len()) != p@,
        ensures
            forall|j: int| 0 <= j <= last ==> #[trigger] b@.subrange(j, j + p@.len()) != p@,
        decreases last - i,
    {
        let w = &b[i..i + p.len()];
        if starts_with_bytes(w, p) {
            assert(w@.subrange(0, p@.len() as int) =~= w@);
            assert(b@.subrange(i as int, i + p@.len()) == p@);
            return true;
        }
        assert(w@.subrange(0, p@.len() as int) =~= w@);
        if i == last {
            break ;
        }
        i = i + 1;
    }
    assert(!bytes_contain(b@, p@)) by {
        if bytes_contain(b@, p@) {
            let j = choose|j: int| 0 <= j && j + p@.len() <= b@.len() && #[trigger] b@.subrange(j, j + p@.len()) == p@;
            assert(j <= last);
        }
    }
    false
}

/// What a Wii `data.bin` backup holds.
#[derive(Debug, Clone)]
pub struct WiiMetadata {
    pub title_code: Option<String>,
    pub file_count: u32,
    pub declared_data_size: u32,
    pub embedded_file_name: Option<String>,
    pub embedded_file_size: u32,
    pub certificate_present: bool,
}

pub struct WiiView {
    pub title_code: Option<Seq<char>>,
    pub file_count: nat,
    pub declared_data_size: nat,
    pub embedded_file_name: Option<Seq<char>>,
    pub embedded_file_size: nat,
    pub certificate_present: bool,
}

impl WiiMetadata {
    pub open spec fn view(self) -> WiiView {
        WiiView {
            title_code: opt_seq(self.title_code),
            file_count: self.file_count as nat,
            declared_data_size: self.declared_data_size as nat,
            embedded_file_name: opt_seq(self.embedded_file_name),
            embedded_file_size: self.embedded_file_size as nat,
            certificate_present: self.certificate_present,
        }
    }
}

pub open spec fn bk_magic() -> Seq<u8> {
    seq![0x42u8, 0x6Bu8, 0x00u8, 0x01u8]
}

pub open spec fn root_ca() -> Seq<u8> {
    seq![0x52u8, 0x6Fu8, 0x6Fu8, 0x74u8, 0x2Du8, 0x43u8, 0x41u8]
}

pub open spec fn ap000() -> Seq<u8> {
    seq![0x41u8, 0x50u8, 0x30u8, 0x30u8, 0x30u8]
}

/// A Wii save backup: not blank, a `Bk` backup header of size `0x70` that
/// declares 1 to 64 files and a data size within the file, then a file
/// header with its magic and a size within the file.
#[verifier::opaque]
pub open spec fn wii_data_bin(b: Seq<u8>, title: Option<Seq<char>>) -> Option<WiiView> {
    if b.len() < 0xF1C0 {
        None
    } else if all_bytes(b, 0) || all_bytes(b, 0xFF) {
        None
    } else if b.subrange(0xF0C4, 0xF0C8) != bk_magic() {
        None
    } else if be32(b, 0xF0C0)->0 != 0x70 {
        None
    } else {
        let files = be32(b, 0xF0CC)->0;
        let declared = be32(b, 0xF0D0)->0;
        let magic = be32(b, 0xF140)->0;
        let emb = be32(b, 0xF144)->0;
        if files == 0 || files > 64 {
            None
        } else if declared == 0 || declared > b.len() {
            None
        } else if magic != 0x03ADF17E {
            None
        } else if emb == 0 || emb > b.len() {
            None
        } else {
            Some(
                WiiView {
                    title_code: title,
                    file_count: files,
                    declared_data_size: declared,
                    embedded_file_name: embedded_name(b.subrange(0xF140, 0xF1C0)),
                    embedded_file_size: emb,
                    certificate_present: bytes_contain(b, root_ca()) || bytes_contain(b, ap000()),
                },
            )
        }
    }
}

pub fn parse_wii_data_bin(bytes: &[u8], title_code: Option<String>) -> (r: Option<WiiMetadata>)
    ensures
        match r {
            Some(m) => wii_data_bin(bytes@, opt_seq(title_code)) == Some(m.view()),
            None => wii_data_bin(bytes@, opt_seq(title_code)) is None,
        },
{
    proof {
        reveal(wii_data_bin);
    }
    if bytes.len() < 0xF1C0 {
        return None;
    }
    if all_bytes_are(bytes, 0) || all_bytes_are(bytes, 0xFF) {
        return None;
    }
    let bk: [u8; 4] = [0x42, 0x6B, 0x00, 0x01];
    assert(bk@ =~= bk_magic());
    if !bytes_equal(&bytes[0xF0C4..0xF0C8], &bk) {
        return None;
    }
    if be_u32(bytes, 0xF0C0).unwrap() != 0x70 {
        return None;
    }
    let file_count = be_u32(bytes, 0xF0CC).unwrap();
    if file_count == 0 || file_count > 64 {
        return None;
    }
    let declared = be_u32(bytes, 0xF0D0).unwrap();
    if declared == 0 || declared as usize > bytes.len() {
        return None;
    }
    if be_u32(bytes, 0xF140).unwrap() != 0x03ADF17E {
        return None;
    }
    let emb = be_u32(bytes, 0xF144).unwrap();
    if emb == 0 || emb as usize > bytes.len() {
        return None;
    }
    let rc: [u8; 7] = [0x52, 0x6F, 0x6F, 0x74, 0x2D, 0x43, 0x41];
    let ap: [u8; 5] = [0x41, 0x50, 0x30, 0x30, 0x30];
    assert(rc@ =~= root_ca());
    assert(ap@ =~= ap000());
    let cert = contains_bytes(bytes, &rc) || contains_bytes(bytes, &ap);
    let name = extract_wii_embedded_file_name(&bytes[0xF140..0xF1C0]);
    Some(
        WiiMetadata {
            title_code,
            file_count,
            declared_data_size: declared,
            embedded_file_name: name,
            embedded_file_size: emb,
            certificate_present: cert,
        },
    )
}

// ---------------------------------------------------------------------------
// Classification
// ---------------------------------------------------------------------------

pub open spec fn nintendo_hints() -> Seq<&'static str> {
    seq![
        "game boy color",
        "gameboy color",
        "/gbc/",
        "\\gbc\\",
        "nintendo ds",
        "/nds/",
        "\\nds\\",
        "nintendo 64",
        "/n64/",
        "\\n64\\",
        "super nintendo",
        "/snes/",
        "\\snes\\",
        "/sfc/",
        "\\sfc\\",
        "famicom",
        "/nes/",
        "\\nes\\",
        "game boy",
        "gameboy",
        "/gb/",
        "\\gb\\",
        "nintendo wii",
        "/wii/",
        "\\wii\\",
        "rvl",
        "melonds",
        "desmume",
        "ryujinx",
        "citra",
        "yuzu",
        "suyu",
        "dolphin",
        "mgba",
        "visualboyadvance",
        "vba",
        "bsnes",
        "snes9x",
        "fceux",
        "nestopia",
        "nintendo",
    ]
}

pub open spec fn sega_hints() -> Seq<&'static str> {
    seq![
        "master system",
        "/sms/",
        "\\sms\\",
        "game gear",
        "/gg/",
        "\\gg\\",
        "sega 32x",
        "sega-32x",
        "sega32x",
        "/32x/",
        "\\32x\\",
        "mega cd",
        "mega-cd",
        "megacd",
        "sega cd",
        "sega-cd",
        "segacd",
        "/megacd/",
        "\\megacd\\",
        "/mega-cd/",
        "\\mega-cd\\",
        "/segacd/",
        "\\segacd\\",
        "/sega-cd/",
        "\\sega-cd\\",
        "genesis",
        "mega drive",
        "megadrive",
        "/md/",
        "\\md\\",
        "/gen/",
        "\\gen\\",
        "saturn",
        "dreamcast",
        "sega",
    ]
}

pub open spec fn neogeo_hints() -> Seq<&'static str> {
    seq!["neo geo", "neogeo", "neo-geo", "/mvs/", "\\mvs\\", "/aes/", "\\aes\\"]
}

pub open spec fn sony_hints() -> Seq<&'static str> {
    seq![
        "playstation",
        "sony",
        "/psx/",
        "\\psx\\",
        "/ps1/",
        "\\ps1\\",
        "/ps2/",
        "\\ps2\\",
        "/psp/",
        "\\psp\\",
        "/ps3/",
        "\\ps3\\",
        "/psvita/",
        "\\psvita\\",
        "/vita/",
        "\\vita\\",
        "/ps4/",
        "\\ps4\\",
        "/ps5/",
        "\\ps5\\",
        "duckstation",
        "pcsx",
        "epsxe",
        "mednafen-psx",
        "beetle psx",
        "pcsx2",
        "ppsspp",
        "rpcs3",
        "vita3k",
    ]
}

/// A PlayStation save in its container: DexDrive, VMP, or a raw card.
pub open spec fn psx_container_ok(e: Seq<char>, b: Seq<u8>) -> bool {
    if e == "gme"@ {
        dexdrive_payload(b) is Some
    } else if e == "vmp"@ {
        vmp_payload(b) is Some
    } else {
        ps1_memcard(b)
    }
}

/// The Wii metadata of a save at a path.
pub open spec fn wii_meta(path: Seq<char>, b: Seq<u8>) -> Option<WiiView> {
    wii_data_bin(b, wii_code_of_path(path))
}

/// The structural check a save of each console must pass: no executable or
/// archive; N64 media of the right size and not blank; a Dreamcast or
/// Saturn image holding at least one save; a Neo Geo save not blank; a Wii
/// backup that reads; a PlayStation card in a valid container; a PS2 card
/// with its magic.
pub open spec fn passes_validation(path: Seq<char>, e: Seq<char>, b: Seq<u8>, slug: Seq<char>) -> bool {
    if executable_or_archive(b) {
        false
    } else if slug == "n64"@ {
        n64_media_ok(e, b.len() as u64, b)
    } else if slug == "dreamcast"@ {
        match dreamcast_meta(e, b) {
            Some(m) => m.entries > 0,
            None => false,
        }
    } else if slug == "saturn"@ {
        match saturn_image(b) {
            Some(m) => m.1 > 0,
            None => false,
        }
    } else if slug == "neogeo"@ {
        non_blank(b)
    } else if slug == "wii"@ {
        wii_meta(path, b) is Some
    } else if slug == "psx"@ {
        psx_container_ok(e, b)
    } else if slug == "ps2"@ {
        bytes_start_with(b, ps2_magic())
    } else {
        true
    }
}

pub open spec fn dash_or(o: Option<Seq<char>>) -> Seq<char> {
    match o {
        Some(s) => s,
        None => "-"@,
    }
}

/// The evidence of a classification: where the console came from, and the
/// extension and size.
pub open spec fn evidence_text(prefix: Seq<char>, e: Seq<char>, size: nat) -> Seq<char> {
    prefix + "."@ + e + " ("@ + crate::num::decimal_text(size) + " bytes)"@
}

pub open spec fn dc_detail(m: DcView) -> Seq<char> {
    " ["@ + dc_container_name(m.container) + " entries="@ + crate::num::decimal_text(m.entries)
        + " icons="@ + crate::num::decimal_text(m.icons) + " title="@ + dash_or(m.title) + " app="@
        + dash_or(m.app) + "]"@
}

pub open spec fn sat_detail(m: (SaturnFormat, nat, bool, bool)) -> Seq<char> {
    " ["@ + saturn_format_name(m.0) + " entries="@ + crate::num::decimal_text(m.1) + " internal="@
        + crate::text::bool_text(m.2) + " cartridge="@ + crate::text::bool_text(m.3) + "]"@
}

pub open spec fn wii_detail(m: WiiView) -> Seq<char> {
    " [wii-data-bin titleCode="@ + dash_or(m.title_code) + " files="@ + crate::num::decimal_text(
        m.file_count,
    ) + " declared="@ + crate::num::decimal_text(m.declared_data_size) + " embedded="@ + dash_or(
        m.embedded_file_name,
    ) + " embeddedSize="@ + crate::num::decimal_text(m.embedded_file_size) + " certificate="@
        + crate::text::bool_text(m.certificate_present) + "]"@
}

/// What the evidence adds of a Dreamcast, Saturn or Wii save's contents.
pub open spec fn evidence_detail(path: Seq<char>, e: Seq<char>, b: Seq<u8>, slug: Seq<char>) -> Seq<char> {
    if slug == "dreamcast"@ && dreamcast_meta(e, b) is Some {
        dc_detail(dreamcast_meta(e, b)->0)
    } else if slug == "saturn"@ && saturn_image(b) is Some {
        sat_detail(saturn_image(b)->0)
    } else if slug == "wii"@ && wii_meta(path, b) is Some {
        wii_detail(wii_meta(path, b)->0)
    } else {
        seq![]
    }
}

/// A classification as `slug` when the save passes that console's check.
pub open spec fn classified(
    path: Seq<char>,
    e: Seq<char>,
    b: Seq<u8>,
    slug: Seq<char>,
    prefix: Seq<char>,
) -> Option<(Seq<char>, Seq<char>)> {
    if passes_validation(path, e, b, slug) {
        Some((slug, evidence_text(prefix, e, b.len()) + evidence_detail(path, e, b, slug)))
    } else {
        None
    }
}

/// The console a save file belongs to, with the evidence: a Wii backup by
/// its header; else by the ROM's extension; else by the first family of
/// path hints that matches (Game Boy Advance, Nintendo, Sega, Neo Geo,
/// Sony), the path deciding the family even where the size does not fit;
/// else by the save extension alone. A file too large, empty, textual, or
/// without an extension is no save. Each console's structural check must
/// pass.
pub open spec fn classification(path: Seq<char>, rom: Option<Seq<char>>, b: Seq<u8>) -> Option<(Seq<char>, Seq<char>)> {
    match lower_ext(path) {
        None => None,
        Some(e) => {
            let size = b.len() as u64;
            let l = lower(path);
            let rom_slug = match rom {
                Some(r) => match lower_ext(r) {
                    Some(re) => rom_extension_system(re),
                    None => None,
                },
                None => None,
            };
            if !(0 < b.len() <= max_save_bytes()) || plain_text(b) {
                None
            } else if e == "bin"@ && plausible_for(e, size, "wii"@) && wii_meta(path, b) is Some {
                classified(path, e, b, "wii"@, "wii data.bin backup header + "@)
            } else if rom_slug is Some && plausible_for(e, size, rom_slug->0) {
                classified(path, e, b, rom_slug->0, "rom-extension + "@)
            } else if mentions_any(l, gba_hints()) {
                if plausible_for(e, size, "gba"@) {
                    classified(path, e, b, "gba"@, "path hint gba + "@)
                } else {
                    None
                }
            } else if mentions_any(l, nintendo_hints()) {
                if plausible_for(e, size, nintendo_slug(l)) {
                    classified(path, e, b, nintendo_slug(l), "path hint nintendo + "@)
                } else {
                    None
                }
            } else if mentions_any(l, sega_hints()) {
                if plausible_for(e, size, sega_slug(l)) {
                    classified(path, e, b, sega_slug(l), "path hint sega + "@)
                } else {
                    None
                }
            } else if mentions_any(l, neogeo_hints()) {
                if plausible_for(e, size, "neogeo"@) {
                    classified(path, e, b, "neogeo"@, "path hint neogeo + "@)
                } else {
                    None
                }
            } else if mentions_any(l, sony_hints()) {
                if plausible_for(e, size, sony_slug(l)) {
                    classified(path, e, b, sony_slug(l), "path hint sony + "@)
                } else {
                    None
                }
            } else if save_extension_system(e) is Some && plausible_for(e, size, save_extension_system(e)->0) {
                classified(path, e, b, save_extension_system(e)->0, "save extension "@)
            } else {
                None
            }
        },
    }
}

fn validate_psx_container(ext: &[char], bytes: &[u8]) -> (r: bool)
    ensures
        r == psx_container_ok(ext@, bytes@),
{
    if eq_lit(ext, "gme") {
        decode_ps1_dexdrive(bytes).is_some()
    } else if eq_lit(ext, "vmp") {
        decode_ps1_vmp(bytes).is_some()
    } else {
        validate_ps1_raw_memcard(bytes)
    }
}

/// Reads the Wii metadata of a save at a path.
pub fn inspect_wii_metadata(path: &str, bytes: &[u8]) -> (r: Option<WiiMetadata>)
    ensures
        match r {
            Some(m) => wii_meta(path@, bytes@) == Some(m.view()),
            None => wii_meta(path@, bytes@) is None,
        },
{
    let code = wii_title_code_from_path(path);
    parse_wii_data_bin(bytes, code)
}

pub fn passes_binary_validation(save_path: &str, save_ext: &[char], bytes: &[u8], slug: &str) -> (r: bool)
    ensures
        r == passes_validation(save_path@, save_ext@, bytes@, slug@),
{
    if looks_like_executable_or_archive(bytes) {
        return false;
    }
    let s = chars_of(slug);
    let s = s.as_slice();
    if eq_lit(s, "n64") {
        validate_n64_save_media(save_ext, bytes.len() as u64, bytes)
    } else if eq_lit(s, "dreamcast") {
        match inspect_dreamcast_metadata(save_ext, bytes) {
            Some(m) => m.save_entries > 0,
            None => false,
        }
    } else if eq_lit(s, "saturn") {
        match inspect_saturn_bytes(bytes) {
            Some(m) => m.save_entries > 0,
            None => false,
        }
    } else if eq_lit(s, "neogeo") {
        validate_non_blank_payload(bytes)
    } else if eq_lit(s, "wii") {
        inspect_wii_metadata(save_path, bytes).is_some()
    } else if eq_lit(s, "psx") {
        validate_psx_container(save_ext, bytes)
    } else if eq_lit(s, "ps2") {
        validate_ps2_memory_card_image(bytes)
    } else {
        true
    }
}

fn dash_text(o: &Option<String>) -> (r: String)
    ensures
        r@ == dash_or(opt_seq(*o)),
{
    match o {
        Some(s) => s.clone(),
        None => owned("-"),
    }
}

fn num_text(n: u64) -> (r: String)
    ensures
        r@ == crate::num::decimal_text(n as nat),
{
    crate::num::u64_text(n)
}

fn dc_detail_exec(m: &DreamcastMetadata) -> (r: String)
    ensures
        r@ == dc_detail(m.view()),
{
    let mut r = owned(" [");
    r.append(m.container.as_str());
    r.append(" entries=");
    r.append(num_text(m.save_entries as u64).as_str());
    r.append(" icons=");
    r.append(num_text(m.icon_frames as u64).as_str());
    r.append(" title=");
    r.append(dash_text(&m.sample_title).as_str());
    r.append(" app=");
    r.append(dash_text(&m.sample_app).as_str());
    r.append("]");
    r
}

fn sat_detail_exec(m: &SaturnMetadata) -> (r: String)
    ensures
        r@ == sat_detail(saturn_view(*m)),
{
    let mut r = owned(" [");
    r.append(m.format.as_str());
    r.append(" entries=");
    r.append(num_text(m.save_entries as u64).as_str());
    r.append(" internal=");
    r.append(crate::text::bool_str(m.has_internal));
    r.append(" cartridge=");
    r.append(crate::text::bool_str(m.has_cartridge));
    r.append("]");
    r
}

fn wii_detail_exec(m: &WiiMetadata) -> (r: String)
    ensures
        r@ == wii_detail(m.view()),
{
    let mut r = owned(" [wii-data-bin titleCode=");
    r.append(dash_text(&m.title_code).as_str());
    r.append(" files=");
    r.append(num_text(m.file_count as u64).as_str());
    r.append(" declared=");
    r.append(num_text(m.declared_data_size as u64).as_str());
    r.append(" embedded=");
    r.append(dash_text(&m.embedded_file_name).as_str());
    r.append(" embeddedSize=");
    r.append(num_text(m.embedded_file_size as u64).as_str());
    r.append(" certificate=");
    r.append(crate::text::bool_str(m.certificate_present));
    r.append("]");
    r
}

fn evidence_detail_exec(save_path: &str, save_ext: &[char], bytes: &[u8], slug: &str) -> (r: String)
    ensures
        r@ == evidence_detail(save_path@, save_ext@, bytes@, slug@),
{
    let s = chars_of(slug);
    let s = s.as_slice();
    proof {
        reveal_strlit("dreamcast");
        reveal_strlit("saturn");
        reveal_strlit("wii");
    }
    let empty = String::new();
    assert(empty@ =~= Seq::<char>::empty());
    if eq_lit(s, "dreamcast") {
        assert(s@ == slug@);
        assert(slug@ == "dreamcast"@);
        assert("dreamcast"@.len() == 9);
        assert("saturn"@.len() == 6);
        assert(slug@ != "saturn"@ && slug@ != "wii"@);
        match inspect_dreamcast_metadata(save_ext, bytes) {
            Some(m) => dc_detail_exec(&m),
            None => empty,
        }
    } else if eq_lit(s, "saturn") {
        assert(s@ == slug@);
        assert(slug@ == "saturn"@);
        assert("saturn"@.len() == 6);
        assert("wii"@.len() == 3);
        match inspect_saturn_bytes(bytes) {
            Some(m) => sat_detail_exec(&m),
            None => empty,
        }
    } else if eq_lit(s, "wii") {
        match inspect_wii_metadata(save_path, bytes) {
            Some(m) => wii_detail_exec(&m),
            None => empty,
        }
    } else {
        empty
    }
}

fn classify_if_valid(save_path: &str, save_ext: &[char], bytes: &[u8], slug: &str, prefix: &str) -> (r: Option<SaveClassification>)
    ensures
        match r {
            Some(c) => classified(save_path@, save_ext@, bytes@, slug@, prefix@) == Some((c.system_slug@, c.evidence@)),
            None => classified(save_path@, save_ext@, bytes@, slug@, prefix@) is None,
        },
{
    if !passes_binary_validation(save_path, save_ext, bytes, slug) {
        return None;
    }
    let mut ev = owned(prefix);
    ev.append(".");
    ev.append(string_of(save_ext).as_str());
    ev.append(" (");
    ev.append(num_text(bytes.len() as u64).as_str());
    ev.append(" bytes)");
    ev.append(evidence_detail_exec(save_path, save_ext, bytes, slug).as_str());
    Some(SaveClassification { system_slug: owned(slug), evidence: ev })
}

fn nintendo_hint_list() -> (r: Vec<&'static str>)
    ensures
        r@ == nintendo_hints(),
{
    let v: Vec<&'static str> = vec![
        "game boy color",
        "gameboy color",
        "/gbc/",
        "\\gbc\\",
        "nintendo ds",
        "/nds/",
        "\\nds\\",
        "nintendo 64",
        "/n64/",
        "\\n64\\",
        "super nintendo",
        "/snes/",
        "\\snes\\",
        "/sfc/",
        "\\sfc\\",
        "famicom",
        "/nes/",
        "\\nes\\",
        "game boy",
        "gameboy",
        "/gb/",
        "\\gb\\",
        "nintendo wii",
        "/wii/",
        "\\wii\\",
        "rvl",
        "melonds",
        "desmume",
        "ryujinx",
        "citra",
        "yuzu",
        "suyu",
        "dolphin",
        "mgba",
        "visualboyadvance",
        "vba",
        "bsnes",
        "snes9x",
        "fceux",
        "nestopia",
        "nintendo",
    ];
    assert(v@ =~= nintendo_hints());
    v
}

fn sega_hint_list() -> (r: Vec<&'static str>)
    ensures
        r@ == sega_hints(),
{
    let v: Vec<&'static str> = vec![
        "master system",
        "/sms/",
        "\\sms\\",
        "game gear",
        "/gg/",
        "\\gg\\",
        "sega 32x",
        "sega-32x",
        "sega32x",
        "/32x/",
        "\\32x\\",
        "mega cd",
        "mega-cd",
        "megacd",
        "sega cd",
        "sega-cd",
        "segacd",
        "/megacd/",
        "\\megacd\\",
        "/mega-cd/",
        "\\mega-cd\\",
        "/segacd/",
        "\\segacd\\",
        "/sega-cd/",
        "\\sega-cd\\",
        "genesis",
        "mega drive",
        "megadrive",
        "/md/",
        "\\md\\",
        "/gen/",
        "\\gen\\",
        "saturn",
        "dreamcast",
        "sega",
    ];
    assert(v@ =~= sega_hints());
    v
}

fn sony_hint_list() -> (r: Vec<&'static str>)
    ensures
        r@ == sony_hints(),
{
    let v: Vec<&'static str> = vec![
        "playstation",
        "sony",
        "/psx/",
        "\\psx\\",
        "/ps1/",
        "\\ps1\\",
        "/ps2/",
        "\\ps2\\",
        "/psp/",
        "\\psp\\",
        "/ps3/",
        "\\ps3\\",
        "/psvita/",
        "\\psvita\\",
        "/vita/",
        "\\vita\\",
        "/ps4/",
        "\\ps4\\",
        "/ps5/",
        "\\ps5\\",
        "duckstation",
        "pcsx",
        "epsxe",
        "mednafen-psx",
        "beetle psx",
        "pcsx2",
        "ppsspp",
        "rpcs3",
        "vita3k",
    ];
    assert(v@ =~= sony_hints());
    v
}

/// The console a save file belongs to, with the evidence for it; see
/// `classification` for the rules.
#[verifier::rlimit(40)]
pub fn classify_supported_save(save_path: &str, rom_path: Option<&str>, bytes: &[u8]) -> (r: Option<SaveClassification>)
    ensures
        match r {
            Some(c) => classification(save_path@, opt_chars(rom_path), bytes@) == Some((c.system_slug@, c.evidence@)),
            None => classification(save_path@, opt_chars(rom_path), bytes@) is None,
        },
{
    let ext = match path_extension(save_path) {
        Some(e) => e,
        None => {
            return None;
        },
    };
    let e = ext.as_slice();
    let size: u64 = bytes.len() as u64;
    if !(0 < bytes.len() && bytes.len() <= 536870912) || looks_plain_text(bytes) {
        return None;
    }
    let e_str = string_of(e);
    let es = e_str.as_str();
    if eq_lit(e, "bin") && is_plausible_save_for_system(es, size, "wii") && inspect_wii_metadata(
        save_path,
        bytes,
    ).is_some() {
        return classify_if_valid(save_path, e, bytes, "wii", "wii data.bin backup header + ");
    }
    let rom_slug: Option<&'static str> = match rom_path {
        Some(rp) => match path_extension(rp) {
            Some(re) => system_slug_from_rom_extension(re.as_slice()),
            None => None,
        },
        None => None,
    };
    match rom_slug {
        Some(slug) => {
            if is_plausible_save_for_system(es, size, slug) {
                return classify_if_valid(save_path, e, bytes, slug, "rom-extension + ");
            }
        },
        None => {},
    }
    let lv = lower_str(save_path);
    let l = lv.as_slice();
    let hints: Vec<&str> = vec!["gameboy advance", "/gba/", "\\gba\\"];
    assert(hints@ =~= gba_hints());
    if contains_any(l, &hints) {
        if is_plausible_save_for_system(es, size, "gba") {
            return classify_if_valid(save_path, e, bytes, "gba", "path hint gba + ");
        }
        return None;
    }
    let hints = nintendo_hint_list();
    if contains_any(l, &hints) {
        let slug = infer_nintendo_slug(l);
        if is_plausible_save_for_system(es, size, slug) {
            return classify_if_valid(save_path, e, bytes, slug, "path hint nintendo + ");
        }
        return None;
    }
    let hints = sega_hint_list();
    if contains_any(l, &hints) {
        let slug = infer_sega_slug(l);
        if is_plausible_save_for_system(es, size, slug) {
            return classify_if_valid(save_path, e, bytes, slug, "path hint sega + ");
        }
        return None;
    }
    let hints: Vec<&str> = vec!["neo geo", "neogeo", "neo-geo", "/mvs/", "\\mvs\\", "/aes/", "\\aes\\"];
    assert(hints@ =~= neogeo_hints());
    if contains_any(l, &hints) {
        if is_plausible_save_for_system(es, size, "neogeo") {
            return classify_if_valid(save_path, e, bytes, "neogeo", "path hint neogeo + ");
        }
        return None;
    }
    let hints = sony_hint_list();
    if contains_any(l, &hints) {
        let slug = infer_sony_slug(l);
        if is_plausible_save_for_system(es, size, slug) {
            return classify_if_valid(save_path, e, bytes, slug, "path hint sony + ");
        }
        return None;
    }
    match system_slug_from_save_extension(e) {
        Some(slug) => {
            if is_plausible_save_for_system(es, size, slug) {
                return classify_if_valid(save_path, e, bytes, slug, "save extension ");
            }
            None
        },
        None => None,
    }
}

/// The console alone of a classification.
pub open spec fn classified_slug(path: Seq<char>, rom: Option<Seq<char>>, b: Seq<u8>) -> Option<Seq<char>> {
    match classification(path, rom, b) {
        Some(c) => Some(c.0),
        None => None,
    }
}

/// The console of a save file, when it is a supported save.
pub fn infer_system_slug(path: &str, bytes: &[u8]) -> (r: Option<String>)
    ensures
        match r {
            Some(slug) => classified_slug(path@, None, bytes@) == Some(slug@),
            None => classified_slug(path@, None, bytes@) is None,
        },
{
    match classify_supported_save(path, None, bytes) {
        Some(c) => Some(c.system_slug),
        None => None,
    }
}

/// The console of a save file, judged with the ROM beside it.
pub fn infer_supported_console_slug(save_path: &str, rom_path: Option<&str>, bytes: &[u8]) -> (r: Option<String>)
    ensures
        match r {
            Some(slug) => classified_slug(save_path@, opt_chars(rom_path), bytes@) == Some(slug@),
            None => classified_slug(save_path@, opt_chars(rom_path), bytes@) is None,
        },
{
    match classify_supported_save(save_path, rom_path, bytes) {
        Some(c) => Some(c.system_slug),
        None => None,
    }
}

/// The save path and the ROM path, lower-cased, with a space between.
pub open spec fn both_lower(path: Seq<char>, rom: Option<Seq<char>>) -> Seq<char> {
    lower(path) + " "@ + match rom {
        Some(r) => lower(r),
        None => Seq::<char>::empty(),
    }
}

fn both_lower_exec(path: &str, rom: Option<&str>) -> (r: Vec<char>)
    ensures
        r@ == both_lower(path@, opt_chars(rom)),
{
    let mut v = lower_str(path);
    v.push(' ');
    proof {
        reveal_strlit(" ");
    }
    match rom {
        Some(rp) => {
            let mut w = lower_str(rp);
            v.append(&mut w);
            assert(v@ =~= both_lower(path@, opt_chars(rom)));
        },
        None => {
            assert(v@ =~= both_lower(path@, opt_chars(rom)));
        },
    }
    v
}

/// Whether the ROM has one of the extensions.
pub open spec fn rom_ext_in(rom: Option<Seq<char>>, exts: Seq<Seq<char>>) -> bool {
    match rom {
        Some(r) => match lower_ext(r) {
            Some(e) => exts.contains(e),
            None => false,
        },
        None => false,
    }
}

pub open spec fn saturn_skip_hints() -> Seq<&'static str> {
    seq![
        "saturn",
        "/saturn/",
        "\\saturn\\",
        "yabause",
        "yabasanshiro",
        "kronos",
        "ssf",
        "beetle saturn",
        "mednafen saturn",
    ]
}

/// Why a file that looks like a Saturn save is not synced: for a
/// `sav`/`srm`/`ram`/`bkr` file that a Saturn hint in the paths or a
/// `cue`/`iso`/`chd` ROM marks, a text or binary file, a size no backup RAM
/// has, or a backup RAM that does not read or holds no save.
pub open spec fn saturn_skip(path: Seq<char>, rom: Option<Seq<char>>, b: Seq<u8>) -> Option<Seq<char>> {
    match lower_ext(path) {
        None => None,
        Some(e) => if !seq!["sav"@, "srm"@, "ram"@, "bkr"@].contains(e) {
            None
        } else if !mentions_any(both_lower(path, rom), saturn_skip_hints()) && !rom_ext_in(
            rom,
            seq!["cue"@, "iso"@, "chd"@],
        ) {
            None
        } else if plain_text(b) || executable_or_archive(b) {
            Some("skip_invalid_saturn_backup_ram"@)
        } else if !is_saturn_size(b.len() as u64) {
            Some(
                "skip_saturn_without_structural_evidence(size="@ + crate::num::decimal_text(b.len())
                    + ")"@,
            )
        } else {
            match saturn_image(b) {
                Some(m) => if m.1 > 0 {
                    None
                } else {
                    Some("skip_empty_saturn_backup_ram"@)
                },
                None => Some("skip_invalid_saturn_backup_ram"@),
            }
        },
    }
}

fn rom_ext_in_exec(rom: Option<&str>, a: &str, b: &str, c: &str) -> (r: bool)
    ensures
        r == rom_ext_in(opt_chars(rom), seq![a@, b@, c@]),
{
    match rom {
        Some(rp) => match path_extension(rp) {
            Some(e) => {
                let r = eq_lit(e.as_slice(), a) || eq_lit(e.as_slice(), b) || eq_lit(e.as_slice(), c);
                proof {
                    let s = seq![a@, b@, c@];
                    if s.contains(e@) {
                        let k = choose|k: int| 0 <= k < s.len() && s[k] == e@;
                        assert(k == 0 || k == 1 || k == 2);
                    }
                    if r {
                        if e@ == a@ { assert(s[0] == e@); }
                        if e@ == b@ { assert(s[1] == e@); }
                        if e@ == c@ { assert(s[2] == e@); }
                    }
                }
                r
            },
            None => false,
        },
        None => false,
    }
}

proof fn lemma_in_four(e: Seq<char>, a: Seq<char>, b: Seq<char>, c: Seq<char>, d: Seq<char>)
    ensures
        seq![a, b, c, d].contains(e) <==> (e == a || e == b || e == c || e == d),
{
    let s = seq![a, b, c, d];
    if s.contains(e) {
        let k = choose|k: int| 0 <= k < s.len() && s[k] == e;
        assert(k == 0 || k == 1 || k == 2 || k == 3);
    }
    if e == a { assert(s[0] == e); }
    if e == b { assert(s[1] == e); }
    if e == c { assert(s[2] == e); }
    if e == d { assert(s[3] == e); }
}

/// Why a file that looks like a Saturn save is skipped, if it is.
pub fn saturn_skip_reason(save_path: &str, rom_path: Option<&str>, bytes: &[u8]) -> (r: Option<String>)
    ensures
        match r {
            Some(reason) => saturn_skip(save_path@, opt_chars(rom_path), bytes@) == Some(reason@),
            None => saturn_skip(save_path@, opt_chars(rom_path), bytes@) is None,
        },
{
    let ext = match path_extension(save_path) {
        Some(e) => e,
        None => {
            return None;
        },
    };
    let e = ext.as_slice();
    proof {
        lemma_in_four(e@, "sav"@, "srm"@, "ram"@, "bkr"@);
    }
    if !(eq_lit(e, "sav") || eq_lit(e, "srm") || eq_lit(e, "ram") || eq_lit(e, "bkr")) {
        return None;
    }
    let combined = both_lower_exec(save_path, rom_path);
    let hints: Vec<&str> = vec![
        "saturn",
        "/saturn/",
        "\\saturn\\",
        "yabause",
        "yabasanshiro",
        "kronos",
        "ssf",
        "beetle saturn",
        "mednafen saturn",
    ];
    assert(hints@ =~= saturn_skip_hints());
    let hinted = contains_any(combined.as_slice(), &hints);
    let rom_hinted = rom_ext_in_exec(rom_path, "cue", "iso", "chd");
    if !hinted && !rom_hinted {
        return None;
    }
    if looks_plain_text(bytes) || looks_like_executable_or_archive(bytes) {
        return Some(owned("skip_invalid_saturn_backup_ram"));
    }
    let n = bytes.len();
    if !(n == 0x8000 || n == 0x10000 || n == 0x80000 || n == 0x100000 || n == 0x88000 || n
        == 0x110000 || n == 0x400000 || n == 0x800000) {
        let mut m = owned("skip_saturn_without_structural_evidence(size=");
        m.append(num_text(n as u64).as_str());
        m.append(")");
        return Some(m);
    }
    match inspect_saturn_bytes(bytes) {
        Some(m) => if m.save_entries > 0 {
            None
        } else {
            Some(owned("skip_empty_saturn_backup_ram"))
        },
        None => Some(owned("skip_invalid_saturn_backup_ram")),
    }
}

pub open spec fn dreamcast_skip_hints() -> Seq<&'static str> {
    seq![
        "dreamcast",
        "/dreamcast/",
        "\\dreamcast\\",
        "flycast",
        "reicast",
        "vmu",
        ".a1.bin",
        ".a2.bin",
        ".a3.bin",
        ".a4.bin",
        ".b1.bin",
        ".b2.bin",
        ".b3.bin",
        ".b4.bin",
        ".c1.bin",
        ".c2.bin",
        ".c3.bin",
        ".c4.bin",
        ".d1.bin",
        ".d2.bin",
        ".d3.bin",
        ".d4.bin",
    ]
}

pub open spec fn dreamcast_rom_exts() -> Seq<Seq<char>> {
    seq!["gdi"@, "cdi"@, "chd"@, "cue"@, "iso"@]
}

/// Why a file that looks like a Dreamcast save is not synced: for a `vms` or
/// `dci` file, or a `bin` file that a Dreamcast hint or ROM marks, a text or
/// binary file, a size no Dreamcast save has, or a container that does not
/// read or holds no save.
pub open spec fn dreamcast_skip(path: Seq<char>, rom: Option<Seq<char>>, b: Seq<u8>) -> Option<Seq<char>> {
    match lower_ext(path) {
        None => None,
        Some(e) => if !(e == "bin"@ || e == "vms"@ || e == "dci"@) {
            None
        } else if e == "bin"@ && !mentions_any(both_lower(path, rom), dreamcast_skip_hints())
            && !rom_ext_in(rom, dreamcast_rom_exts()) {
            None
        } else if plain_text(b) || executable_or_archive(b) {
            Some("skip_invalid_dreamcast_container"@)
        } else if !plausible_for(e, b.len() as u64, "dreamcast"@) {
            Some(
                "skip_dreamcast_without_structural_evidence(size="@ + crate::num::decimal_text(
                    b.len(),
                ) + ")"@,
            )
        } else {
            match dreamcast_meta(e, b) {
                Some(m) => if m.entries > 0 {
                    None
                } else {
                    Some("skip_empty_dreamcast_vmu"@)
                },
                None => Some("skip_invalid_dreamcast_container"@),
            }
        },
    }
}

fn dreamcast_rom_hinted(rom: Option<&str>) -> (r: bool)
    ensures
        r == rom_ext_in(opt_chars(rom), dreamcast_rom_exts()),
{
    match rom {
        Some(rp) => match path_extension(rp) {
            Some(e) => {
                let v = e.as_slice();
                let r = eq_lit(v, "gdi") || eq_lit(v, "cdi") || eq_lit(v, "chd") || eq_lit(v, "cue")
                    || eq_lit(v, "iso");
                proof {
                    let s = dreamcast_rom_exts();
                    if s.contains(e@) {
                        let k = choose|k: int| 0 <= k < s.len() && s[k] == e@;
                        assert(0 <= k < 5);
                    }
                    if e@ == "gdi"@ { assert(s[0] == e@); }
                    if e@ == "cdi"@ { assert(s[1] == e@); }
                    if e@ == "chd"@ { assert(s[2] == e@); }
                    if e@ == "cue"@ { assert(s[3] == e@); }
                    if e@ == "iso"@ { assert(s[4] == e@); }
                }
                r
            },
            None => false,
        },
        None => false,
    }
}

/// Why a file that looks like a Dreamcast save is skipped, if it is.
pub fn dreamcast_skip_reason(save_path: &str, rom_path: Option<&str>, bytes: &[u8]) -> (r: Option<String>)
    ensures
        match r {
            Some(reason) => dreamcast_skip(save_path@, opt_chars(rom_path), bytes@) == Some(reason@),
            None => dreamcast_skip(save_path@, opt_chars(rom_path), bytes@) is None,
        },
{
    let ext = match path_extension(save_path) {
        Some(e) => e,
        None => {
            return None;
        },
    };
    let e = ext.as_slice();
    let is_bin = eq_lit(e, "bin");
    if !(is_bin || eq_lit(e, "vms") || eq_lit(e, "dci")) {
        return None;
    }
    if is_bin {
        let combined = both_lower_exec(save_path, rom_path);
        let hints: Vec<&str> = vec![
            "dreamcast",
            "/dreamcast/",
            "\\dreamcast\\",
            "flycast",
            "reicast",
            "vmu",
            ".a1.bin",
            ".a2.bin",
            ".a3.bin",
            ".a4.bin",
            ".b1.bin",
            ".b2.bin",
            ".b3.bin",
            ".b4.bin",
            ".c1.bin",
            ".c2.bin",
            ".c3.bin",
            ".c4.bin",
            ".d1.bin",
            ".d2.bin",
            ".d3.bin",
            ".d4.bin",
        ];
        assert(hints@ =~= dreamcast_skip_hints());
        if !contains_any(combined.as_slice(), &hints) && !dreamcast_rom_hinted(rom_path) {
            return None;
        }
    }
    if looks_plain_text(bytes) || looks_like_executable_or_archive(bytes) {
        return Some(owned("skip_invalid_dreamcast_container"));
    }
    let e_str = string_of(e);
    if !is_plausible_save_for_system(e_str.as_str(), bytes.len() as u64, "dreamcast") {
        let mut m = owned("skip_dreamcast_without_structural_evidence(size=");
        m.append(num_text(bytes.len() as u64).as_str());
        m.append(")");
        return Some(m);
    }
    match inspect_dreamcast_metadata(e, bytes) {
        Some(m) => if m.save_entries > 0 {
            None
        } else {
            Some(owned("skip_empty_dreamcast_vmu"))
        },
        None => Some(owned("skip_invalid_dreamcast_container")),
    }
}

pub open spec fn wii_path_hints() -> Seq<&'static str> {
    seq!["/wii/", "\\wii\\", "nintendo wii", "dolphin", "rvl"]
}

/// A path `.../<title code>/data.bin`, the file name in any case.
pub open spec fn wii_data_bin_path(path: Seq<char>) -> bool {
    &&& file_name(path) is Some
    &&& lower(file_name(path)->0) == "data.bin"@
    &&& wii_code_of_path(path) is Some
}

/// Why a `bin` file that looks like a Wii backup is not synced: it is
/// named like one or a Wii hint marks its path, and it does not read.
pub open spec fn wii_skip(path: Seq<char>, b: Seq<u8>) -> Option<Seq<char>> {
    match lower_ext(path) {
        None => None,
        Some(e) => if e != "bin"@ {
            None
        } else if !wii_data_bin_path(path) && !mentions_any(lower(path), wii_path_hints()) {
            None
        } else if wii_meta(path, b) is Some {
            None
        } else {
            Some("skip_invalid_wii_data_bin"@)
        },
    }
}

fn looks_like_wii_data_bin_path(path: &str) -> (r: bool)
    ensures
        r == wii_data_bin_path(path@),
{
    match crate::paths::path_file_name(path) {
        Some(n) => {
            let l = lower_vec(n.as_slice());
            if !eq_lit(l.as_slice(), "data.bin") {
                return false;
            }
            wii_title_code_from_path(path).is_some()
        },
        None => false,
    }
}

/// Why a file that looks like a Wii backup is skipped, if it is.
pub fn wii_skip_reason(save_path: &str, bytes: &[u8]) -> (r: Option<String>)
    ensures
        match r {
            Some(reason) => wii_skip(save_path@, bytes@) == Some(reason@),
            None => wii_skip(save_path@, bytes@) is None,
        },
{
    let ext = match path_extension(save_path) {
        Some(e) => e,
        None => {
            return None;
        },
    };
    if !eq_lit(ext.as_slice(), "bin") {
        return None;
    }
    let l = lower_str(save_path);
    let hints: Vec<&str> = vec!["/wii/", "\\wii\\", "nintendo wii", "dolphin", "rvl"];
    assert(hints@ =~= wii_path_hints());
    if !looks_like_wii_data_bin_path(save_path) && !contains_any(l.as_slice(), &hints) {
        return None;
    }
    match inspect_wii_metadata(save_path, bytes) {
        Some(_) => None,
        None => Some(owned("skip_invalid_wii_data_bin")),
    }
}

// ---------------------------------------------------------------------------
// The synced form of a save
// ---------------------------------------------------------------------------

/// The synced form of a save and how it is kept locally: a save of any
/// console but the PlayStation is synced as it is; a PlayStation save is
/// synced as its raw card, taken out of a DexDrive (`gme`) or VMP (`vmp`)
/// file, or kept as it is when it is itself a valid raw card. A PlayStation
/// save in none of these forms has no synced form.
pub open spec fn normalized_form(path: Seq<char>, slug: Seq<char>, b: Seq<u8>) -> Option<
    (Seq<u8>, SaveContainerFormat, SaveAdapterProfile),
> {
    if slug != "psx"@ {
        Some((b, SaveContainerFormat::Native, SaveAdapterProfile::Identity))
    } else {
        let e = match lower_ext(path) {
            Some(e) => e,
            None => Seq::<char>::empty(),
        };
        if e == "gme"@ {
            match dexdrive_payload(b) {
                Some(p) => Some((p, SaveContainerFormat::Ps1DexDrive, SaveAdapterProfile::Ps1DexDrive)),
                None => None,
            }
        } else if e == "vmp"@ {
            match vmp_payload(b) {
                Some(p) => Some((p, SaveContainerFormat::Ps1Vmp, SaveAdapterProfile::Ps1Vmp)),
                None => None,
            }
        } else if ps1_memcard(b) {
            Some((b, SaveContainerFormat::Ps1Raw, SaveAdapterProfile::Ps1Raw))
        } else {
            None
        }
    }
}

pub open spec fn normalized_view(n: NormalizedSave) -> (Seq<u8>, SaveContainerFormat, SaveAdapterProfile) {
    (n.canonical_bytes@, n.local_container, n.adapter_profile)
}

/// The synced form of the bytes of a save; see `normalized_form`.
pub fn normalize_save_bytes_for_sync(save_path: &str, system_slug: &str, bytes: &[u8]) -> (r: Option<NormalizedSave>)
    ensures
        match r {
            Some(n) => normalized_form(save_path@, system_slug@, bytes@) == Some(normalized_view(n)),
            None => normalized_form(save_path@, system_slug@, bytes@) is None,
        },
{
    if !str_eq(system_slug, "psx") {
        return Some(
            NormalizedSave {
                canonical_bytes: vstd::slice::slice_to_vec(bytes),
                local_container: SaveContainerFormat::Native,
                adapter_profile: SaveAdapterProfile::Identity,
            },
        );
    }
    let ext = match path_extension(save_path) {
        Some(e) => e,
        None => Vec::new(),
    };
    let e = ext.as_slice();
    if eq_lit(e, "gme") {
        match decode_ps1_dexdrive(bytes) {
            Some(p) => Some(
                NormalizedSave {
                    canonical_bytes: p,
                    local_container: SaveContainerFormat::Ps1DexDrive,
                    adapter_profile: SaveAdapterProfile::Ps1DexDrive,
                },
            ),
            None => None,
        }
    } else if eq_lit(e, "vmp") {
        match decode_ps1_vmp(bytes) {
            Some(p) => Some(
                NormalizedSave {
                    canonical_bytes: p,
                    local_container: SaveContainerFormat::Ps1Vmp,
                    adapter_profile: SaveAdapterProfile::Ps1Vmp,
                },
            ),
            None => None,
        }
    } else if validate_ps1_raw_memcard(bytes) {
        Some(
            NormalizedSave {
                canonical_bytes: vstd::slice::slice_to_vec(bytes),
                local_container: SaveContainerFormat::Ps1Raw,
                adapter_profile: SaveAdapterProfile::Ps1Raw,
            },
        )
    } else {
        None
    }
}

/// The bytes a downloaded synced save is written locally as: refused when
/// the local container is a PlayStation one and the download is no valid
/// raw card; else the download itself for a native or raw container, wrapped
/// as a DexDrive or VMP file for those.
pub open spec fn local_form(c: Seq<u8>, local: SaveContainerFormat) -> Option<Seq<u8>> {
    if !ps1_memcard(c) && local != SaveContainerFormat::Native {
        None
    } else {
        match local {
            SaveContainerFormat::Native => Some(c),
            SaveContainerFormat::Ps1Raw => Some(c),
            SaveContainerFormat::Ps1DexDrive => Some(dexdrive_header() + c),
            SaveContainerFormat::Ps1Vmp => Some(vmp_image(c)),
        }
    }
}

/// Writes a downloaded synced save back in the local container.
pub fn encode_download_for_local_container(canonical_bytes: &[u8], local_container: SaveContainerFormat) -> (r: Result<Vec<u8>, InvalidMemoryCard>)
    ensures
        match r {
            Ok(v) => local_form(canonical_bytes@, local_container) == Some(v@),
            Err(_) => local_form(canonical_bytes@, local_container) is None,
        },
{
    if !validate_ps1_raw_memcard(canonical_bytes) && local_container != SaveContainerFormat::Native {
        return Err(InvalidMemoryCard);
    }
    match local_container {
        SaveContainerFormat::Native => Ok(vstd::slice::slice_to_vec(canonical_bytes)),
        SaveContainerFormat::Ps1Raw => Ok(vstd::slice::slice_to_vec(canonical_bytes)),
        SaveContainerFormat::Ps1DexDrive => Ok(encode_ps1_dexdrive(canonical_bytes)),
        SaveContainerFormat::Ps1Vmp => encode_ps1_vmp(canonical_bytes),
    }
}

/// A download written back in the local container of a save reads back as
/// the same synced bytes: for every save with a synced form, writing that
/// form in its container and reading the result at the same path gives the
/// same form again.
pub proof fn lemma_local_copy_reads_back(
    path: Seq<char>,
    slug: Seq<char>,
    b: Seq<u8>,
    c: Seq<u8>,
    local: SaveContainerFormat,
    adapter: SaveAdapterProfile,
)
    requires
        normalized_form(path, slug, b) == Some((c, local, adapter)),
    ensures
        local_form(c, local) is Some,
        normalized_form(path, slug, local_form(c, local)->0) == Some((c, local, adapter)),
{
    reveal(dexdrive_payload);
    reveal(vmp_payload);
    if slug == "psx"@ {
        let e = match lower_ext(path) {
            Some(e) => e,
            None => Seq::<char>::empty(),
        };
        if e == "gme"@ {
            lemma_dexdrive_roundtrip(c);
        } else if e == "vmp"@ {
            lemma_vmp_roundtrip(c);
        }
    }
}

} // verus!

verus! {

proof fn lemma_classified_facts(path: Seq<char>, e: Seq<char>, b: Seq<u8>, s: Seq<char>, p: Seq<char>)
    ensures
        classified(path, e, b, s, p) matches Some((x, y)) ==> x == s && !executable_or_archive(b) && y.len() > 0,
{
    if passes_validation(path, e, b, s) {
        reveal_strlit(".");
        let t = evidence_text(p, e, b.len());
        assert(t.len() >= 1);
    }
}

/// A file is only ever classified as a save when it has an extension, is
/// neither empty nor larger than the limit, is not text, does not start
/// like an executable or an archive, has a size plausible for the console
/// it is classified as, and the classification gives its evidence.
#[verifier::rlimit(80)]
pub proof fn law_classified_save_is_plausible(path: Seq<char>, rom: Option<Seq<char>>, b: Seq<u8>, slug: Seq<char>, ev: Seq<char>)
    requires
        classification(path, rom, b) == Some((slug, ev)),
    ensures
        lower_ext(path) is Some,
        0 < b.len() <= max_save_bytes(),
        !plain_text(b),
        !executable_or_archive(b),
        plausible_for(lower_ext(path)->0, b.len() as u64, slug),
        ev.len() > 0,
{
    let e = lower_ext(path)->0;
    let l = lower(path);
    let rom_slug = match rom {
        Some(r) => match lower_ext(r) {
            Some(re) => rom_extension_system(re),
            None => None,
        },
        None => None,
    };
    lemma_classified_facts(path, e, b, "wii"@, "wii data.bin backup header + "@);
    if rom_slug is Some {
        lemma_classified_facts(path, e, b, rom_slug->0, "rom-extension + "@);
    }
    lemma_classified_facts(path, e, b, "gba"@, "path hint gba + "@);
    lemma_classified_facts(path, e, b, nintendo_slug(l), "path hint nintendo + "@);
    lemma_classified_facts(path, e, b, sega_slug(l), "path hint sega + "@);
    lemma_classified_facts(path, e, b, "neogeo"@, "path hint neogeo + "@);
    lemma_classified_facts(path, e, b, sony_slug(l), "path hint sony + "@);
    if save_extension_system(e) is Some {
        lemma_classified_facts(path, e, b, save_extension_system(e)->0, "save extension "@);
    }
}

} // verus!

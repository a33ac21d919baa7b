//! Saves of native PC ports of console games: which ports are known, which
//! of their files are progress saves, and how a found save is named.
use vstd::prelude::*;
use crate::paths::{file_name, file_stem, is_absolute, path_file_stem, path_join};
use crate::text::{
    chars_of, contains, ends_with, is_alnum, is_ws, lower, lower_char, lower_of, lower_str,
    lower_vec, occurs_at, occurs_at_exec, owned, seq_eq, starts_with, starts_with_exec, str_eq,
    string_of, trim, trim_vec,
};

verus! {

/// A save of a native port found on disk.
#[derive(Debug, Clone, PartialEq, Eq)]
pub struct PortSaveMatch {
    pub path: String,
    pub port_id: String,
    pub port_name: String,
    pub origin_system_slug: String,
    pub runtime_profile: String,
    pub relative_path: String,
    pub root_relative_path: String,
    pub slot_id: String,
    pub display_title: String,
}

/// A file pattern (relative to a port's folder, `*` standing for any
/// characters in the file name) that holds a progress save, and whether an
/// empty file counts.
#[derive(Debug, Clone, Copy)]
pub struct PortSaveRule {
    pub pattern: &'static str,
    pub allow_empty: bool,
}

impl PortSaveRule {
    /// A progress-save pattern; an empty file does not count.
    pub fn progress(pattern: &'static str) -> (r: Self)
        ensures
            r.pattern == pattern,
            !r.allow_empty,
    {
        PortSaveRule { pattern, allow_empty: false }
    }
}

/// A known port: its id and name, the console its game comes from, its
/// runtime profile, the folder names it is installed under, and its save
/// patterns.
#[derive(Debug, Clone)]
pub struct PortManifest {
    pub id: &'static str,
    pub name: &'static str,
    pub origin_system_slug: &'static str,
    pub runtime_profile: &'static str,
    pub root_aliases: Vec<&'static str>,
    pub rules: Vec<PortSaveRule>,
}

/// The ports the helper knows.
pub fn port_manifests() -> (r: Vec<PortManifest>)
    ensures
        r@.len() == 8,
        r@[0].id@ == "ship-of-harkinian"@,
        r@[7].id@ == "opengoal-jak2"@,
{
    let mut v: Vec<PortManifest> = Vec::new();
    v.push(PortManifest {
        id: "ship-of-harkinian",
        name: "The Legend of Zelda: Ocarina of Time (Ship of Harkinian)",
        origin_system_slug: "n64",
        runtime_profile: "port/ship-of-harkinian",
        root_aliases: vec!["OcarinaOfTime", "ShipOfHarkinian", "Shipwright"],
        rules: vec![
            PortSaveRule::progress("Save/global.sav"),
            PortSaveRule::progress("Save/file*.sav"),
            PortSaveRule::progress("portable_home/Save/global.sav"),
            PortSaveRule::progress("portable_home/Save/file*.sav"),
        ],
    });
    v.push(PortManifest {
        id: "starship",
        name: "Star Fox 64 (Starship)",
        origin_system_slug: "n64",
        runtime_profile: "port/starship",
        root_aliases: vec!["StarFox64", "Starship"],
        rules: vec![PortSaveRule::progress("default.sav"), PortSaveRule::progress("portable_home/default.sav")],
    });
    v.push(PortManifest {
        id: "spaghettikart",
        name: "Mario Kart 64 (SpaghettiKart)",
        origin_system_slug: "n64",
        runtime_profile: "port/spaghettikart",
        root_aliases: vec!["MarioKart64", "SpaghettiKart"],
        rules: vec![PortSaveRule::progress("default.sav"), PortSaveRule::progress("portable_home/default.sav")],
    });
    v.push(PortManifest {
        id: "super-metroid-native",
        name: "Super Metroid (Native Port)",
        origin_system_slug: "snes",
        runtime_profile: "port/super-metroid-native",
        root_aliases: vec!["SuperMetroid"],
        rules: vec![PortSaveRule::progress("saves/*.srm"), PortSaveRule::progress("portable_home/saves/*.srm")],
    });
    v.push(PortManifest {
        id: "sonic1-forever",
        name: "Sonic 1 Forever",
        origin_system_slug: "genesis",
        runtime_profile: "port/sonic1-forever",
        root_aliases: vec!["Sonic1Forever"],
        rules: vec![
            PortSaveRule::progress("Scripts/Save/SaveSel.txt"),
            PortSaveRule::progress("Scripts/Save/SaveSlot.txt"),
            PortSaveRule::progress("portable_home/Scripts/Save/SaveSel.txt"),
            PortSaveRule::progress("portable_home/Scripts/Save/SaveSlot.txt"),
        ],
    });
    v.push(PortManifest {
        id: "sonic3-air",
        name: "Sonic 3 A.I.R.",
        origin_system_slug: "genesis",
        runtime_profile: "port/sonic3-air",
        root_aliases: vec!["Sonic3AIR", "Sonic3A.I.R"],
        rules: vec![
            PortSaveRule::progress("saves/*.sav"),
            PortSaveRule::progress("saves/*.srm"),
            PortSaveRule::progress("saves/*.bin"),
            PortSaveRule::progress("portable_home/saves/*.sav"),
            PortSaveRule::progress("portable_home/saves/*.srm"),
            PortSaveRule::progress("portable_home/saves/*.bin"),
        ],
    });
    v.push(PortManifest {
        id: "opengoal-jak1",
        name: "Jak and Daxter: The Precursor Legacy (OpenGOAL)",
        origin_system_slug: "ps2",
        runtime_profile: "port/opengoal-jak1",
        root_aliases: vec!["OpenGOAL-jak1"],
        rules: Vec::new(),
    });
    v.push(PortManifest {
        id: "opengoal-jak2",
        name: "Jak II (OpenGOAL)",
        origin_system_slug: "ps2",
        runtime_profile: "port/opengoal-jak2",
        root_aliases: vec!["OpenGOAL-jak2"],
        rules: Vec::new(),
    });
    v
}

// ---------------------------------------------------------------------------
// File patterns
// ---------------------------------------------------------------------------

/// The pieces of a text split at `*`, empty pieces kept.
pub open spec fn star_split_state(s: Seq<char>) -> (Seq<Seq<char>>, Seq<char>)
    decreases s.len(),
{
    if s.len() == 0 {
        (seq![], seq![])
    } else {
        let (done, cur) = star_split_state(s.drop_last());
        if s.last() == '*' {
            (done.push(cur), seq![])
        } else {
            (done, cur.push(s.last()))
        }
    }
}

pub open spec fn star_parts(s: Seq<char>) -> Seq<Seq<char>> {
    let (done, cur) = star_split_state(s);
    done.push(cur)
}

fn split_stars(v: &[char]) -> (r: Vec<Vec<char>>)
    ensures
        r.deep_view() == star_parts(v@),
{
    let mut done: Vec<Vec<char>> = Vec::new();
    let mut cur: Vec<char> = Vec::new();
    let mut i: usize = 0;
    while i < v.len()
        invariant
            0 <= i <= v@.len(),
            (done.deep_view(), cur@) == star_split_state(v@.subrange(0, i as int)),
        decreases v@.len() - i,
    {
        assert(v@.subrange(0, i + 1).drop_last() =~= v@.subrange(0, i as int));
        let c = v[i];
        if c == '*' {
            let ghost before = done.deep_view();
            assert(cur.deep_view() =~= cur@);
            done.push(cur);
            assert(done.deep_view() =~= before.push(cur@));
            cur = Vec::new();
        } else {
            cur.push(c);
        }
        i = i + 1;
    }
    assert(v@.subrange(0, v@.len() as int) =~= v@);
    let ghost before = done.deep_view();
    assert(cur.deep_view() =~= cur@);
    done.push(cur);
    assert(done.deep_view() =~= before.push(cur@));
    done
}

/// The first position where `p` occurs in `s`, or -1.
pub open spec fn first_occurrence(s: Seq<char>, p: Seq<char>) -> int {
    if contains(s, p) {
        choose|i: int| occurs_at(s, p, i) && forall|j: int| 0 <= j < i ==> !occurs_at(s, p, j)
    } else {
        -1
    }
}

proof fn lemma_first_occurrence_is(s: Seq<char>, p: Seq<char>, i: int)
    requires
        occurs_at(s, p, i),
        forall|j: int| 0 <= j < i ==> !occurs_at(s, p, j),
    ensures
        first_occurrence(s, p) == i,
{
    assert(contains(s, p));
    let c = choose|c: int| occurs_at(s, p, c) && forall|j: int| 0 <= j < c ==> !occurs_at(s, p, j);
    assert(occurs_at(s, p, c));
    if c < i {
        assert(0 <= c);
    } else if c > i {
        assert(0 <= i);
    }
}

fn find_sub(s: &[char], p: &[char]) -> (r: Option<usize>)
    ensures
        match r {
            Some(i) => first_occurrence(s@, p@) == i && i + p@.len() <= s@.len(),
            None => first_occurrence(s@, p@) == -1,
        },
{
    if p.len() > s.len() {
        assert(!contains(s@, p@));
        return None;
    }
    let last: usize = s.len() - p.len();
    let mut i: usize = 0;
    loop
        invariant
            p@.len() <= s@.len(),
            last == s@.len() - p@.len(),
            0 <= i <= last,
            forall|j: int| 0 <= j < i ==> !occurs_at(s@, p@, j),
        decreases last - i,
    {
        if occurs_at_exec(s, p, i) {
            proof {
                lemma_first_occurrence_is(s@, p@, i as int);
            }
            return Some(i);
        }
        if i == last {
            assert(!contains(s@, p@)) by {
                if contains(s@, p@) {
                    let k = choose|k: int| occurs_at(s@, p@, k);
                    assert(0 <= k <= last);
                }
            }
            return None;
        }
        i = i + 1;
    }
}

/// What is left of `rem` after the pattern pieces from `k` on are found in
/// it in order, each as early as it occurs, the first one (when the pattern
/// does not start with `*`) only at the start; empty pieces are passed over.
pub open spec fn glob_rest(parts: Seq<Seq<char>>, k: int, rem: Seq<char>, anchored: bool) -> Option<Seq<char>>
    decreases parts.len() - k,
{
    if k < 0 || k >= parts.len() {
        Some(rem)
    } else if parts[k].len() == 0 {
        glob_rest(parts, k + 1, rem, anchored)
    } else if anchored {
        if starts_with(rem, parts[k]) {
            glob_rest(parts, k + 1, rem.subrange(parts[k].len() as int, rem.len() as int), false)
        } else {
            None
        }
    } else {
        let i = first_occurrence(rem, parts[k]);
        if i >= 0 {
            glob_rest(parts, k + 1, rem.subrange(i + parts[k].len(), rem.len() as int), false)
        } else {
            None
        }
    }
}

/// Whether a file name matches a pattern, ignoring ASCII case: without `*`,
/// equality; with it, the pieces between the stars are found in order (the
/// first at the start unless the pattern starts with `*`), and the name is
/// used up unless the pattern ends with `*`.
pub open spec fn wildcard(pattern: Seq<char>, value: Seq<char>) -> bool {
    let p = lower(pattern);
    let v = lower(value);
    if !p.contains('*') {
        p == v
    } else {
        match glob_rest(star_parts(p), 0, v, !starts_with(p, seq!['*'])) {
            Some(r) => ends_with(p, seq!['*']) || r.len() == 0,
            None => false,
        }
    }
}

/// Whether a file name matches a pattern; see `wildcard`.
pub fn wildcard_match(pattern: &str, value: &str) -> (r: bool)
    ensures
        r == wildcard(pattern@, value@),
{
    let p = lower_str(pattern);
    let v = lower_str(value);
    let has_star = crate::text::find_char(p.as_slice(), '*').is_some();
    proof {
        crate::text::lemma_first_index_bounds(p@, '*');
        if has_star {
            assert(p@[crate::text::first_index(p@, '*')] == '*');
        } else {
            assert(!p@.contains('*'));
        }
    }
    if !has_star {
        return seq_eq(p.as_slice(), v.as_slice());
    }
    let star: Vec<char> = vec!['*'];
    assert(star@ =~= seq!['*']);
    let anchored0 = !starts_with_exec(p.as_slice(), star.as_slice());
    let ends_star = crate::text::ends_with_exec(p.as_slice(), star.as_slice());
    let parts = split_stars(p.as_slice());
    let ghost ps = parts.deep_view();
    let mut rem: Vec<char> = v;
    let mut anchored = anchored0;
    let mut k: usize = 0;
    while k < parts.len()
        invariant
            0 <= k <= parts@.len(),
            ps == parts.deep_view(),
            ps == star_parts(p@),
            p@ == lower(pattern@),
            p@.contains('*'),
            anchored0 == !starts_with(p@, seq!['*']),
            ends_star == ends_with(p@, seq!['*']),
            glob_rest(ps, 0, lower(value@), anchored0) == glob_rest(ps, k as int, rem@, anchored),
        decreases parts@.len() - k,
    {
        let part = &parts[k];
        assert(part@ == ps[k as int]);
        if part.len() == 0 {
            k = k + 1;
        } else if anchored {
            if !starts_with_exec(rem.as_slice(), part.as_slice()) {
                return false;
            }
            let n = rem.len();
            rem = crate::text::slice_vec(rem.as_slice(), part.len(), n);
            anchored = false;
            k = k + 1;
        } else {
            match find_sub(rem.as_slice(), part.as_slice()) {
                Some(idx) => {
                    let n = rem.len();
                    rem = crate::text::slice_vec(rem.as_slice(), idx + part.len(), n);
                    anchored = false;
                    k = k + 1;
                },
                None => {
                    return false;
                },
            }
        }
    }
    ends_star || rem.len() == 0
}

// ---------------------------------------------------------------------------
// Relative paths and slot names
// ---------------------------------------------------------------------------

/// The slot id of a save: its file stem (or the whole path without one),
/// reduced to lower-case letters and digits with single dashes between.
pub open spec fn token_state(s: Seq<char>) -> (Seq<char>, bool)
    decreases s.len(),
{
    if s.len() == 0 {
        (seq![], false)
    } else {
        let (out, last_dash) = token_state(s.drop_last());
        let c = s.last();
        if is_alnum(c) {
            (out.push(lower_char(c)), false)
        } else if !last_dash {
            (out.push('-'), true)
        } else {
            (out, true)
        }
    }
}

/// A text reduced to lower-case ASCII letters and digits, each run of other
/// characters made one dash, with no dash at either end.
pub open spec fn canonical(s: Seq<char>) -> Seq<char> {
    crate::text::strip_trail(crate::text::strip_lead(token_state(s).0, '-'), '-')
}

pub fn canonical_token(value: &str) -> (r: String)
    ensures
        r@ == canonical(value@),
{
    let v = chars_of(value);
    let mut out: Vec<char> = Vec::new();
    let mut last_dash = false;
    let mut i: usize = 0;
    while i < v.len()
        invariant
            0 <= i <= v@.len(),
            (out@, last_dash) == token_state(v@.subrange(0, i as int)),
        decreases v@.len() - i,
    {
        assert(v@.subrange(0, i + 1).drop_last() =~= v@.subrange(0, i as int));
        let c = v[i];
        if crate::text::is_alnum_char(c) {
            out.push(lower_of(c));
            last_dash = false;
        } else if !last_dash {
            out.push('-');
            last_dash = true;
        }
        i = i + 1;
    }
    assert(v@.subrange(0, v@.len() as int) =~= v@);
    let a = crate::text::strip_lead_vec(out.as_slice(), '-');
    let b = crate::text::strip_trail_vec(a.as_slice(), '-');
    string_of(b.as_slice())
}

/// The file stem of a relative path, or the path itself.
pub open spec fn stem_or_all(p: Seq<char>) -> Seq<char> {
    match file_stem(p) {
        Some(s) => s,
        None => p,
    }
}

pub fn slot_id_from_relative_path(relative_path: &str) -> (r: String)
    ensures
        r@ == canonical(stem_or_all(relative_path@)),
{
    let stem = match path_file_stem(relative_path) {
        Some(s) => string_of(s.as_slice()),
        None => relative_path.to_string(),
    };
    canonical_token(stem.as_str())
}

// ---------------------------------------------------------------------------
// Titles
// ---------------------------------------------------------------------------

/// Whether a character separates words of a title: whitespace, `_` or `-`.
pub open spec fn word_break(c: char) -> bool {
    crate::text::is_ws(c) || c == '_' || c == '-'
}

pub open spec fn word_state(s: Seq<char>) -> (Seq<Seq<char>>, Seq<char>)
    decreases s.len(),
{
    if s.len() == 0 {
        (seq![], seq![])
    } else {
        let (done, cur) = word_state(s.drop_last());
        if word_break(s.last()) {
            if cur.len() > 0 {
                (done.push(cur), seq![])
            } else {
                (done, seq![])
            }
        } else {
            (done, cur.push(s.last()))
        }
    }
}

/// The words of a text, split at whitespace, `_` and `-`.
pub open spec fn words(s: Seq<char>) -> Seq<Seq<char>> {
    let (done, cur) = word_state(s);
    if cur.len() > 0 {
        done.push(cur)
    } else {
        done
    }
}

/// A word with its first character in ASCII upper case.
pub open spec fn capitalized(w: Seq<char>) -> Seq<char> {
    if w.len() == 0 {
        w
    } else {
        seq![crate::steamdeck::scanner::upper_char(w[0])] + w.drop_first()
    }
}

/// A text as a title: its words capitalised, joined by spaces; `Default`
/// when it has none.
pub open spec fn titleized(s: Seq<char>) -> Seq<char> {
    let ws = words(s);
    if ws.len() == 0 {
        "Default"@
    } else {
        crate::text::join_with(ws.map_values(|w: Seq<char>| capitalized(w)), " "@)
    }
}

fn capitalize(w: &Vec<char>) -> (r: String)
    ensures
        r@ == capitalized(w@),
{
    if w.len() == 0 {
        return String::new();
    }
    let mut out: Vec<char> = Vec::new();
    out.push(crate::steamdeck::scanner::upper_of(w[0]));
    let mut i: usize = 1;
    while i < w.len()
        invariant
            1 <= i <= w@.len(),
            out@ == seq![crate::steamdeck::scanner::upper_char(w@[0])] + w@.subrange(1, i as int),
        decreases w@.len() - i,
    {
        out.push(w[i]);
        i = i + 1;
        assert(out@ =~= seq![crate::steamdeck::scanner::upper_char(w@[0])] + w@.subrange(1, i as int));
    }
    assert(w@.subrange(1, w@.len() as int) =~= w@.drop_first());
    string_of(out.as_slice())
}

pub fn titleize_token(value: &str) -> (r: String)
    ensures
        r@ == titleized(value@),
{
    let v = chars_of(value);
    let mut done: Vec<Vec<char>> = Vec::new();
    let mut cur: Vec<char> = Vec::new();
    let mut i: usize = 0;
    while i < v.len()
        invariant
            0 <= i <= v@.len(),
            (done.deep_view(), cur@) == word_state(v@.subrange(0, i as int)),
        decreases v@.len() - i,
    {
        assert(v@.subrange(0, i + 1).drop_last() =~= v@.subrange(0, i as int));
        let c = v[i];
        if crate::text::is_ws_char(c) || c == '_' || c == '-' {
            if cur.len() > 0 {
                let ghost before = done.deep_view();
                assert(cur.deep_view() =~= cur@);
                done.push(cur);
                assert(done.deep_view() =~= before.push(cur@));
            }
            cur = Vec::new();
        } else {
            cur.push(c);
        }
        i = i + 1;
    }
    assert(v@.subrange(0, v@.len() as int) =~= v@);
    if cur.len() > 0 {
        let ghost before = done.deep_view();
        assert(cur.deep_view() =~= cur@);
        done.push(cur);
        assert(done.deep_view() =~= before.push(cur@));
    }
    if done.len() == 0 {
        return owned("Default");
    }
    let ghost ws = done.deep_view();
    let mut caps: Vec<String> = Vec::new();
    let mut j: usize = 0;
    while j < done.len()
        invariant
            0 <= j <= done@.len(),
            ws == done.deep_view(),
            caps@.len() == j,
            forall|k: int| 0 <= k < j ==> (#[trigger] caps@[k])@ == capitalized(ws[k]),
        decreases done@.len() - j,
    {
        let c = capitalize(&done[j]);
        assert(done@[j as int]@ == ws[j as int]);
        caps.push(c);
        j = j + 1;
    }
    assert(caps.deep_view() =~= ws.map_values(|w: Seq<char>| capitalized(w)));
    join_strings_of(&caps)
}

fn join_strings_of(parts: &Vec<String>) -> (r: String)
    ensures
        r@ == crate::text::join_with(parts.deep_view(), " "@),
{
    crate::text::join_strings(parts, " ")
}

/// `value` with every leading `file` removed.
pub open spec fn strip_file(s: Seq<char>) -> Seq<char>
    decreases s.len(),
{
    if s.len() >= 4 && starts_with(s, "file"@) {
        strip_file(s.subrange(4, s.len() as int))
    } else {
        s
    }
}

fn strip_file_exec(v: &[char]) -> (r: Vec<char>)
    ensures
        r@ == strip_file(v@),
{
    let mut start: usize = 0;
    let file: Vec<char> = vec!['f', 'i', 'l', 'e'];
    proof {
        reveal_strlit("file");
    }
    assert(file@ =~= "file"@);
    assert(v@.subrange(0, v@.len() as int) =~= v@);
    loop
        invariant
            0 <= start <= v@.len(),
            file@ == "file"@,
            "file"@.len() == 4,
            strip_file(v@) == strip_file(v@.subrange(start as int, v@.len() as int)),
        ensures
            0 <= start <= v@.len(),
            strip_file(v@) == v@.subrange(start as int, v@.len() as int),
        decreases v@.len() - start,
    {
        let ghost rest = v@.subrange(start as int, v@.len() as int);
        if !occurs_at_exec(v, file.as_slice(), start) {
            assert(!(rest.len() >= 4 && starts_with(rest, "file"@))) by {
                if rest.len() >= 4 && starts_with(rest, "file"@) {
                    assert(v@.subrange(start as int, start + 4) =~= rest.subrange(0, 4));
                }
            }
            break;
        }
        assert(start + 4 <= v@.len());
        assert(v@.len() == v.len());
        assert(rest.subrange(0, 4) =~= v@.subrange(start as int, start + 4));
        assert(rest.subrange(4, rest.len() as int) =~= v@.subrange(start + 4, v@.len() as int));
        start = start + 4;
    }
    let n = v.len();
    crate::text::slice_vec(v, start, n)
}

/// The label of a save slot, from its file stem (or the whole path without
/// one): `Global`, `Save Select`, `Save Slot` and `Default` for those names
/// (any case), `File <n>` for `file<n>`, else the stem as a title.
pub open spec fn slot_label(p: Seq<char>) -> Seq<char> {
    let stem = stem_or_all(p);
    let l = lower(stem);
    if l == "global"@ {
        "Global"@
    } else if l == "savesel"@ {
        "Save Select"@
    } else if l == "saveslot"@ {
        "Save Slot"@
    } else if l == "default"@ {
        "Default"@
    } else if starts_with(l, "file"@) && l.len() > 4 {
        "File "@ + strip_file(l)
    } else {
        titleized(stem)
    }
}

pub fn slot_label_from_relative_path(relative_path: &str) -> (r: String)
    ensures
        r@ == slot_label(relative_path@),
{
    let stem = match path_file_stem(relative_path) {
        Some(s) => s,
        None => chars_of(relative_path),
    };
    let l = lower_vec(stem.as_slice());
    let ls = l.as_slice();
    if crate::text::eq_lit(ls, "global") {
        owned("Global")
    } else if crate::text::eq_lit(ls, "savesel") {
        owned("Save Select")
    } else if crate::text::eq_lit(ls, "saveslot") {
        owned("Save Slot")
    } else if crate::text::eq_lit(ls, "default") {
        owned("Default")
    } else if crate::text::starts_with_lit(ls, "file") && l.len() > 4 {
        let rest = strip_file_exec(ls);
        let mut out = owned("File ");
        out.append(string_of(rest.as_slice()).as_str());
        out
    } else {
        titleize_token(string_of(stem.as_slice()).as_str())
    }
}

// ---------------------------------------------------------------------------
// Paths of found saves
// ---------------------------------------------------------------------------

pub open spec fn piece_state(s: Seq<char>) -> (Seq<Seq<char>>, Seq<char>)
    decreases s.len(),
{
    if s.len() == 0 {
        (seq![], seq![])
    } else {
        let (done, cur) = piece_state(s.drop_last());
        if s.last() == '/' {
            if cur.len() > 0 && cur != "."@ {
                (done.push(cur), seq![])
            } else {
                (done, seq![])
            }
        } else {
            (done, cur.push(s.last()))
        }
    }
}

/// The pieces of a path between `/`, empty ones and `.` left out (as a
/// path's components are read).
pub open spec fn pieces(s: Seq<char>) -> Seq<Seq<char>> {
    let (done, cur) = piece_state(s);
    if cur.len() > 0 && cur != "."@ {
        done.push(cur)
    } else {
        done
    }
}

pub(crate) fn pieces_exec(v: &[char]) -> (r: Vec<Vec<char>>)
    ensures
        r.deep_view() == pieces(v@),
{
    proof {
        reveal_strlit(".");
    }
    let dot: Vec<char> = vec!['.'];
    assert(dot@ =~= "."@);
    let mut done: Vec<Vec<char>> = Vec::new();
    let mut cur: Vec<char> = Vec::new();
    let mut i: usize = 0;
    while i < v.len()
        invariant
            0 <= i <= v@.len(),
            dot@ == "."@,
            (done.deep_view(), cur@) == piece_state(v@.subrange(0, i as int)),
        decreases v@.len() - i,
    {
        assert(v@.subrange(0, i + 1).drop_last() =~= v@.subrange(0, i as int));
        let c = v[i];
        if c == '/' {
            if cur.len() > 0 && !seq_eq(cur.as_slice(), dot.as_slice()) {
                let ghost before = done.deep_view();
                assert(cur.deep_view() =~= cur@);
                done.push(cur);
                assert(done.deep_view() =~= before.push(cur@));
            }
            cur = Vec::new();
        } else {
            cur.push(c);
        }
        i = i + 1;
    }
    assert(v@.subrange(0, v@.len() as int) =~= v@);
    if cur.len() > 0 && !seq_eq(cur.as_slice(), dot.as_slice()) {
        let ghost before = done.deep_view();
        assert(cur.deep_view() =~= cur@);
        done.push(cur);
        assert(done.deep_view() =~= before.push(cur@));
    }
    done
}

/// A relative path that can be synced: not absolute, not blank, not starting
/// at `.`, and made of named pieces that are not blank (no `..`).
pub open spec fn safe_relative(value: Seq<char>) -> bool {
    let ps = pieces(value);
    &&& !starts_with(value, "/"@)
    &&& trim(value).len() > 0
    &&& !(value == "."@ || starts_with(value, "./"@))
    &&& forall|i: int| 0 <= i < ps.len() ==> #[trigger] ps[i] != ".."@ && trim(ps[i]).len() > 0
}

pub fn safe_relative_path(value: &str) -> (r: bool)
    ensures
        r == safe_relative(value@),
{
    let v = chars_of(value);
    let vs = v.as_slice();
    if crate::text::starts_with_lit(vs, "/") || trim_vec(vs).len() == 0 || crate::text::eq_lit(vs, ".")
        || crate::text::starts_with_lit(vs, "./") {
        return false;
    }
    let ps = pieces_exec(vs);
    let ghost pv = ps.deep_view();
    let mut i: usize = 0;
    while i < ps.len()
        invariant
            0 <= i <= ps@.len(),
            pv == ps.deep_view(),
            pv == pieces(value@),
            forall|k: int| 0 <= k < i ==> #[trigger] pv[k] != ".."@ && trim(pv[k]).len() > 0,
        decreases ps@.len() - i,
    {
        assert(ps@[i as int]@ == pv[i as int]);
        if crate::text::eq_lit(ps[i].as_slice(), "..") || trim_vec(ps[i].as_slice()).len() == 0 {
            return false;
        }
        i = i + 1;
    }
    true
}

/// The pieces of a path that name something (no `..`).
pub open spec fn named_pieces(ps: Seq<Seq<char>>) -> Seq<Seq<char>>
    decreases ps.len(),
{
    if ps.len() == 0 {
        ps
    } else if ps.last() == ".."@ {
        named_pieces(ps.drop_last())
    } else {
        named_pieces(ps.drop_last()).push(ps.last())
    }
}

/// The part of `path` under `root`, written with `/` between its named
/// pieces; none when `path` is not under `root` (both absolute or both
/// relative, and the root's pieces leading the path's).
pub open spec fn relative_under(root: Seq<char>, path: Seq<char>) -> Option<Seq<char>> {
    let rp = pieces(root);
    let pp = pieces(path);
    if starts_with(path, "/"@) == starts_with(root, "/"@) && rp.len() <= pp.len() && pp.subrange(0, rp.len() as int) == rp {
        Some(crate::text::join_with(named_pieces(pp.subrange(rp.len() as int, pp.len() as int)), "/"@))
    } else {
        None
    }
}

pub fn relative_path_under(root: &str, path: &str) -> (r: Option<String>)
    ensures
        match r {
            Some(v) => relative_under(root@, path@) == Some(v@),
            None => relative_under(root@, path@) is None,
        },
{
    let rv = chars_of(root);
    let pv = chars_of(path);
    let rs = pieces_exec(rv.as_slice());
    let ps = pieces_exec(pv.as_slice());
    if crate::text::starts_with_lit(pv.as_slice(), "/") != crate::text::starts_with_lit(rv.as_slice(), "/") {
        return None;
    }
    if rs.len() > ps.len() {
        return None;
    }
    let ghost rd = rs.deep_view();
    let ghost pd = ps.deep_view();
    let mut i: usize = 0;
    while i < rs.len()
        invariant
            0 <= i <= rs@.len(),
            rs@.len() <= ps@.len(),
            rd == rs.deep_view(),
            pd == ps.deep_view(),
            rd == pieces(root@),
            pd == pieces(path@),
            starts_with(path@, "/"@) == starts_with(root@, "/"@),
            forall|k: int| 0 <= k < i ==> pd[k] == rd[k],
        decreases rs@.len() - i,
    {
        assert(rs@[i as int]@ == rd[i as int]);
        assert(ps@[i as int]@ == pd[i as int]);
        if !seq_eq(rs[i].as_slice(), ps[i].as_slice()) {
            assert(pd.subrange(0, rd.len() as int)[i as int] != rd[i as int]);
            return None;
        }
        i = i + 1;
    }
    assert(pd.subrange(0, rd.len() as int) =~= rd);
    let mut named: Vec<String> = Vec::new();
    let mut j: usize = rs.len();
    while j < ps.len()
        invariant
            rs@.len() <= j <= ps@.len(),
            pd == ps.deep_view(),
            rd == rs.deep_view(),
            named.deep_view() == named_pieces(pd.subrange(rd.len() as int, j as int)),
        decreases ps@.len() - j,
    {
        let ghost sub = pd.subrange(rd.len() as int, j + 1);
        assert(sub.drop_last() =~= pd.subrange(rd.len() as int, j as int));
        assert(ps@[j as int]@ == pd[j as int]);
        if !crate::text::eq_lit(ps[j].as_slice(), "..") {
            let ghost before = named.deep_view();
            named.push(string_of(ps[j].as_slice()));
            assert(named.deep_view() =~= before.push(pd[j as int]));
        }
        j = j + 1;
    }
    Some(crate::text::join_strings(&named, "/"))
}

/// `str::strip_prefix` for the path under a port's folder: what follows
/// `prefix/` when the path starts with it.
pub open spec fn under_alias(rel: Seq<char>, prefix: Seq<char>) -> Seq<char> {
    if starts_with(rel, prefix) && starts_with(rel.subrange(prefix.len() as int, rel.len() as int), "/"@) {
        rel.subrange(prefix.len() + 1int, rel.len() as int)
    } else {
        rel
    }
}

/// A save found on disk recorded as a port save, or `None` where it does
/// not count: an empty file where the rule wants content, or a path that is
/// not safely relative to the scan root or to the port's folder.
pub open spec fn port_match_fields(
    root_rel: Seq<char>,
    alias: Seq<char>,
    size: u64,
    allow_empty: bool,
) -> Option<(Seq<char>, Seq<char>)> {
    let rel = under_alias(root_rel, crate::text::strip_trail(crate::text::strip_lead(alias, '/'), '/'));
    if !allow_empty && size == 0 {
        None
    } else if !safe_relative(root_rel) {
        None
    } else if !safe_relative(rel) {
        None
    } else {
        Some((root_rel, rel))
    }
}

/// A found port save that lies outside the root it was searched under.
#[derive(Debug, Clone, Copy, PartialEq, Eq)]
pub struct OutsideScanRoot;

/// Records a file found under a port's folder as a port save; see
/// `port_match_fields`.
pub fn port_save_match(
    scan_root: &str,
    path: &str,
    file_size: u64,
    root_alias: &str,
    manifest: &PortManifest,
    rule: &PortSaveRule,
) -> (r: Result<Option<PortSaveMatch>, OutsideScanRoot>)
    ensures
        (!rule.allow_empty && file_size == 0) ==> r == Ok::<Option<PortSaveMatch>, OutsideScanRoot>(None),
        !(!rule.allow_empty && file_size == 0) ==> match relative_under(scan_root@, path@) {
            None => r is Err,
            Some(root_rel) => match port_match_fields(root_rel, root_alias@, file_size, rule.allow_empty) {
                None => r == Ok::<Option<PortSaveMatch>, OutsideScanRoot>(None),
                Some((rr, rel)) => r matches Ok(Some(m)) && m.path@ == path@ && m.port_id@ == manifest.id@
                    && m.port_name@ == manifest.name@ && m.origin_system_slug@ == manifest.origin_system_slug@
                    && m.runtime_profile@ == manifest.runtime_profile@ && m.root_relative_path@ == rr
                    && m.relative_path@ == rel && m.slot_id@ == canonical(stem_or_all(rel))
                    && m.display_title@ == manifest.name@ + " - "@ + slot_label(rel),
            },
        },
{
    if !rule.allow_empty && file_size == 0 {
        return Ok(None);
    }
    let root_rel = match relative_path_under(scan_root, path) {
        Some(v) => v,
        None => {
            return Err(OutsideScanRoot);
        },
    };
    if !safe_relative_path(root_rel.as_str()) {
        return Ok(None);
    }
    let a = chars_of(root_alias);
    let a = crate::text::strip_lead_vec(a.as_slice(), '/');
    let a = crate::text::strip_trail_vec(a.as_slice(), '/');
    let rrv = chars_of(root_rel.as_str());
    let relv: Vec<char> = if starts_with_exec(rrv.as_slice(), a.as_slice()) {
        let n = rrv.len();
        let rest = crate::text::slice_vec(rrv.as_slice(), a.len(), n);
        if crate::text::starts_with_lit(rest.as_slice(), "/") {
            proof {
                reveal_strlit("/");
            }
            let m = rest.len();
            crate::text::slice_vec(rest.as_slice(), 1, m)
        } else {
            rrv.clone()
        }
    } else {
        rrv.clone()
    };
    proof {
        reveal_strlit("/");
        let prefix = crate::text::strip_trail(crate::text::strip_lead(root_alias@, '/'), '/');
        if starts_with(rrv@, prefix) && starts_with(rrv@.subrange(prefix.len() as int, rrv@.len() as int), "/"@) {
            assert(relv@ =~= rrv@.subrange(prefix.len() + 1int, rrv@.len() as int));
        }
    }
    let relative = string_of(relv.as_slice());
    if !safe_relative_path(relative.as_str()) {
        return Ok(None);
    }
    let slot_id = slot_id_from_relative_path(relative.as_str());
    let label = slot_label_from_relative_path(relative.as_str());
    let mut title = manifest.name.to_string();
    title.append(" - ");
    title.append(label.as_str());
    Ok(Some(PortSaveMatch {
        path: path.to_string(),
        port_id: manifest.id.to_string(),
        port_name: manifest.name.to_string(),
        origin_system_slug: manifest.origin_system_slug.to_string(),
        runtime_profile: manifest.runtime_profile.to_string(),
        relative_path: relative,
        root_relative_path: root_rel,
        slot_id,
        display_title: title,
    }))
}

// ---------------------------------------------------------------------------
// Ordering the matches
// ---------------------------------------------------------------------------

/// Folder-by-folder order of two lists of path pieces, each piece by
/// character (the order of `Path`).
pub open spec fn pieces_le(a: Seq<Seq<char>>, b: Seq<Seq<char>>) -> bool
    decreases a.len(),
{
    if a.len() == 0 {
        true
    } else if b.len() == 0 {
        false
    } else if a[0] != b[0] {
        crate::text::lex_lt(a[0], b[0])
    } else {
        pieces_le(a.drop_first(), b.drop_first())
    }
}

/// The order of paths: an absolute path before a relative one, then piece
/// by piece.
pub open spec fn path_le(a: Seq<char>, b: Seq<char>) -> bool {
    if starts_with(a, "/"@) != starts_with(b, "/"@) {
        starts_with(a, "/"@)
    } else {
        pieces_le(pieces(a), pieces(b))
    }
}

/// Whether two texts name the same path.
pub open spec fn same_path(a: Seq<char>, b: Seq<char>) -> bool {
    starts_with(a, "/"@) == starts_with(b, "/"@) && pieces(a) == pieces(b)
}

fn pieces_le_exec(a: &Vec<Vec<char>>, b: &Vec<Vec<char>>) -> (r: bool)
    ensures
        r == pieces_le(a.deep_view(), b.deep_view()),
{
    let mut i: usize = 0;
    assert(a.deep_view().subrange(0, a@.len() as int) =~= a.deep_view());
    assert(b.deep_view().subrange(0, b@.len() as int) =~= b.deep_view());
    while i < a.len() && i < b.len()
        invariant
            0 <= i <= a@.len(),
            i <= b@.len(),
            pieces_le(a.deep_view(), b.deep_view()) == pieces_le(
                a.deep_view().subrange(i as int, a@.len() as int),
                b.deep_view().subrange(i as int, b@.len() as int),
            ),
        decreases a@.len() - i,
    {
        let ghost sa = a.deep_view().subrange(i as int, a@.len() as int);
        let ghost sb = b.deep_view().subrange(i as int, b@.len() as int);
        assert(sa[0] == a@[i as int]@);
        assert(sb[0] == b@[i as int]@);
        if !seq_eq(a[i].as_slice(), b[i].as_slice()) {
            let le = crate::text::lex_le_exec(a[i].as_slice(), b[i].as_slice());
            return le;
        }
        assert(sa.drop_first() =~= a.deep_view().subrange(i + 1, a@.len() as int));
        assert(sb.drop_first() =~= b.deep_view().subrange(i + 1, b@.len() as int));
        i = i + 1;
    }
    i == a.len()
}

fn path_le_exec(a: &str, b: &str) -> (r: bool)
    ensures
        r == path_le(a@, b@),
{
    let av = chars_of(a);
    let bv = chars_of(b);
    let aa = crate::text::starts_with_lit(av.as_slice(), "/");
    let ba = crate::text::starts_with_lit(bv.as_slice(), "/");
    if aa != ba {
        return aa;
    }
    let ap = pieces_exec(av.as_slice());
    let bp = pieces_exec(bv.as_slice());
    pieces_le_exec(&ap, &bp)
}

fn same_path_exec(a: &str, b: &str) -> (r: bool)
    ensures
        r == same_path(a@, b@),
{
    let av = chars_of(a);
    let bv = chars_of(b);
    if crate::text::starts_with_lit(av.as_slice(), "/") != crate::text::starts_with_lit(bv.as_slice(), "/") {
        return false;
    }
    let ap = pieces_exec(av.as_slice());
    let bp = pieces_exec(bv.as_slice());
    if ap.len() != bp.len() {
        assert(ap.deep_view().len() != bp.deep_view().len());
        return false;
    }
    let mut i: usize = 0;
    while i < ap.len()
        invariant
            0 <= i <= ap@.len(),
            ap@.len() == bp@.len(),
            same_path(a@, b@) == (ap.deep_view() == bp.deep_view()),
            forall|k: int| 0 <= k < i ==> ap.deep_view()[k] == bp.deep_view()[k],
        decreases ap@.len() - i,
    {
        assert(ap.deep_view()[i as int] == ap@[i as int]@);
        assert(bp.deep_view()[i as int] == bp@[i as int]@);
        if !seq_eq(ap[i].as_slice(), bp[i].as_slice()) {
            assert(ap.deep_view()[i as int] != bp.deep_view()[i as int]);
            assert(ap.deep_view() != bp.deep_view());
            return false;
        }
        i = i + 1;
    }
    assert(ap.deep_view() =~= bp.deep_view());
    true
}

/// A match put into a list sorted by path, after those not above it.
pub open spec fn insert_by_path(sorted: Seq<PortSaveMatch>, x: PortSaveMatch) -> Seq<PortSaveMatch>
    decreases sorted.len(),
{
    if sorted.len() == 0 {
        seq![x]
    } else if path_le(sorted.last().path@, x.path@) {
        sorted.push(x)
    } else {
        insert_by_path(sorted.drop_last(), x).push(sorted.last())
    }
}

/// The matches stably sorted by path.
pub open spec fn sorted_by_path(s: Seq<PortSaveMatch>) -> Seq<PortSaveMatch>
    decreases s.len(),
{
    if s.len() == 0 {
        seq![]
    } else {
        insert_by_path(sorted_by_path(s.drop_last()), s.last())
    }
}

/// The matches without one for the path of the match kept just before it.
pub open spec fn dedup_by_path(s: Seq<PortSaveMatch>) -> Seq<PortSaveMatch>
    decreases s.len(),
{
    if s.len() == 0 {
        seq![]
    } else {
        let prev = dedup_by_path(s.drop_last());
        if prev.len() > 0 && same_path(prev.last().path@, s.last().path@) {
            prev
        } else {
            prev.push(s.last())
        }
    }
}

proof fn lemma_insert_by_path_at(sorted: Seq<PortSaveMatch>, x: PortSaveMatch, p: int)
    requires
        0 <= p <= sorted.len(),
        forall|k: int| p <= k < sorted.len() ==> !path_le(#[trigger] sorted[k].path@, x.path@),
        p > 0 ==> path_le(sorted[p - 1].path@, x.path@),
    ensures
        insert_by_path(sorted, x) == sorted.insert(p, x),
    decreases sorted.len(),
{
    if sorted.len() == 0 {
        assert(sorted.insert(p, x) =~= seq![x]);
    } else if p == sorted.len() {
        assert(sorted.insert(p, x) =~= sorted.push(x));
    } else {
        let d = sorted.drop_last();
        assert forall|k: int| p <= k < d.len() implies !path_le(#[trigger] d[k].path@, x.path@) by {
            assert(d[k] == sorted[k]);
        }
        lemma_insert_by_path_at(d, x, p);
        assert(d.insert(p, x).push(sorted.last()) =~= sorted.insert(p, x));
    }
}

fn insert_match(sorted: &mut Vec<PortSaveMatch>, x: PortSaveMatch)
    ensures
        final(sorted)@ == insert_by_path(old(sorted)@, x),
{
    let mut p: usize = sorted.len();
    while p > 0 && !path_le_exec(sorted[p - 1].path.as_str(), x.path.as_str())
        invariant
            0 <= p <= sorted@.len(),
            sorted@ == old(sorted)@,
            forall|k: int| p <= k < sorted@.len() ==> !path_le(#[trigger] sorted@[k].path@, x.path@),
        decreases p,
    {
        p = p - 1;
    }
    proof {
        lemma_insert_by_path_at(sorted@, x, p as int);
    }
    sorted.insert(p, x);
}

/// The port saves found, sorted by path, each path once.
pub fn sort_port_matches(matches: Vec<PortSaveMatch>) -> (r: Vec<PortSaveMatch>)
    ensures
        r@ == dedup_by_path(sorted_by_path(matches@)),
{
    let ghost all = matches@;
    let mut rest = matches;
    let mut sorted: Vec<PortSaveMatch> = Vec::new();
    let n = rest.len();
    let mut i: usize = 0;
    while rest.len() > 0
        invariant
            n == all.len(),
            i + rest@.len() == n,
            rest@ == all.subrange(i as int, n as int),
            sorted@ == sorted_by_path(all.subrange(0, i as int)),
        decreases rest@.len(),
    {
        let x = rest.remove(0);
        assert(x == all[i as int]);
        assert(rest@ =~= all.subrange(i + 1, n as int));
        assert(all.subrange(0, i + 1).drop_last() =~= all.subrange(0, i as int));
        assert(all.subrange(0, i + 1).last() == all[i as int]);
        insert_match(&mut sorted, x);
        i = i + 1;
    }
    assert(all.subrange(0, n as int) =~= all);
    let ghost sv = sorted@;
    let mut out: Vec<PortSaveMatch> = Vec::new();
    let m = sorted.len();
    let mut j: usize = 0;
    while sorted.len() > 0
        invariant
            m == sv.len(),
            j + sorted@.len() == m,
            sorted@ == sv.subrange(j as int, m as int),
            out@ == dedup_by_path(sv.subrange(0, j as int)),
        decreases sorted@.len(),
    {
        let x = sorted.remove(0);
        assert(x == sv[j as int]);
        assert(sorted@ =~= sv.subrange(j + 1, m as int));
        assert(sv.subrange(0, j + 1).drop_last() =~= sv.subrange(0, j as int));
        assert(sv.subrange(0, j + 1).last() == sv[j as int]);
        let same = out.len() > 0 && same_path_exec(out[out.len() - 1].path.as_str(), x.path.as_str());
        if !same {
            out.push(x);
        }
        j = j + 1;
    }
    assert(sv.subrange(0, m as int) =~= sv);
    out
}

} // verus!

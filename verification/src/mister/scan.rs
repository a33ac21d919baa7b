//! Finding sources: which folders a scan looks at and skips, and how the
//! sources it finds join the configured ones.
use vstd::prelude::*;
use crate::mister::sources::{
    EmulatorProfile, Source, SourceKind, default_layout, default_source, kind_name, default_profile, default_profile_for_kind, default_systems,
    default_systems_for_kind, first_or, normalize_source_id, source_id,
};
use crate::mister::backend_config::SourceFacts;
use crate::mister::config::AppConfig;
use crate::mister::state::{now_rfc3339, unix_timestamp_now};
use crate::mister::writeback::stored_facts;
use crate::num::{decimal_text, i64_text, signed_text, u64_text};
use crate::paths::{file_name, join_path, path_file_name, path_join};
use crate::text::{
    chars_of, concat2, concat3, contains, contains_lit, insert_sorted_unique, lex_le, lex_le_exec, lower,
    lower_str, owned, string_of, strictly_sorted, strings_contain,
};

verus! {

// ---------------------------------------------------------------------------
// Folders a deep scan skips
// ---------------------------------------------------------------------------

/// Whether a deep scan skips a path: its lower-cased text holds a system,
/// temporary, container or build folder.
pub open spec fn skipped_scan_path(p: Seq<char>) -> bool {
    let l = lower(p);
    contains(l, "/proc"@) || contains(l, "/sys"@) || contains(l, "/dev"@) || contains(l, "/run"@)
        || contains(l, "/tmp"@) || contains(l, "/var/lib/docker"@) || contains(l, "\\windows\\winsxs"@)
        || contains(l, "\\windows\\system32\\driverstore"@) || contains(l, "/node_modules"@)
        || contains(l, "/.git"@) || contains(l, "/target"@)
}

pub fn is_skipped_deep_scan_path(path: &str) -> (r: bool)
    ensures
        r == skipped_scan_path(path@),
{
    let l = lower_str(path);
    let l = l.as_slice();
    contains_lit(l, "/proc") || contains_lit(l, "/sys") || contains_lit(l, "/dev") || contains_lit(l, "/run")
        || contains_lit(l, "/tmp") || contains_lit(l, "/var/lib/docker") || contains_lit(l, "\\windows\\winsxs")
        || contains_lit(l, "\\windows\\system32\\driverstore") || contains_lit(l, "/node_modules")
        || contains_lit(l, "/.git") || contains_lit(l, "/target")
}

// ---------------------------------------------------------------------------
// Unique ids
// ---------------------------------------------------------------------------

/// `base_n`.
pub open spec fn numbered(base: Seq<char>, n: nat) -> Seq<char> {
    base + "_"@ + decimal_text(n)
}

/// The first number from `n` on, below 10000, whose `base_n` is not taken;
/// 10000 when there is none.
pub open spec fn first_free(taken: Seq<Seq<char>>, base: Seq<char>, n: nat) -> nat
    decreases 10000 - n,
{
    if n >= 10000 {
        10000
    } else if !taken.contains(numbered(base, n)) {
        n
    } else {
        first_free(taken, base, n + 1)
    }
}

/// An id made unique against the taken ones: the base itself when it is
/// free, else `base_n` for the first free `n` from 2, else (all of them
/// taken) `base_` and the current Unix time.
pub open spec fn deduped(taken: Seq<Seq<char>>, base: Seq<char>, r: Seq<char>) -> bool {
    if !taken.contains(base) {
        r == base
    } else if first_free(taken, base, 2) < 10000 {
        r == numbered(base, first_free(taken, base, 2))
    } else {
        exists|t: int| r == base + "_"@ + signed_text(t)
    }
}

pub fn dedupe_id(base: &str, existing: &Vec<String>) -> (r: String)
    ensures
        deduped(existing.deep_view(), base@, r@),
{
    if !strings_contain(existing, base) {
        return owned(base);
    }
    let ghost taken = existing.deep_view();
    let mut idx: u64 = 2;
    while idx < 10000
        invariant
            2 <= idx <= 10000,
            taken == existing.deep_view(),
            taken.contains(base@),
            first_free(taken, base@, 2) == first_free(taken, base@, idx as nat),
        decreases 10000 - idx,
    {
        let candidate = concat3(base, "_", u64_text(idx).as_str());
        assert(candidate@ == numbered(base@, idx as nat));
        if !strings_contain(existing, candidate.as_str()) {
            assert(first_free(taken, base@, idx as nat) == idx);
            return candidate;
        }
        idx = idx + 1;
    }
    let r = concat3(base, "_", i64_text(unix_timestamp_now()).as_str());
    assert(exists|t: int| r@ == base@ + "_"@ + signed_text(t));
    r
}

// ---------------------------------------------------------------------------
// Joining scanned sources to the configured ones
// ---------------------------------------------------------------------------

pub open spec fn unmanaged() -> spec_fn(Source) -> bool {
    |s: Source| !s.managed
}

pub open spec fn ids_of(s: Seq<Source>) -> Seq<Seq<char>> {
    s.map_values(|x: Source| x.id@)
}

fn source_ids(v: &Vec<Source>) -> (r: Vec<String>)
    ensures
        r.deep_view() == ids_of(v@),
{
    let mut out: Vec<String> = Vec::new();
    let mut i: usize = 0;
    while i < v.len()
        invariant
            0 <= i <= v@.len(),
            out.deep_view() == ids_of(v@.subrange(0, i as int)),
        decreases v@.len() - i,
    {
        let ghost before = out.deep_view();
        out.push(v[i].id.clone());
        assert(out.deep_view() =~= before.push(v@[i as int].id@));
        i = i + 1;
        assert(ids_of(v@.subrange(0, i as int)) =~= ids_of(v@.subrange(0, i - 1)).push(v@[i - 1].id@));
    }
    assert(v@.subrange(0, v@.len() as int) =~= v@);
    out
}

/// Keeps the sources the helper does not manage, in order.
fn drop_managed(sources: &mut Vec<Source>)
    ensures
        final(sources)@ == old(sources)@.filter(unmanaged()),
{
    let ghost orig = sources@;
    let ghost pred = unmanaged();
    let ghost mut j: int = 0;
    let mut i: usize = 0;
    while i < sources.len()
        invariant
            0 <= i <= sources@.len(),
            0 <= j <= orig.len(),
            sources@.len() - i == orig.len() - j,
            pred == unmanaged(),
            sources@.subrange(0, i as int) == orig.subrange(0, j).filter(pred),
            sources@.subrange(i as int, sources@.len() as int) == orig.subrange(j, orig.len() as int),
        decreases sources@.len() - i,
    {
        proof {
            reveal(Seq::filter);
            assert(sources@[i as int] == orig[j]) by {
                assert(sources@.subrange(i as int, sources@.len() as int)[0] == orig.subrange(j, orig.len() as int)[0]);
            }
            assert(orig.subrange(0, j + 1).drop_last() =~= orig.subrange(0, j));
            assert(orig.subrange(0, j + 1).last() == orig[j]);
        }
        if sources[i].managed {
            let ghost before = sources@;
            let _gone = sources.remove(i);
            proof {
                assert(sources@.subrange(0, i as int) =~= before.subrange(0, i as int));
                assert(sources@.subrange(i as int, sources@.len() as int) =~= before.subrange(i + 1, before.len() as int));
                assert(orig.subrange(j + 1, orig.len() as int) =~= orig.subrange(j, orig.len() as int).subrange(1, orig.len() - j));
                assert(before.subrange(i + 1, before.len() as int) =~= before.subrange(i as int, before.len() as int).subrange(1, before.len() - i));
                j = j + 1;
            }
        } else {
            proof {
                let e = sources@;
                assert(e.subrange(0, i + 1) =~= e.subrange(0, i as int).push(e[i as int]));
                assert(orig.subrange(j + 1, orig.len() as int) =~= orig.subrange(j, orig.len() as int).subrange(1, orig.len() - j));
                assert(e.subrange(i + 1, e.len() as int) =~= e.subrange(i as int, e.len() as int).subrange(1, e.len() - i));
                j = j + 1;
            }
            i = i + 1;
        }
    }
    proof {
        assert(sources@.subrange(0, i as int) =~= sources@);
        assert(orig.subrange(j, orig.len() as int).len() == 0);
        assert(orig.subrange(0, j) =~= orig);
    }
}

/// The configured sources after a scan: those the helper does not manage,
/// in order, then the scanned ones, each with its id made unique against
/// the kept sources' ids.
pub fn replace_managed_sources(existing: Vec<Source>, replacements: Vec<Source>) -> (r: Vec<Source>)
    ensures
        ({
            let kept = existing@.filter(unmanaged());
            &&& r@.len() == kept.len() + replacements@.len()
            &&& r@.subrange(0, kept.len() as int) == kept
            &&& forall|i: int| 0 <= i < replacements@.len() ==> {
                &&& #[trigger] r@[kept.len() + i] == (Source { id: r@[kept.len() + i].id, ..replacements@[i] })
                &&& deduped(ids_of(kept), replacements@[i].id@, r@[kept.len() + i].id@)
            }
        }),
{
    let mut out = existing;
    drop_managed(&mut out);
    let ghost kept = out@;
    let ids = source_ids(&out);
    let mut rest = replacements;
    let ghost orig = rest@;
    let n = rest.len();
    let mut i: usize = 0;
    while rest.len() > 0
        invariant
            n == orig.len(),
            i + rest@.len() == orig.len(),
            rest@ == orig.subrange(i as int, orig.len() as int),
            out@.len() == kept.len() + i,
            out@.subrange(0, kept.len() as int) == kept,
            ids.deep_view() == ids_of(kept),
            forall|k: int| 0 <= k < i ==> {
                &&& #[trigger] out@[kept.len() + k] == (Source { id: out@[kept.len() + k].id, ..orig[k] })
                &&& deduped(ids_of(kept), orig[k].id@, out@[kept.len() + k].id@)
            },
        decreases rest@.len(),
    {
        let ghost before = out@;
        let mut x = rest.remove(0);
        assert(x == orig[i as int]);
        let new_id = dedupe_id(x.id.as_str(), &ids);
        x.id = new_id;
        out.push(x);
        proof {
            assert(out@.subrange(0, kept.len() as int) =~= before.subrange(0, kept.len() as int));
            assert(rest@ =~= orig.subrange(i + 1, orig.len() as int));
            assert forall|k: int| 0 <= k < i + 1 implies {
                &&& #[trigger] out@[kept.len() + k] == (Source { id: out@[kept.len() + k].id, ..orig[k] })
                &&& deduped(ids_of(kept), orig[k].id@, out@[kept.len() + k].id@)
            } by {
                if k < i {
                    assert(out@[kept.len() + k] == before[kept.len() + k]);
                }
            }
        }
        i = i + 1;
    }
    assert(orig.subrange(i as int, orig.len() as int).len() == 0);
    out
}

proof fn lemma_first_free_is_least(taken: Seq<Seq<char>>, base: Seq<char>, n: nat)
    requires
        first_free(taken, base, n) < 10000,
    ensures
        n <= first_free(taken, base, n),
        !taken.contains(numbered(base, first_free(taken, base, n))),
        forall|m: nat| n <= m < first_free(taken, base, n) ==> taken.contains(#[trigger] numbered(base, m)),
    decreases 10000 - n,
{
    if n < 10000 && taken.contains(numbered(base, n)) {
        lemma_first_free_is_least(taken, base, n + 1);
    }
}

/// A scanned source whose id is taken by a kept source gets the first free
/// `id_k`, `k` from 2 on: `id_k` is free and every `id_m` before it is taken.
pub proof fn law_taken_id_gets_least_free_suffix(taken: Seq<Seq<char>>, base: Seq<char>, r: Seq<char>)
    requires
        deduped(taken, base, r),
        taken.contains(base),
        first_free(taken, base, 2) < 10000,
    ensures
        exists|k: nat| {
            &&& 2 <= k
            &&& r == #[trigger] numbered(base, k)
            &&& !taken.contains(r)
            &&& forall|m: nat| 2 <= m < k ==> taken.contains(#[trigger] numbered(base, m))
        },
{
    lemma_first_free_is_least(taken, base, 2);
    let k = first_free(taken, base, 2);
    assert(r == numbered(base, k));
}

/// A scan keeps every source the helper does not manage, in order, and no
/// source it manages.
pub proof fn law_scan_keeps_only_unmanaged(existing: Seq<Source>)
    ensures
        forall|i: int| 0 <= i < existing.filter(unmanaged()).len() ==> !(#[trigger] existing.filter(unmanaged())[i]).managed,
        forall|i: int| 0 <= i < existing.len() && !(#[trigger] existing[i]).managed ==> existing.filter(unmanaged()).contains(existing[i]),
{
    assert forall|i: int| 0 <= i < existing.filter(unmanaged()).len() implies !(#[trigger] existing.filter(unmanaged())[i]).managed by {
        existing.lemma_filter_pred(unmanaged(), i);
    }
    assert forall|i: int| 0 <= i < existing.len() && !(#[trigger] existing[i]).managed implies existing.filter(unmanaged()).contains(existing[i]) by {
        existing.lemma_filter_contains(unmanaged(), i);
    }
}

// ---------------------------------------------------------------------------
// Which scans run before a sync
// ---------------------------------------------------------------------------

/// `--apply-scan` was given without `--deep-scan`.
#[derive(Debug, Clone, Copy, PartialEq, Eq)]
pub struct ApplyScanWithoutDeepScan;

impl ApplyScanWithoutDeepScan {
    /// The message shown for the error.
    pub fn message(&self) -> (r: String)
        ensures
            r@ == "--apply-scan werkt alleen samen met --deep-scan"@,
    {
        owned("--apply-scan werkt alleen samen met --deep-scan")
    }
}

/// Refuses `--apply-scan` without `--deep-scan`; nothing else is refused.
pub fn check_scan_flags(deep_scan: bool, apply_scan: bool) -> (r: Result<(), ApplyScanWithoutDeepScan>)
    ensures
        r is Err <==> (apply_scan && !deep_scan),
{
    if apply_scan && !deep_scan {
        Err(ApplyScanWithoutDeepScan)
    } else {
        Ok(())
    }
}

/// One scan that runs before a sync.
#[derive(Debug, Clone, Copy, PartialEq, Eq, Structural)]
pub enum ScanStep {
    /// No source is configured: the known places are scanned and the result
    /// becomes the configured sources.
    FirstRun,
    /// `--scan`: the known places are scanned and the result replaces the
    /// managed sources.
    KnownScan,
    /// `--deep-scan`: a report is written; with `apply`, the result replaces
    /// the managed sources.
    DeepScan { apply: bool },
}

/// The scans a sync runs, in order: the first-run scan when no source is
/// configured, then `--scan`, then `--deep-scan`.
pub open spec fn scan_steps(store_is_empty: bool, scan: bool, deep_scan: bool, apply_scan: bool) -> Seq<ScanStep> {
    (if store_is_empty { seq![ScanStep::FirstRun] } else { seq![] })
        + (if scan { seq![ScanStep::KnownScan] } else { seq![] })
        + (if deep_scan { seq![ScanStep::DeepScan { apply: apply_scan }] } else { seq![] })
}

/// The scans to run before a sync; see `scan_steps`.
pub fn plan_source_scans(store_is_empty: bool, scan: bool, deep_scan: bool, apply_scan: bool) -> (r: Vec<ScanStep>)
    ensures
        r@ == scan_steps(store_is_empty, scan, deep_scan, apply_scan),
{
    let mut steps: Vec<ScanStep> = Vec::new();
    if store_is_empty {
        steps.push(ScanStep::FirstRun);
    }
    if scan {
        steps.push(ScanStep::KnownScan);
    }
    if deep_scan {
        steps.push(ScanStep::DeepScan { apply: apply_scan });
    }
    assert(steps@ =~= scan_steps(store_is_empty, scan, deep_scan, apply_scan));
    steps
}

/// The sources a known-places scan yields: those found, or the fallback
/// source where none was found.
pub fn found_or_fallback(found: Vec<Source>, fallback: Source) -> (r: Vec<Source>)
    ensures
        found@.len() == 0 ==> r@ == seq![fallback],
        found@.len() > 0 ==> r@ == found@,
{
    if found.len() == 0 {
        vec![fallback]
    } else {
        found
    }
}

// ---------------------------------------------------------------------------
// Moving the old JSON source list into the configuration
// ---------------------------------------------------------------------------

/// A source as the old JSON source list held it.
#[derive(Debug, Clone)]
pub struct LegacySource {
    pub name: String,
    pub kind: SourceKind,
    pub save_roots: Vec<String>,
    pub rom_roots: Vec<String>,
    pub recursive: bool,
    pub created_at: Option<String>,
}

/// The id a legacy source starts from: the one derived from its name, or
/// `source` where that is empty.
pub open spec fn legacy_base_id(name: Seq<char>) -> Seq<char> {
    if source_id(name).len() == 0 {
        "source"@
    } else {
        source_id(name)
    }
}

/// What a legacy source becomes under the id `id`: its first save root (or
/// `.`) and its first ROM root (or the save root), the kind's default
/// profile and systems, unmanaged, of origin `legacy-migrated`.
pub open spec fn migrated(l: LegacySource, id: Seq<char>) -> SourceFacts {
    let save = first_or(l.save_roots.deep_view(), "."@);
    SourceFacts {
        id,
        name: l.name@,
        kind: l.kind,
        profile: default_profile(l.kind),
        save_roots: seq![save],
        rom_roots: seq![first_or(l.rom_roots.deep_view(), save)],
        recursive: l.recursive,
        systems: default_systems(l.kind),
        create_missing_system_dirs: false,
        managed: false,
        origin: "legacy-migrated"@,
    }
}

fn first_root(roots: &Vec<String>, fallback: &String) -> (r: String)
    ensures
        r@ == first_or(roots.deep_view(), fallback@),
{
    if roots.len() > 0 {
        roots[0].clone()
    } else {
        fallback.clone()
    }
}

fn migrate_one(item: LegacySource, id: String) -> (r: Source)
    ensures
        stored_facts(r) == migrated(item, id@),
        item.created_at matches Some(c) ==> r.created_at == c,
{
    let dot = owned(".");
    let save = first_root(&item.save_roots, &dot);
    let rom = first_root(&item.rom_roots, &save);
    let save_roots = vec![save];
    let rom_roots = vec![rom];
    let kind = item.kind;
    let created_at = match item.created_at {
        Some(c) => c,
        None => now_rfc3339(),
    };
    let r = Source {
        id,
        name: item.name,
        kind,
        profile: default_profile_for_kind(&kind),
        save_roots,
        rom_roots,
        recursive: item.recursive,
        systems: default_systems_for_kind(&kind),
        create_missing_system_dirs: false,
        managed: false,
        origin: owned("legacy-migrated"),
        created_at,
    };
    assert(stored_facts(r) =~= migrated(item, r.id@));
    r
}

/// The configured sources made from the old JSON source list, in order,
/// each with its id made unique against the ids given before it.
pub fn migrate_legacy_sources(items: Vec<LegacySource>) -> (r: Vec<Source>)
    ensures
        r@.len() == items@.len(),
        forall|i: int| 0 <= i < items@.len() ==> {
            &&& stored_facts(#[trigger] r@[i]) == migrated(items@[i], r@[i].id@)
            &&& deduped(ids_of(r@.subrange(0, i)), legacy_base_id(items@[i].name@), r@[i].id@)
            &&& (items@[i].created_at matches Some(c) ==> r@[i].created_at == c)
        },
{
    let mut out: Vec<Source> = Vec::new();
    let mut seen: Vec<String> = Vec::new();
    let mut rest = items;
    let ghost orig = rest@;
    let n = rest.len();
    let mut i: usize = 0;
    while rest.len() > 0
        invariant
            n == orig.len(),
            i + rest@.len() == orig.len(),
            rest@ == orig.subrange(i as int, orig.len() as int),
            out@.len() == i,
            seen.deep_view() == ids_of(out@),
            forall|k: int| 0 <= k < i ==> {
                &&& stored_facts(#[trigger] out@[k]) == migrated(orig[k], out@[k].id@)
                &&& deduped(ids_of(out@.subrange(0, k)), legacy_base_id(orig[k].name@), out@[k].id@)
                &&& (orig[k].created_at matches Some(c) ==> out@[k].created_at == c)
            },
        decreases rest@.len(),
    {
        let item = rest.remove(0);
        assert(item == orig[i as int]);
        assert(rest@ =~= orig.subrange(i + 1, orig.len() as int));
        let b0 = normalize_source_id(item.name.as_str());
        let base = if chars_of(b0.as_str()).len() == 0 {
            owned("source")
        } else {
            b0
        };
        assert(base@ == legacy_base_id(item.name@));
        let id = dedupe_id(base.as_str(), &seen);
        let ghost before = out@;
        let ghost seen_before = seen.deep_view();
        seen.push(id.clone());
        let src = migrate_one(item, id);
        out.push(src);
        proof {
            assert(before =~= out@.subrange(0, i as int));
            assert(seen.deep_view() =~= seen_before.push(src.id@));
            assert(ids_of(out@) =~= ids_of(before).push(src.id@));
            assert forall|k: int| 0 <= k < i + 1 implies {
                &&& stored_facts(#[trigger] out@[k]) == migrated(orig[k], out@[k].id@)
                &&& deduped(ids_of(out@.subrange(0, k)), legacy_base_id(orig[k].name@), out@[k].id@)
                &&& (orig[k].created_at matches Some(c) ==> out@[k].created_at == c)
            } by {
                assert(out@.subrange(0, k) =~= before.subrange(0, k));
                if k < i {
                    assert(out@[k] == before[k]);
                }
            }
        }
        i = i + 1;
    }
    out
}

// ---------------------------------------------------------------------------
// The folders a scan looks at first
// ---------------------------------------------------------------------------

/// A folder a scan looks for saves in, and the source it would become.
#[derive(Debug, Clone)]
pub struct CandidatePath {
    pub id: String,
    pub label: String,
    pub kind: SourceKind,
    pub profile: EmulatorProfile,
    pub save_path: String,
    pub rom_path: String,
    pub recursive: bool,
    pub origin: String,
}

/// A candidate folder as plain values.
pub struct CandidateView {
    pub id: Seq<char>,
    pub label: Seq<char>,
    pub kind: SourceKind,
    pub profile: EmulatorProfile,
    pub save_path: Seq<char>,
    pub rom_path: Seq<char>,
    pub recursive: bool,
    pub origin: Seq<char>,
}

pub open spec fn cview(c: CandidatePath) -> CandidateView {
    CandidateView {
        id: c.id@,
        label: c.label@,
        kind: c.kind,
        profile: c.profile,
        save_path: c.save_path@,
        rom_path: c.rom_path@,
        recursive: c.recursive,
        origin: c.origin@,
    }
}

pub open spec fn cviews(s: Seq<CandidatePath>) -> Seq<CandidateView> {
    s.map_values(|c: CandidatePath| cview(c))
}

/// A known folder: recursive, of origin `autoscan-known`.
pub open spec fn known(
    id: Seq<char>,
    label: Seq<char>,
    kind: SourceKind,
    profile: EmulatorProfile,
    save: Seq<char>,
    rom: Seq<char>,
) -> CandidateView {
    CandidateView { id, label, kind, profile, save_path: save, rom_path: rom, recursive: true, origin: "autoscan-known"@ }
}

/// The known folders, before sorting: an EmuDeck folder where one was
/// found, RetroArch and Snes9x under the home folder where it is known, the
/// MiSTer SD card, the system RetroArch folder, the default source of the
/// default kind, and the configured root itself.
pub open spec fn known_candidates(
    config: AppConfig,
    kind: SourceKind,
    emudeck: Option<Seq<char>>,
    home: Option<Seq<char>>,
) -> Seq<CandidateView> {
    let root = path_join(config.binary_dir@, config.root@);
    let (name, save, rom) = default_layout(kind, root, emudeck);
    let e = match emudeck {
        Some(r) => seq![known("steamdeck_emudeck"@, "SteamDeck EmuDeck"@, SourceKind::SteamDeck, EmulatorProfile::RetroArch, path_join(r, "saves"@), path_join(r, "roms"@))],
        None => seq![],
    };
    let h = match home {
        Some(d) => seq![
            known("retroarch_home"@, "RetroArch Home"@, SourceKind::RetroArch, EmulatorProfile::RetroArch, path_join(d, ".config/retroarch/saves"@), path_join(d, "Emulation/roms"@)),
            known("snes9x_home"@, "Snes9x Home"@, SourceKind::Custom, EmulatorProfile::Snes9x, path_join(d, "snes9x/save"@), path_join(d, "roms/snes"@)),
        ],
        None => seq![],
    };
    e + h + seq![
        known("mister_sd"@, "MiSTer SD"@, SourceKind::MisterFpga, EmulatorProfile::Mister, "/media/fat/saves"@, "/media/fat/games"@),
        known("retroarch_system"@, "RetroArch System"@, SourceKind::RetroArch, EmulatorProfile::RetroArch, "/var/lib/retroarch/saves"@, "/var/lib/retroarch/roms"@),
        known(kind_name(kind) + "_default"@, kind_name(kind) + " Default"@, kind, default_profile(kind), save, rom),
        known(kind_name(kind) + "_root"@, kind_name(kind) + " Root Direct"@, kind, default_profile(kind), root, root),
    ]
}

/// A candidate put into a list sorted by id, after the candidates with an
/// id not above its own (a stable sort).
pub open spec fn insert_by_id(sorted: Seq<CandidateView>, x: CandidateView) -> Seq<CandidateView>
    decreases sorted.len(),
{
    if sorted.len() == 0 {
        seq![x]
    } else if lex_le(sorted.last().id, x.id) {
        sorted.push(x)
    } else {
        insert_by_id(sorted.drop_last(), x).push(sorted.last())
    }
}

/// The candidates stably sorted by id.
pub open spec fn sorted_by_id(s: Seq<CandidateView>) -> Seq<CandidateView>
    decreases s.len(),
{
    if s.len() == 0 {
        seq![]
    } else {
        insert_by_id(sorted_by_id(s.drop_last()), s.last())
    }
}

/// The candidates without one whose save and ROM folders are those of the
/// candidate kept just before it.
pub open spec fn dedup_paths(s: Seq<CandidateView>) -> Seq<CandidateView>
    decreases s.len(),
{
    if s.len() == 0 {
        seq![]
    } else {
        let prev = dedup_paths(s.drop_last());
        if prev.len() > 0 && prev.last().save_path == s.last().save_path && prev.last().rom_path == s.last().rom_path {
            prev
        } else {
            prev.push(s.last())
        }
    }
}

proof fn lemma_insert_by_id_at(sorted: Seq<CandidateView>, x: CandidateView, p: int)
    requires
        0 <= p <= sorted.len(),
        forall|k: int| p <= k < sorted.len() ==> !lex_le(#[trigger] sorted[k].id, x.id),
        p > 0 ==> lex_le(sorted[p - 1].id, x.id),
    ensures
        insert_by_id(sorted, x) == sorted.insert(p, x),
    decreases sorted.len(),
{
    if sorted.len() == 0 {
        assert(sorted.insert(p, x) =~= seq![x]);
    } else if p == sorted.len() {
        assert(sorted.insert(p, x) =~= sorted.push(x));
    } else {
        let d = sorted.drop_last();
        assert forall|k: int| p <= k < d.len() implies !lex_le(#[trigger] d[k].id, x.id) by {
            assert(d[k] == sorted[k]);
        }
        lemma_insert_by_id_at(d, x, p);
        assert(d.insert(p, x).push(sorted.last()) =~= sorted.insert(p, x));
    }
}

fn id_le(a: &CandidatePath, b: &CandidatePath) -> (r: bool)
    ensures
        r == lex_le(a.id@, b.id@),
{
    lex_le_exec(chars_of(a.id.as_str()).as_slice(), chars_of(b.id.as_str()).as_slice())
}

fn insert_candidate(sorted: &mut Vec<CandidatePath>, x: CandidatePath)
    ensures
        cviews(final(sorted)@) == insert_by_id(cviews(old(sorted)@), cview(x)),
{
    let mut p: usize = sorted.len();
    while p > 0 && !id_le(&sorted[p - 1], &x)
        invariant
            0 <= p <= sorted@.len(),
            sorted@ == old(sorted)@,
            forall|k: int| p <= k < sorted@.len() ==> !lex_le(#[trigger] sorted@[k].id@, x.id@),
        decreases p,
    {
        p = p - 1;
    }
    let ghost vs = cviews(sorted@);
    proof {
        assert forall|k: int| p <= k < vs.len() implies !lex_le(#[trigger] vs[k].id, cview(x).id) by {
            assert(vs[k] == cview(sorted@[k]));
        }
        if p > 0 {
            assert(vs[p - 1] == cview(sorted@[p - 1]));
        }
        lemma_insert_by_id_at(vs, cview(x), p as int);
    }
    sorted.insert(p, x);
    assert(cviews(sorted@) =~= vs.insert(p as int, cview(x)));
}

fn candidate(
    id: String,
    label: String,
    kind: SourceKind,
    profile: EmulatorProfile,
    save: String,
    rom: String,
) -> (r: CandidatePath)
    ensures
        cview(r) == known(id@, label@, kind, profile, save@, rom@),
{
    CandidatePath { id, label, kind, profile, save_path: save, rom_path: rom, recursive: true, origin: owned("autoscan-known") }
}

/// The known folders a scan looks at, sorted by id, without a folder pair
/// that the candidate before it already has; see `known_candidates`.
/// `emudeck_root` is the EmuDeck folder found, `home` the home folder.
pub fn known_scan_candidates(
    config: &AppConfig,
    default_kind: SourceKind,
    emudeck_root: Option<&str>,
    home: Option<&str>,
) -> (r: Vec<CandidatePath>)
    ensures
        cviews(r@) == dedup_paths(
            sorted_by_id(
                known_candidates(
                    *config,
                    default_kind,
                    match emudeck_root {
                        Some(e) => Some(e@),
                        None => None,
                    },
                    match home {
                        Some(h) => Some(h@),
                        None => None,
                    },
                ),
            ),
        ),
{
    let ghost all = known_candidates(
        *config,
        default_kind,
        match emudeck_root {
            Some(e) => Some(e@),
            None => None,
        },
        match home {
            Some(h) => Some(h@),
            None => None,
        },
    );
    let mut list: Vec<CandidatePath> = Vec::new();
    match emudeck_root {
        Some(r) => {
            list.push(candidate(
                owned("steamdeck_emudeck"),
                owned("SteamDeck EmuDeck"),
                SourceKind::SteamDeck,
                EmulatorProfile::RetroArch,
                join_path(r, "saves"),
                join_path(r, "roms"),
            ));
        },
        None => {},
    }
    match home {
        Some(d) => {
            list.push(candidate(
                owned("retroarch_home"),
                owned("RetroArch Home"),
                SourceKind::RetroArch,
                EmulatorProfile::RetroArch,
                join_path(d, ".config/retroarch/saves"),
                join_path(d, "Emulation/roms"),
            ));
            list.push(candidate(
                owned("snes9x_home"),
                owned("Snes9x Home"),
                SourceKind::Custom,
                EmulatorProfile::Snes9x,
                join_path(d, "snes9x/save"),
                join_path(d, "roms/snes"),
            ));
        },
        None => {},
    }
    list.push(candidate(
        owned("mister_sd"),
        owned("MiSTer SD"),
        SourceKind::MisterFpga,
        EmulatorProfile::Mister,
        owned("/media/fat/saves"),
        owned("/media/fat/games"),
    ));
    list.push(candidate(
        owned("retroarch_system"),
        owned("RetroArch System"),
        SourceKind::RetroArch,
        EmulatorProfile::RetroArch,
        owned("/var/lib/retroarch/saves"),
        owned("/var/lib/retroarch/roms"),
    ));
    let fallback = default_source(config, default_kind, emudeck_root);
    let name = default_kind.as_str();
    list.push(candidate(
        concat2(name, "_default"),
        concat2(name, " Default"),
        default_kind,
        default_profile_for_kind(&default_kind),
        fallback.save_path(),
        fallback.rom_path(),
    ));
    let root = config.resolved_root();
    list.push(candidate(
        concat2(name, "_root"),
        concat2(name, " Root Direct"),
        default_kind,
        default_profile_for_kind(&default_kind),
        root.clone(),
        root,
    ));
    assert(cviews(list@) =~= all);
    // Sort by id.
    let mut sorted: Vec<CandidatePath> = Vec::new();
    let n = list.len();
    let mut i: usize = 0;
    assert(cviews(sorted@) =~= sorted_by_id(all.subrange(0, 0)));
    while list.len() > 0
        invariant
            n == all.len(),
            i + list@.len() == n,
            cviews(list@) == all.subrange(i as int, n as int),
            cviews(sorted@) == sorted_by_id(all.subrange(0, i as int)),
        decreases list@.len(),
    {
        let ghost lv = cviews(list@);
        let x = list.remove(0);
        assert(cview(x) == lv[0]);
        assert(cviews(list@) =~= lv.subrange(1, lv.len() as int));
        assert(all.subrange(0, i + 1).drop_last() =~= all.subrange(0, i as int));
        assert(all.subrange(0, i + 1).last() == all[i as int]);
        assert(all[i as int] == lv[0]);
        insert_candidate(&mut sorted, x);
        i = i + 1;
        assert(all.subrange(i as int, n as int) =~= lv.subrange(1, lv.len() as int));
    }
    assert(all.subrange(0, n as int) =~= all);
    // Drop a candidate with the folders of the one kept before it.
    let ghost sv = cviews(sorted@);
    let mut out: Vec<CandidatePath> = Vec::new();
    let m = sorted.len();
    let mut j: usize = 0;
    assert(cviews(out@) =~= dedup_paths(sv.subrange(0, 0)));
    while sorted.len() > 0
        invariant
            m == sv.len(),
            j + sorted@.len() == m,
            cviews(sorted@) == sv.subrange(j as int, m as int),
            cviews(out@) == dedup_paths(sv.subrange(0, j as int)),
        decreases sorted@.len(),
    {
        let ghost rv = cviews(sorted@);
        let x = sorted.remove(0);
        assert(cview(x) == rv[0]);
        assert(cviews(sorted@) =~= rv.subrange(1, rv.len() as int));
        assert(sv.subrange(0, j + 1).drop_last() =~= sv.subrange(0, j as int));
        assert(sv.subrange(0, j + 1).last() == sv[j as int]);
        assert(sv[j as int] == rv[0]);
        let ghost before = cviews(out@);
        let same = out.len() > 0 && crate::text::str_eq(out[out.len() - 1].save_path.as_str(), x.save_path.as_str())
            && crate::text::str_eq(out[out.len() - 1].rom_path.as_str(), x.rom_path.as_str());
        if out.len() > 0 {
            assert(before.last() == cview(out@[out@.len() - 1]));
        }
        if !same {
            out.push(x);
            assert(cviews(out@) =~= before.push(cview(x)));
        }
        j = j + 1;
        assert(sv.subrange(j as int, m as int) =~= rv.subrange(1, rv.len() as int));
    }
    assert(sv.subrange(0, m as int) =~= sv);
    out
}

// ---------------------------------------------------------------------------
// What a scan found
// ---------------------------------------------------------------------------

/// The systems of the saves classified in a folder, as plain values.
pub open spec fn found_slugs(s: Seq<Option<String>>) -> Set<Seq<char>>
    decreases s.len(),
{
    if s.len() == 0 {
        Set::empty()
    } else {
        match s.last() {
            Some(x) => found_slugs(s.drop_last()).insert(x@),
            None => found_slugs(s.drop_last()),
        }
    }
}

/// How many saves were classified.
pub open spec fn found_count(s: Seq<Option<String>>) -> nat
    decreases s.len(),
{
    if s.len() == 0 {
        0
    } else {
        found_count(s.drop_last()) + if s.last() is Some { 1nat } else { 0nat }
    }
}

/// Tallies the classification of the first 1000 saves of a folder: how many
/// are valid saves, and their systems, sorted, each once.
pub fn tally_systems(slugs: &Vec<Option<String>>) -> (r: (usize, Vec<String>))
    ensures
        ({
            let n = if slugs@.len() < 1000 { slugs@.len() } else { 1000 };
            &&& r.0 == found_count(slugs@.subrange(0, n as int))
            &&& strictly_sorted(r.1.deep_view())
            &&& r.1.deep_view().to_set() == found_slugs(slugs@.subrange(0, n as int))
        }),
{
    let n: usize = if slugs.len() < 1000 {
        slugs.len()
    } else {
        1000
    };
    let mut count: usize = 0;
    let mut systems: Vec<String> = Vec::new();
    let mut i: usize = 0;
    assert(systems.deep_view().to_set() =~= Set::<Seq<char>>::empty());
    while i < n
        invariant
            0 <= i <= n <= slugs@.len(),
            n <= 1000,
            count == found_count(slugs@.subrange(0, i as int)),
            count <= i,
            strictly_sorted(systems.deep_view()),
            systems.deep_view().to_set() == found_slugs(slugs@.subrange(0, i as int)),
        decreases n - i,
    {
        assert(slugs@.subrange(0, i + 1).drop_last() =~= slugs@.subrange(0, i as int));
        match &slugs[i] {
            Some(x) => {
                count = count + 1;
                insert_sorted_unique(&mut systems, x.clone());
            },
            None => {},
        }
        i = i + 1;
    }
    (count, systems)
}

/// A candidate folder, with how many valid saves it holds and their
/// systems (sorted, each once).
#[derive(Debug, Clone)]
pub struct CandidateFinding {
    pub candidate: CandidatePath,
    pub valid_saves: usize,
    pub systems: Vec<String>,
}

/// A folder a scan proposes as a source: the source, how many valid saves
/// it holds, and a line saying so.
#[derive(Debug, Clone)]
pub struct EvaluatedCandidate {
    pub source: Source,
    pub detected_saves: usize,
    pub evidence: String,
}

/// A proposed source as plain values.
pub struct EvaluatedView {
    pub source: SourceFacts,
    pub detected_saves: nat,
    pub evidence: Seq<char>,
}

pub open spec fn eview(e: EvaluatedCandidate) -> EvaluatedView {
    EvaluatedView { source: stored_facts(e.source), detected_saves: e.detected_saves as nat, evidence: e.evidence@ }
}

pub open spec fn eviews(s: Seq<EvaluatedCandidate>) -> Seq<EvaluatedView> {
    s.map_values(|e: EvaluatedCandidate| eview(e))
}

/// The systems of a folder that its kind syncs, in order.
pub open spec fn allowed_systems(kind: SourceKind, systems: Seq<Seq<char>>) -> Seq<Seq<char>> {
    systems.filter(|x: Seq<char>| default_systems(kind).contains(x))
}

/// The id a proposed source gets: the candidate's id made an id, else its
/// label's, else `source_` and its number among the proposals.
pub open spec fn proposal_id(c: CandidateView, number: nat) -> Seq<char> {
    if source_id(c.id).len() > 0 {
        source_id(c.id)
    } else if source_id(c.label).len() > 0 {
        source_id(c.label)
    } else {
        "source_"@ + decimal_text(number)
    }
}

/// A managed source of a scan.
pub open spec fn managed_facts(
    id: Seq<char>,
    label: Seq<char>,
    kind: SourceKind,
    profile: EmulatorProfile,
    save: Seq<char>,
    rom: Seq<char>,
    recursive: bool,
    origin: Seq<char>,
    systems: Seq<Seq<char>>,
) -> SourceFacts {
    SourceFacts {
        id,
        name: label,
        kind,
        profile,
        save_roots: seq![save],
        rom_roots: seq![rom],
        recursive,
        systems,
        create_missing_system_dirs: false,
        managed: true,
        origin,
    }
}

/// What a known folder becomes, as the `index`-th proposal: nothing where
/// it holds no valid save or none of a system its kind syncs; else a
/// managed source with those systems.
pub open spec fn evaluated(c: CandidateView, valid: nat, systems: Seq<Seq<char>>, index: nat) -> Option<EvaluatedView> {
    let allowed = allowed_systems(c.kind, systems);
    if valid == 0 || allowed.len() == 0 {
        None
    } else {
        Some(EvaluatedView {
            source: managed_facts(proposal_id(c, index + 1), c.label, c.kind, c.profile, c.save_path, c.rom_path, c.recursive, c.origin, allowed),
            detected_saves: valid,
            evidence: decimal_text(valid) + " valid save(s) gevonden in "@ + c.save_path,
        })
    }
}

/// The proposals from the folders, in order.
pub open spec fn evaluated_all(fs: Seq<CandidateFinding>) -> Seq<EvaluatedView>
    decreases fs.len(),
{
    if fs.len() == 0 {
        seq![]
    } else {
        let prev = evaluated_all(fs.drop_last());
        let f = fs.last();
        match evaluated(cview(f.candidate), f.valid_saves as nat, f.systems.deep_view(), prev.len()) {
            Some(e) => prev.push(e),
            None => prev,
        }
    }
}

/// Whether a proposal may come before another: more saves first, then by id.
pub open spec fn rank_le(a: EvaluatedView, b: EvaluatedView) -> bool {
    a.detected_saves > b.detected_saves || (a.detected_saves == b.detected_saves && lex_le(a.source.id, b.source.id))
}

pub open spec fn insert_ranked(sorted: Seq<EvaluatedView>, x: EvaluatedView) -> Seq<EvaluatedView>
    decreases sorted.len(),
{
    if sorted.len() == 0 {
        seq![x]
    } else if rank_le(sorted.last(), x) {
        sorted.push(x)
    } else {
        insert_ranked(sorted.drop_last(), x).push(sorted.last())
    }
}

/// The proposals stably sorted: most saves first, then by id.
pub open spec fn ranked(s: Seq<EvaluatedView>) -> Seq<EvaluatedView>
    decreases s.len(),
{
    if s.len() == 0 {
        seq![]
    } else {
        insert_ranked(ranked(s.drop_last()), s.last())
    }
}

proof fn lemma_insert_ranked_at(sorted: Seq<EvaluatedView>, x: EvaluatedView, p: int)
    requires
        0 <= p <= sorted.len(),
        forall|k: int| p <= k < sorted.len() ==> !rank_le(#[trigger] sorted[k], x),
        p > 0 ==> rank_le(sorted[p - 1], x),
    ensures
        insert_ranked(sorted, x) == sorted.insert(p, x),
    decreases sorted.len(),
{
    if sorted.len() == 0 {
        assert(sorted.insert(p, x) =~= seq![x]);
    } else if p == sorted.len() {
        assert(sorted.insert(p, x) =~= sorted.push(x));
    } else {
        let d = sorted.drop_last();
        assert forall|k: int| p <= k < d.len() implies !rank_le(#[trigger] d[k], x) by {
            assert(d[k] == sorted[k]);
        }
        lemma_insert_ranked_at(d, x, p);
        assert(d.insert(p, x).push(sorted.last()) =~= sorted.insert(p, x));
    }
}

fn ranks_before(a: &EvaluatedCandidate, b: &EvaluatedCandidate) -> (r: bool)
    ensures
        r == rank_le(eview(*a), eview(*b)),
{
    a.detected_saves > b.detected_saves || (a.detected_saves == b.detected_saves && lex_le_exec(
        chars_of(a.source.id.as_str()).as_slice(),
        chars_of(b.source.id.as_str()).as_slice(),
    ))
}

fn insert_proposal(sorted: &mut Vec<EvaluatedCandidate>, x: EvaluatedCandidate)
    ensures
        eviews(final(sorted)@) == insert_ranked(eviews(old(sorted)@), eview(x)),
{
    let mut p: usize = sorted.len();
    while p > 0 && !ranks_before(&sorted[p - 1], &x)
        invariant
            0 <= p <= sorted@.len(),
            sorted@ == old(sorted)@,
            forall|k: int| p <= k < sorted@.len() ==> !rank_le(eview(#[trigger] sorted@[k]), eview(x)),
        decreases p,
    {
        p = p - 1;
    }
    let ghost vs = eviews(sorted@);
    proof {
        assert forall|k: int| p <= k < vs.len() implies !rank_le(#[trigger] vs[k], eview(x)) by {
            assert(vs[k] == eview(sorted@[k]));
        }
        if p > 0 {
            assert(vs[p - 1] == eview(sorted@[p - 1]));
        }
        lemma_insert_ranked_at(vs, eview(x), p as int);
    }
    sorted.insert(p, x);
    assert(eviews(sorted@) =~= vs.insert(p as int, eview(x)));
}

/// Sorts proposals, most saves first, then by id; see `ranked`.
pub fn rank_candidates(v: Vec<EvaluatedCandidate>) -> (r: Vec<EvaluatedCandidate>)
    ensures
        eviews(r@) == ranked(eviews(v@)),
{
    let ghost all = eviews(v@);
    let mut rest = v;
    let mut sorted: Vec<EvaluatedCandidate> = Vec::new();
    let n = rest.len();
    let mut i: usize = 0;
    assert(eviews(sorted@) =~= ranked(all.subrange(0, 0)));
    while rest.len() > 0
        invariant
            n == all.len(),
            i + rest@.len() == n,
            eviews(rest@) == all.subrange(i as int, n as int),
            eviews(sorted@) == ranked(all.subrange(0, i as int)),
        decreases rest@.len(),
    {
        let ghost lv = eviews(rest@);
        let x = rest.remove(0);
        assert(eview(x) == lv[0]);
        assert(eviews(rest@) =~= lv.subrange(1, lv.len() as int));
        assert(all.subrange(0, i + 1).drop_last() =~= all.subrange(0, i as int));
        assert(all.subrange(0, i + 1).last() == all[i as int]);
        assert(all[i as int] == lv[0]);
        insert_proposal(&mut sorted, x);
        i = i + 1;
        assert(all.subrange(i as int, n as int) =~= lv.subrange(1, lv.len() as int));
    }
    assert(all.subrange(0, n as int) =~= all);
    sorted
}

fn keep_allowed(kind: SourceKind, systems: &Vec<String>) -> (r: Vec<String>)
    ensures
        r.deep_view() == allowed_systems(kind, systems.deep_view()),
{
    let allowed = default_systems_for_kind(&kind);
    let ghost pred = |x: Seq<char>| default_systems(kind).contains(x);
    let mut out: Vec<String> = Vec::new();
    let mut i: usize = 0;
    while i < systems.len()
        invariant
            0 <= i <= systems@.len(),
            allowed.deep_view() == default_systems(kind),
            pred == (|x: Seq<char>| default_systems(kind).contains(x)),
            out.deep_view() == systems.deep_view().subrange(0, i as int).filter(pred),
        decreases systems@.len() - i,
    {
        proof {
            reveal(Seq::filter);
            assert(systems.deep_view().subrange(0, i + 1).drop_last() =~= systems.deep_view().subrange(0, i as int));
        }
        let ghost before = out.deep_view();
        if strings_contain(&allowed, systems[i].as_str()) {
            out.push(systems[i].clone());
            assert(out.deep_view() =~= before.push(systems@[i as int]@));
        }
        i = i + 1;
    }
    assert(systems.deep_view().subrange(0, systems@.len() as int) =~= systems.deep_view());
    out
}

fn proposal_id_exec(c: &CandidatePath, number: u64) -> (r: String)
    ensures
        r@ == proposal_id(cview(*c), number as nat),
{
    let id = normalize_source_id(c.id.as_str());
    if chars_of(id.as_str()).len() > 0 {
        return id;
    }
    let id = normalize_source_id(c.label.as_str());
    if chars_of(id.as_str()).len() > 0 {
        return id;
    }
    concat2("source_", u64_text(number).as_str())
}

/// What a known folder becomes as the `index`-th proposal; see `evaluated`.
pub fn evaluate_candidate(finding: CandidateFinding, index: usize) -> (r: Option<EvaluatedCandidate>)
    requires
        index < u64::MAX,
    ensures
        match r {
            Some(e) => evaluated(cview(finding.candidate), finding.valid_saves as nat, finding.systems.deep_view(), index as nat) == Some(eview(e)),
            None => evaluated(cview(finding.candidate), finding.valid_saves as nat, finding.systems.deep_view(), index as nat) is None,
        },
{
    let c = finding.candidate;
    let systems = keep_allowed(c.kind, &finding.systems);
    if finding.valid_saves == 0 || systems.len() == 0 {
        return None;
    }
    let id = proposal_id_exec(&c, index as u64 + 1);
    let evidence = concat3(u64_text(finding.valid_saves as u64).as_str(), " valid save(s) gevonden in ", c.save_path.as_str());
    let source = Source::managed(id, c.label, c.kind, c.profile, c.save_path, c.rom_path, c.recursive, c.origin).with_systems(systems);
    let e = EvaluatedCandidate { source, detected_saves: finding.valid_saves, evidence };
    assert(eview(e).source =~= managed_facts(
        proposal_id(cview(c), index as nat + 1), cview(c).label, c.kind, c.profile, cview(c).save_path, cview(c).rom_path, c.recursive, cview(c).origin,
        allowed_systems(c.kind, finding.systems.deep_view())));
    Some(e)
}

/// The sources a scan proposes from the known folders it found, ranked:
/// most saves first, then by id.
pub fn evaluate_candidates(findings: Vec<CandidateFinding>) -> (r: Vec<EvaluatedCandidate>)
    ensures
        eviews(r@) == ranked(evaluated_all(findings@)),
{
    let ghost all = findings@;
    let mut rest = findings;
    let mut out: Vec<EvaluatedCandidate> = Vec::new();
    let n = rest.len();
    let mut i: usize = 0;
    while rest.len() > 0
        invariant
            n == all.len(),
            i + rest@.len() == n,
            rest@ == all.subrange(i as int, n as int),
            eviews(out@) == evaluated_all(all.subrange(0, i as int)),
            out@.len() <= i,
        decreases rest@.len(),
    {
        let f = rest.remove(0);
        assert(f == all[i as int]);
        assert(rest@ =~= all.subrange(i + 1, n as int));
        assert(all.subrange(0, i + 1).drop_last() =~= all.subrange(0, i as int));
        assert(all.subrange(0, i + 1).last() == all[i as int]);
        let ghost before = eviews(out@);
        match evaluate_candidate(f, out.len()) {
            Some(e) => {
                out.push(e);
                assert(eviews(out@) =~= before.push(eview(e)));
            },
            None => {},
        }
        i = i + 1;
    }
    assert(all.subrange(0, n as int) =~= all);
    rank_candidates(out)
}

// ---------------------------------------------------------------------------
// What a deep scan proposes
// ---------------------------------------------------------------------------

/// A folder a deep scan looked at, with how many valid saves it holds and
/// their systems (sorted, each once).
#[derive(Debug, Clone)]
pub struct DirFinding {
    pub dir: String,
    pub count: usize,
    pub systems: Vec<String>,
}

/// The label of the folder numbered `number`: its name, or `Deep Scan` and
/// the number where it has none.
pub open spec fn deep_label(dir: Seq<char>, number: nat) -> Seq<char> {
    match file_name(dir) {
        Some(n) => n,
        None => "Deep Scan "@ + decimal_text(number),
    }
}

/// What the `index`-th folder of a deep scan becomes: a managed custom
/// source on that folder, with the systems found there.
pub open spec fn deep_proposal(d: DirFinding, index: nat) -> EvaluatedView {
    let dir = d.dir@;
    EvaluatedView {
        source: managed_facts(
            source_id("deep_"@ + decimal_text(index + 1) + "_"@ + dir),
            deep_label(dir, index + 1),
            SourceKind::Custom,
            EmulatorProfile::Generic,
            dir,
            dir,
            true,
            "deep-scan"@,
            d.systems.deep_view(),
        ),
        detected_saves: d.count as nat,
        evidence: decimal_text(d.count as nat) + " valid save(s) in "@ + dir,
    }
}

/// The proposals of a deep scan, in folder order, for the folders with a
/// valid save.
pub open spec fn deep_all(ds: Seq<DirFinding>) -> Seq<EvaluatedView>
    decreases ds.len(),
{
    if ds.len() == 0 {
        seq![]
    } else {
        let prev = deep_all(ds.drop_last());
        if ds.last().count == 0 {
            prev
        } else {
            prev.push(deep_proposal(ds.last(), (ds.len() - 1) as nat))
        }
    }
}

/// At most the first 200.
pub open spec fn at_most_200(s: Seq<EvaluatedView>) -> Seq<EvaluatedView> {
    if s.len() > 200 {
        s.subrange(0, 200)
    } else {
        s
    }
}

fn deep_candidate(d: DirFinding, index: usize) -> (r: EvaluatedCandidate)
    requires
        index < u64::MAX,
    ensures
        eview(r) == deep_proposal(d, index as nat),
{
    let number = u64_text(index as u64 + 1);
    let raw = concat3(concat2("deep_", number.as_str()).as_str(), "_", d.dir.as_str());
    let id = normalize_source_id(raw.as_str());
    let label = match path_file_name(d.dir.as_str()) {
        Some(n) => string_of(n.as_slice()),
        None => concat2("Deep Scan ", number.as_str()),
    };
    let evidence = concat3(u64_text(d.count as u64).as_str(), " valid save(s) in ", d.dir.as_str());
    let ghost dv = d.dir@;
    let dir2 = d.dir.clone();
    let source = Source::managed(
        id,
        label,
        SourceKind::Custom,
        EmulatorProfile::Generic,
        d.dir,
        dir2,
        true,
        owned("deep-scan"),
    ).with_systems(d.systems);
    let e = EvaluatedCandidate { source, detected_saves: d.count, evidence };
    assert(eview(e).source =~= deep_proposal(d, index as nat).source);
    e
}

/// The sources a deep scan proposes from the folders it found saves in
/// (in the order of the folders), ranked, at most 200.
pub fn deep_scan_candidates(dirs: Vec<DirFinding>) -> (r: Vec<EvaluatedCandidate>)
    ensures
        eviews(r@) == at_most_200(ranked(deep_all(dirs@))),
{
    let ghost all = dirs@;
    let mut rest = dirs;
    let mut out: Vec<EvaluatedCandidate> = Vec::new();
    let n = rest.len();
    let mut i: usize = 0;
    while rest.len() > 0
        invariant
            n == all.len(),
            i + rest@.len() == n,
            rest@ == all.subrange(i as int, n as int),
            eviews(out@) == deep_all(all.subrange(0, i as int)),
        decreases rest@.len(),
    {
        let d = rest.remove(0);
        assert(d == all[i as int]);
        assert(rest@ =~= all.subrange(i + 1, n as int));
        assert(all.subrange(0, i + 1).drop_last() =~= all.subrange(0, i as int));
        assert(all.subrange(0, i + 1).last() == all[i as int]);
        let ghost before = eviews(out@);
        if d.count > 0 {
            let e = deep_candidate(d, i);
            out.push(e);
            assert(eviews(out@) =~= before.push(eview(e)));
        }
        i = i + 1;
    }
    assert(all.subrange(0, n as int) =~= all);
    let mut ranked_v = rank_candidates(out);
    if ranked_v.len() > 200 {
        ranked_v.truncate(200);
        assert(eviews(ranked_v@) =~= at_most_200(ranked(deep_all(all))));
    }
    ranked_v
}

} // verus!

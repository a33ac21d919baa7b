//! The Steam Deck helper's save sources: where saves and ROMs are looked for,
//! kept by name.
use vstd::prelude::*;
use crate::mister::config::AppConfig;
use crate::mister::sources::resolve_all;
use crate::mister::state::now_rfc3339;
use crate::paths::{join_path, path_join};
use crate::text::{owned, str_eq};

verus! {

/// The kind of device or emulator a source belongs to.
#[derive(Debug, Clone, Copy, PartialEq, Eq, Structural)]
pub enum SourceKind {
    MisterFpga,
    RetroArch,
    Custom,
    OpenEmu,
    AnaloguePocket,
    SteamDeck,
}

pub open spec fn kind_name(k: SourceKind) -> Seq<char> {
    match k {
        SourceKind::MisterFpga => "mister-fpga"@,
        SourceKind::RetroArch => "retroarch"@,
        SourceKind::Custom => "custom"@,
        SourceKind::OpenEmu => "openemu"@,
        SourceKind::AnaloguePocket => "analogue-pocket"@,
        SourceKind::SteamDeck => "steamdeck"@,
    }
}

impl SourceKind {
    pub fn as_str(&self) -> (r: &'static str)
        ensures
            r@ == kind_name(*self),
    {
        match self {
            SourceKind::MisterFpga => "mister-fpga",
            SourceKind::RetroArch => "retroarch",
            SourceKind::Custom => "custom",
            SourceKind::OpenEmu => "openemu",
            SourceKind::AnaloguePocket => "analogue-pocket",
            SourceKind::SteamDeck => "steamdeck",
        }
    }
}

/// A configured source.
#[derive(Debug, Clone)]
pub struct Source {
    pub name: String,
    pub kind: SourceKind,
    pub save_roots: Vec<String>,
    pub rom_roots: Vec<String>,
    pub recursive: bool,
    pub created_at: String,
}

/// A source with its roots resolved against the helper's directory.
#[derive(Debug, Clone)]
pub struct ResolvedSource {
    pub name: String,
    pub kind: SourceKind,
    pub save_roots: Vec<String>,
    pub rom_roots: Vec<String>,
    pub recursive: bool,
}

/// The stored sources.
#[derive(Debug, Clone)]
pub struct SourceStore {
    pub sources: Vec<Source>,
}

impl Source {
    /// A source created now.
    pub fn new(name: String, kind: SourceKind, save_roots: Vec<String>, rom_roots: Vec<String>, recursive: bool) -> (r: Self)
        ensures
            r.name == name,
            r.kind == kind,
            r.save_roots == save_roots,
            r.rom_roots == rom_roots,
            r.recursive == recursive,
    {
        Source { name, kind, save_roots, rom_roots, recursive, created_at: now_rfc3339() }
    }

    /// The source with its roots resolved against the helper's directory.
    pub fn resolve(&self, binary_dir: &str) -> (r: ResolvedSource)
        ensures
            r.name@ == self.name@,
            r.kind == self.kind,
            r.save_roots.deep_view() == resolve_all(binary_dir@, self.save_roots.deep_view()),
            r.rom_roots.deep_view() == resolve_all(binary_dir@, self.rom_roots.deep_view()),
            r.recursive == self.recursive,
    {
        ResolvedSource {
            name: self.name.clone(),
            kind: self.kind,
            save_roots: crate::mister::sources::resolve_all_exec(binary_dir, &self.save_roots),
            rom_roots: crate::mister::sources::resolve_all_exec(binary_dir, &self.rom_roots),
            recursive: self.recursive,
        }
    }
}

/// Where the sources are stored.
pub fn source_store_path(state_dir: &str) -> (r: String)
    ensures
        r@ == path_join(state_dir@, "sources.json"@),
{
    join_path(state_dir, "sources.json")
}

/// The Steam Deck's ROM folder, used beside the root when no EmuDeck folder
/// was found.
pub open spec fn deck_roms() -> Seq<char> {
    "/home/deck/Emulation/roms"@
}

/// The source used when none is configured, by kind, under the resolved
/// root `root`: its name, save roots and ROM roots. A Steam Deck uses the
/// EmuDeck folder when one was found, else the root and the Deck's ROM
/// folder.
pub open spec fn default_layout(kind: SourceKind, root: Seq<char>, emudeck: Option<Seq<char>>) -> (
    Seq<char>,
    Seq<Seq<char>>,
    Seq<Seq<char>>,
) {
    match kind {
        SourceKind::MisterFpga => (
            "default-mister"@,
            seq![path_join(root, "saves"@), root],
            seq![path_join(root, "games"@), root],
        ),
        SourceKind::RetroArch => (
            "default-retroarch"@,
            seq![path_join(root, "saves"@)],
            seq![path_join(root, "roms"@), path_join(root, "content"@)],
        ),
        SourceKind::OpenEmu => ("default-openemu"@, seq![path_join(root, "Save States"@)], seq![root]),
        SourceKind::AnaloguePocket => (
            "default-analogue-pocket"@,
            seq![path_join(root, "Saves"@), path_join(root, "saves"@)],
            seq![root],
        ),
        SourceKind::SteamDeck => match emudeck {
            Some(e) => (
                "auto-emudeck"@,
                seq![path_join(e, "saves"@)],
                seq![path_join(e, "roms"@), path_join(e, "content"@)],
            ),
            None => ("default-steamdeck"@, seq![root], seq![root, deck_roms()]),
        },
        SourceKind::Custom => ("default-custom"@, seq![root], seq![root]),
    }
}

fn one(a: String) -> (r: Vec<String>)
    ensures
        r.deep_view() == seq![a@],
{
    let mut v: Vec<String> = Vec::new();
    v.push(a);
    assert(v.deep_view() =~= seq![a@]);
    v
}

fn two(a: String, b: String) -> (r: Vec<String>)
    ensures
        r.deep_view() == seq![a@, b@],
{
    let mut v: Vec<String> = Vec::new();
    v.push(a);
    v.push(b);
    assert(v.deep_view() =~= seq![a@, b@]);
    v
}

/// The source used when none is configured; see `default_layout`.
/// `emudeck_root` is the EmuDeck folder found on the device, if any.
pub fn default_source(config: &AppConfig, kind: SourceKind, emudeck_root: Option<&str>) -> (r: Source)
    ensures
        ({
            let (name, save, rom) = default_layout(kind, path_join(config.binary_dir@, config.root@), crate::text::opt_chars(emudeck_root));
            &&& r.name@ == name
            &&& r.save_roots.deep_view() == save
            &&& r.rom_roots.deep_view() == rom
        }),
        r.kind == kind,
        r.recursive,
{
    let root = config.resolved_root();
    let r = root.as_str();
    match kind {
        SourceKind::MisterFpga => Source::new(
            owned("default-mister"),
            kind,
            two(join_path(r, "saves"), root.clone()),
            two(join_path(r, "games"), root.clone()),
            true,
        ),
        SourceKind::RetroArch => Source::new(
            owned("default-retroarch"),
            kind,
            one(join_path(r, "saves")),
            two(join_path(r, "roms"), join_path(r, "content")),
            true,
        ),
        SourceKind::OpenEmu => Source::new(
            owned("default-openemu"),
            kind,
            one(join_path(r, "Save States")),
            one(root.clone()),
            true,
        ),
        SourceKind::AnaloguePocket => Source::new(
            owned("default-analogue-pocket"),
            kind,
            two(join_path(r, "Saves"), join_path(r, "saves")),
            one(root.clone()),
            true,
        ),
        SourceKind::SteamDeck => match emudeck_root {
            Some(e) => Source::new(
                owned("auto-emudeck"),
                kind,
                one(join_path(e, "saves")),
                two(join_path(e, "roms"), join_path(e, "content")),
                true,
            ),
            None => Source::new(
                owned("default-steamdeck"),
                kind,
                one(root.clone()),
                two(root.clone(), owned("/home/deck/Emulation/roms")),
                true,
            ),
        },
        SourceKind::Custom => Source::new(owned("default-custom"), kind, one(root.clone()), one(root.clone()), true),
    }
}

/// The note printed when an EmuDeck folder is used for saves.
pub fn steamdeck_autodetect_note(emudeck_root: Option<&str>) -> (r: Option<String>)
    ensures
        match emudeck_root {
            Some(e) => r is Some && r->0@ == "EmuDeck detected: using "@ + path_join(e@, "saves"@) + " as save location."@,
            None => r is None,
        },
{
    match emudeck_root {
        Some(e) => {
            let mut m = owned("EmuDeck detected: using ");
            m.append(join_path(e, "saves").as_str());
            m.append(" as save location.");
            Some(m)
        },
        None => None,
    }
}

/// The sources to sync: the stored ones resolved, or the default source
/// when none is stored.
pub fn resolved_sources_or_default(store: &SourceStore, config: &AppConfig, default_kind: SourceKind, emudeck_root: Option<&str>) -> (r: Vec<ResolvedSource>)
    ensures
        store.sources@.len() == 0 ==> r@.len() == 1 && r@[0].kind == default_kind,
        store.sources@.len() > 0 ==> r@.len() == store.sources@.len() && forall|i: int|
            0 <= i < r@.len() ==> (#[trigger] r@[i]).name@ == store.sources@[i].name@ && r@[i].kind
                == store.sources@[i].kind && r@[i].save_roots.deep_view() == resolve_all(
                config.binary_dir@,
                store.sources@[i].save_roots.deep_view(),
            ),
{
    let mut out: Vec<ResolvedSource> = Vec::new();
    if store.sources.len() == 0 {
        let s = default_source(config, default_kind, emudeck_root);
        out.push(s.resolve(config.binary_dir.as_str()));
        return out;
    }
    let mut i: usize = 0;
    while i < store.sources.len()
        invariant
            0 <= i <= store.sources@.len(),
            out@.len() == i,
            forall|j: int|
                0 <= j < i ==> (#[trigger] out@[j]).name@ == store.sources@[j].name@ && out@[j].kind
                    == store.sources@[j].kind && out@[j].save_roots.deep_view() == resolve_all(
                    config.binary_dir@,
                    store.sources@[j].save_roots.deep_view(),
                ),
        decreases store.sources@.len() - i,
    {
        out.push(store.sources[i].resolve(config.binary_dir.as_str()));
        i = i + 1;
    }
    out
}

/// The position of the first source with the name, or -1.
pub open spec fn named_index(s: Seq<Source>, name: Seq<char>) -> int
    decreases s.len(),
{
    if s.len() == 0 {
        -1
    } else if named_index(s.drop_last(), name) >= 0 {
        named_index(s.drop_last(), name)
    } else if s.last().name@ == name {
        s.len() - 1
    } else {
        -1
    }
}

proof fn lemma_named_index_bounds(s: Seq<Source>, name: Seq<char>)
    ensures
        -1 <= named_index(s, name) < s.len(),
    decreases s.len(),
{
    if s.len() > 0 {
        lemma_named_index_bounds(s.drop_last(), name);
    }
}

proof fn lemma_named_index_prefix(s: Seq<Source>, name: Seq<char>, n: int)
    requires
        0 <= n <= s.len(),
        named_index(s.subrange(0, n), name) >= 0,
    ensures
        named_index(s, name) == named_index(s.subrange(0, n), name),
    decreases s.len() - n,
{
    if n < s.len() {
        assert(s.subrange(0, n + 1).drop_last() =~= s.subrange(0, n));
        lemma_named_index_prefix(s, name, n + 1);
    } else {
        assert(s.subrange(0, n) =~= s);
    }
}

/// Adds a source, or replaces the first one with the same name.
pub fn upsert_source(store: &mut SourceStore, source: Source)
    ensures
        ({
            let i = named_index(old(store).sources@, source.name@);
            if i >= 0 {
                final(store).sources@ == old(store).sources@.update(i, source)
            } else {
                final(store).sources@ == old(store).sources@.push(source)
            }
        }),
{
    let mut i: usize = 0;
    while i < store.sources.len()
        invariant
            0 <= i <= store.sources@.len(),
            store.sources@ == old(store).sources@,
            named_index(store.sources@.subrange(0, i as int), source.name@) == -1,
        decreases store.sources@.len() - i,
    {
        assert(store.sources@.subrange(0, i + 1).drop_last() =~= store.sources@.subrange(0, i as int));
        if str_eq(store.sources[i].name.as_str(), source.name.as_str()) {
            proof {
                lemma_named_index_prefix(store.sources@, source.name@, i + 1);
            }
            store.sources.set(i, source);
            return;
        }
        i = i + 1;
    }
    assert(store.sources@.subrange(0, i as int) =~= store.sources@);
    store.sources.push(source);
}

/// Whether a source is named otherwise than `name`.
pub open spec fn named_otherwise(name: Seq<char>) -> spec_fn(Source) -> bool {
    |s: Source| s.name@ != name
}

/// A removed source is gone: after `remove_source(name)`, no source of
/// that name is left.
pub proof fn law_deck_removed_source_is_gone(s: Seq<Source>, name: Seq<char>)
    ensures
        forall|j: int| 0 <= j < s.filter(named_otherwise(name)).len() ==> (#[trigger] s.filter(named_otherwise(name))[j]).name@ != name,
{
    assert forall|j: int| 0 <= j < s.filter(named_otherwise(name)).len() implies (#[trigger] s.filter(named_otherwise(name))[j]).name@ != name by {
        s.lemma_filter_pred(named_otherwise(name), j);
    }
}

/// Removes every source with the name; says whether any was removed.
pub fn remove_source(store: &mut SourceStore, name: &str) -> (r: bool)
    ensures
        final(store).sources@ == old(store).sources@.filter(named_otherwise(name@)),
        r == (final(store).sources@.len() != old(store).sources@.len()),
{
    let before = store.sources.len();
    let ghost orig = store.sources@;
    let ghost pred = named_otherwise(name@);
    let ghost mut j: int = 0;
    let mut i: usize = 0;
    while i < store.sources.len()
        invariant
            0 <= i <= store.sources@.len(),
            0 <= j <= orig.len(),
            before == orig.len(),
            store.sources@.len() - i == orig.len() - j,
            pred == named_otherwise(name@),
            store.sources@.subrange(0, i as int) == orig.subrange(0, j).filter(pred),
            store.sources@.subrange(i as int, store.sources@.len() as int) == orig.subrange(j, orig.len() as int),
        decreases store.sources@.len() - i,
    {
        proof {
            reveal(Seq::filter);
            assert(store.sources@[i as int] == orig[j]) by {
                assert(store.sources@.subrange(i as int, store.sources@.len() as int)[0] == orig.subrange(j, orig.len() as int)[0]);
            }
            assert(orig.subrange(0, j + 1).drop_last() =~= orig.subrange(0, j));
            assert(orig.subrange(0, j + 1).last() == orig[j]);
        }
        if str_eq(store.sources[i].name.as_str(), name) {
            let ghost b = store.sources@;
            let _gone = store.sources.remove(i);
            proof {
                assert(store.sources@.subrange(0, i as int) =~= b.subrange(0, i as int));
                assert(store.sources@.subrange(i as int, store.sources@.len() as int) =~= b.subrange(i + 1, b.len() as int));
                assert(orig.subrange(j + 1, orig.len() as int) =~= orig.subrange(j, orig.len() as int).subrange(1, orig.len() - j));
                assert(b.subrange(i + 1, b.len() as int) =~= b.subrange(i as int, b.len() as int).subrange(1, b.len() - i));
                j = j + 1;
            }
        } else {
            proof {
                let ghost e = store.sources@;
                assert(e.subrange(0, i + 1) =~= e.subrange(0, i as int).push(e[i as int]));
                assert(orig.subrange(j + 1, orig.len() as int) =~= orig.subrange(j, orig.len() as int).subrange(1, orig.len() - j));
                assert(e.subrange(i + 1, e.len() as int) =~= e.subrange(i as int, e.len() as int).subrange(1, e.len() - i));
                j = j + 1;
            }
            i = i + 1;
        }
    }
    proof {
        assert(store.sources@.subrange(0, i as int) =~= store.sources@);
        assert(orig.subrange(0, j) =~= orig);
    }
    before != store.sources.len()
}

} // verus!

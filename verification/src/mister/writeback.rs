//! Writing the backend's policy back into the configuration file: the
//! global settings it decides replace those in the file, and each source
//! policy updates the stored source it is for or adds a new one.
use vstd::prelude::*;
use crate::ini::{lines, split_lines};
use crate::steamdeck::scanner::{ascii_upper, upper_vec};
use crate::num::{decimal_text, u64_text};
use crate::mister::backend_config::{
    BackendConfigSyncResponse, BackendGlobalPolicy, BackendPolicy, BackendSourcePolicy, global_of, SourceFacts, normalize_systems,
    normalized_systems, opt_parse_kind, opt_parse_profile, policy_for, response_policies, sources_of,
};
use crate::mister::sources::{
    EmulatorProfile, Source, SourceKind, SourceStore, copy_strings, default_profile,
    default_profile_for_kind, default_systems, normalize_source_id, source_id,
};
use crate::text::{
    bool_str, bool_text, chars_of, concat2, escape_quotes, escape_quotes_str, find_char, first_index,
    join_strings, join_with, owned, slice_vec, str_eq, string_of, trim, trim_str, trim_vec,
};

verus! {

// ---------------------------------------------------------------------------
// Stored sources
// ---------------------------------------------------------------------------

/// What the writeback keeps of a stored source (all of it but the time it
/// was created).
pub open spec fn stored_facts(s: Source) -> SourceFacts {
    SourceFacts {
        id: s.id@,
        name: s.name@,
        kind: s.kind,
        profile: s.profile,
        save_roots: s.save_roots.deep_view(),
        rom_roots: s.rom_roots.deep_view(),
        recursive: s.recursive,
        systems: s.systems.deep_view(),
        create_missing_system_dirs: s.create_missing_system_dirs,
        managed: s.managed,
        origin: s.origin@,
    }
}

pub open spec fn all_stored(s: Seq<Source>) -> Seq<SourceFacts> {
    Seq::new(s.len(), |i: int| stored_facts(s[i]))
}

/// The save roots a policy gives: its list, else its single path, else none.
pub open spec fn policy_save_roots(p: BackendSourcePolicy) -> Seq<Seq<char>> {
    if p.save_roots@.len() > 0 {
        p.save_roots.deep_view()
    } else if p.save_path is Some {
        seq![p.save_path->0@]
    } else {
        Seq::empty()
    }
}

/// The ROM roots a policy gives: its list, else its single path, else the
/// save roots.
pub open spec fn policy_rom_roots(p: BackendSourcePolicy, save: Seq<Seq<char>>) -> Seq<Seq<char>> {
    if p.rom_roots@.len() > 0 {
        p.rom_roots.deep_view()
    } else if p.rom_path is Some {
        seq![p.rom_path->0@]
    } else {
        save
    }
}

/// A stored source after a policy for it. Unlike the run-time policy, the
/// name and the managed flag may change, a disabled source loses its systems
/// even where the policy names some, the ROM roots follow the new save roots
/// where the policy gives none, and an empty origin becomes
/// `backend-policy`.
pub open spec fn stored_applied(f: SourceFacts, p: BackendSourcePolicy) -> SourceFacts {
    let save = if policy_save_roots(p).len() > 0 { policy_save_roots(p) } else { f.save_roots };
    let rom = if policy_rom_roots(p, save).len() > 0 { policy_rom_roots(p, save) } else { f.rom_roots };
    let systems = match p.systems {
        Some(v) => normalized_systems(v.deep_view()),
        None => f.systems,
    };
    SourceFacts {
        name: match p.name {
            Some(n) => n@,
            None => f.name,
        },
        kind: match opt_parse_kind(p.kind) {
            Some(k) => k,
            None => f.kind,
        },
        profile: match opt_parse_profile(p.profile) {
            Some(x) => x,
            None => f.profile,
        },
        save_roots: save,
        rom_roots: rom,
        recursive: match p.recursive {
            Some(b) => b,
            None => f.recursive,
        },
        systems: if p.enabled == Some(false) { Seq::empty() } else { systems },
        create_missing_system_dirs: match p.create_missing_system_dirs {
            Some(b) => b,
            None => f.create_missing_system_dirs,
        },
        managed: match p.managed {
            Some(b) => b,
            None => f.managed,
        },
        origin: match p.origin {
            Some(o) => o@,
            None => if trim(f.origin).len() == 0 { "backend-policy"@ } else { f.origin },
        },
        ..f
    }
}

/// The name a new source from a policy gets: the policy's name, else its
/// id, else `Backend Source`.
pub open spec fn policy_name(p: BackendSourcePolicy) -> Seq<char> {
    match p.name {
        Some(n) => n@,
        None => match p.id {
            Some(i) => i@,
            None => "Backend Source"@,
        },
    }
}

/// The source a policy for no stored source adds; none where the policy
/// gives no save root.
pub open spec fn new_from_policy(p: BackendSourcePolicy) -> Option<SourceFacts> {
    let save = policy_save_roots(p);
    let kind = match opt_parse_kind(p.kind) {
        Some(k) => k,
        None => SourceKind::Custom,
    };
    if save.len() == 0 {
        None
    } else {
        Some(SourceFacts {
            id: match p.id {
                Some(i) => source_id(i@),
                None => source_id(policy_name(p)),
            },
            name: policy_name(p),
            kind,
            profile: match opt_parse_profile(p.profile) {
                Some(x) => x,
                None => default_profile(kind),
            },
            save_roots: save,
            rom_roots: policy_rom_roots(p, save),
            recursive: match p.recursive {
                Some(b) => b,
                None => true,
            },
            systems: if p.enabled == Some(false) {
                Seq::empty()
            } else {
                match p.systems {
                    Some(v) => normalized_systems(v.deep_view()),
                    None => default_systems(kind),
                }
            },
            create_missing_system_dirs: match p.create_missing_system_dirs {
                Some(b) => b,
                None => false,
            },
            managed: match p.managed {
                Some(b) => b,
                None => false,
            },
            origin: match p.origin {
                Some(o) => o@,
                None => "backend-policy"@,
            },
        })
    }
}

/// The first stored source a policy is for; the length when there is none.
pub open spec fn first_match(fs: Seq<SourceFacts>, p: BackendSourcePolicy) -> int
    decreases fs.len(),
{
    if fs.len() == 0 {
        0
    } else {
        let j = first_match(fs.drop_last(), p);
        if j < fs.len() - 1 {
            j
        } else if policy_for(fs.last(), p) {
            fs.len() - 1
        } else {
            fs.len() as int
        }
    }
}

proof fn lemma_first_match(fs: Seq<SourceFacts>, p: BackendSourcePolicy, i: int)
    requires
        0 <= i <= fs.len(),
        forall|k: int| 0 <= k < i ==> !policy_for(#[trigger] fs[k], p),
        i < fs.len() ==> policy_for(fs[i], p),
    ensures
        first_match(fs, p) == i,
    decreases fs.len(),
{
    if fs.len() > 0 {
        let d = fs.drop_last();
        if i < fs.len() - 1 {
            assert forall|k: int| 0 <= k < i implies !policy_for(#[trigger] d[k], p) by {
                assert(d[k] == fs[k]);
            }
            assert(d[i] == fs[i]);
            lemma_first_match(d, p, i);
        } else {
            assert forall|k: int| 0 <= k < d.len() implies !policy_for(#[trigger] d[k], p) by {
                assert(d[k] == fs[k]);
            }
            lemma_first_match(d, p, d.len() as int);
        }
    }
}

proof fn lemma_first_match_props(fs: Seq<SourceFacts>, p: BackendSourcePolicy)
    ensures
        0 <= first_match(fs, p) <= fs.len(),
        first_match(fs, p) < fs.len() ==> policy_for(fs[first_match(fs, p)], p),
        forall|k: int| 0 <= k < first_match(fs, p) ==> !policy_for(#[trigger] fs[k], p),
    decreases fs.len(),
{
    if fs.len() > 0 {
        let d = fs.drop_last();
        lemma_first_match_props(d, p);
        assert forall|k: int| 0 <= k < d.len() implies d[k] == fs[k] by {}
    }
}

/// The stored sources after one source policy: the first source it is for
/// is updated, or else the source it describes is added.
pub open spec fn written_back(fs: Seq<SourceFacts>, p: BackendSourcePolicy) -> Seq<SourceFacts> {
    let i = first_match(fs, p);
    if i < fs.len() {
        fs.update(i, stored_applied(fs[i], p))
    } else {
        match new_from_policy(p) {
            Some(f) => fs.push(f),
            None => fs,
        }
    }
}

/// The stored sources after the policies, in order.
pub open spec fn after_writeback(fs: Seq<SourceFacts>, ps: Seq<BackendSourcePolicy>) -> Seq<SourceFacts>
    decreases ps.len(),
{
    if ps.len() == 0 {
        fs
    } else {
        written_back(after_writeback(fs, ps.drop_last()), ps.last())
    }
}

fn one_root(p: &String) -> (r: Vec<String>)
    ensures
        r.deep_view() == seq![p@],
{
    let mut v: Vec<String> = Vec::new();
    v.push(p.clone());
    assert(v.deep_view() =~= seq![p@]);
    v
}

/// The save roots a policy gives; see `policy_save_roots`.
pub fn source_policy_save_roots(policy: &BackendSourcePolicy) -> (r: Vec<String>)
    ensures
        r.deep_view() == policy_save_roots(*policy),
{
    if policy.save_roots.len() > 0 {
        copy_strings(&policy.save_roots)
    } else {
        match &policy.save_path {
            Some(p) => one_root(p),
            None => {
                let e: Vec<String> = Vec::new();
                assert(e.deep_view() =~= Seq::<Seq<char>>::empty());
                e
            },
        }
    }
}

/// The ROM roots a policy gives; see `policy_rom_roots`.
pub fn source_policy_rom_roots(policy: &BackendSourcePolicy, save_roots: &Vec<String>) -> (r: Vec<String>)
    ensures
        r.deep_view() == policy_rom_roots(*policy, save_roots.deep_view()),
{
    if policy.rom_roots.len() > 0 {
        copy_strings(&policy.rom_roots)
    } else {
        match &policy.rom_path {
            Some(p) => one_root(p),
            None => copy_strings(save_roots),
        }
    }
}

/// Whether a policy is for a stored source: by its id, else by its name.
pub fn source_policy_matches_source(source: &Source, policy: &BackendSourcePolicy) -> (r: bool)
    ensures
        r == policy_for(stored_facts(*source), *policy),
{
    match &policy.id {
        Some(id) => if str_eq(source.id.as_str(), id.as_str()) {
            return true;
        },
        None => {},
    }
    match &policy.name {
        Some(n) => str_eq(source.name.as_str(), n.as_str()),
        None => false,
    }
}

/// The source a policy for no stored source adds; see `new_from_policy`.
pub fn source_from_policy(policy: &BackendSourcePolicy) -> (r: Option<Source>)
    ensures
        match r {
            Some(s) => new_from_policy(*policy) == Some(stored_facts(s)),
            None => new_from_policy(*policy) is None,
        },
{
    let name = match &policy.name {
        Some(n) => n.clone(),
        None => match &policy.id {
            Some(i) => i.clone(),
            None => owned("Backend Source"),
        },
    };
    let kind = match &policy.kind {
        Some(k) => match SourceKind::parse(k.as_str()) {
            Some(x) => x,
            None => SourceKind::Custom,
        },
        None => SourceKind::Custom,
    };
    let save_roots = source_policy_save_roots(policy);
    if save_roots.len() == 0 {
        return None;
    }
    let rom_roots = source_policy_rom_roots(policy, &save_roots);
    let recursive = match policy.recursive {
        Some(b) => b,
        None => true,
    };
    let mut source = Source::new(name, kind, save_roots, rom_roots, recursive);
    match &policy.id {
        Some(id) => {
            source.id = normalize_source_id(id.as_str());
        },
        None => {},
    }
    source.profile = match &policy.profile {
        Some(p) => match EmulatorProfile::parse(p.as_str()) {
            Some(x) => x,
            None => default_profile_for_kind(&source.kind),
        },
        None => default_profile_for_kind(&source.kind),
    };
    match &policy.systems {
        Some(v) => {
            source.systems = normalize_systems(v);
        },
        None => {},
    }
    if policy.enabled == Some(false) {
        source.systems = Vec::new();
        assert(source.systems.deep_view() =~= Seq::<Seq<char>>::empty());
    }
    match policy.create_missing_system_dirs {
        Some(b) => {
            source.create_missing_system_dirs = b;
        },
        None => {},
    }
    source.managed = match policy.managed {
        Some(b) => b,
        None => false,
    };
    source.origin = match &policy.origin {
        Some(o) => o.clone(),
        None => owned("backend-policy"),
    };
    proof {
        assert(new_from_policy(*policy) =~= Some(stored_facts(source)));
    }
    Some(source)
}

fn stored_systems_after(policy: &BackendSourcePolicy, current: &Vec<String>) -> (r: Vec<String>)
    ensures
        r.deep_view() == if policy.enabled == Some(false) {
            Seq::<Seq<char>>::empty()
        } else {
            match policy.systems {
                Some(v) => normalized_systems(v.deep_view()),
                None => current.deep_view(),
            }
        },
{
    if policy.enabled == Some(false) {
        let e: Vec<String> = Vec::new();
        assert(e.deep_view() =~= Seq::<Seq<char>>::empty());
        e
    } else {
        match &policy.systems {
            Some(v) => normalize_systems(v),
            None => copy_strings(current),
        }
    }
}

fn stored_origin_after(policy: &BackendSourcePolicy, current: &String) -> (r: String)
    ensures
        r@ == match policy.origin {
            Some(o) => o@,
            None => if trim(current@).len() == 0 { "backend-policy"@ } else { current@ },
        },
{
    match &policy.origin {
        Some(o) => o.clone(),
        None => {
            let t = trim_str(current.as_str());
            if t.len() == 0 {
                owned("backend-policy")
            } else {
                current.clone()
            }
        },
    }
}

fn pick_roots(given: Vec<String>, current: &Vec<String>) -> (r: Vec<String>)
    ensures
        r.deep_view() == if given.deep_view().len() > 0 { given.deep_view() } else { current.deep_view() },
{
    if given.len() > 0 {
        given
    } else {
        copy_strings(current)
    }
}

/// Applies a policy to the stored source it is for; see `stored_applied`.
pub fn apply_policy_to_stored_source(source: &mut Source, policy: &BackendSourcePolicy)
    ensures
        stored_facts(*final(source)) == stored_applied(stored_facts(*old(source)), *policy),
        final(source).created_at == old(source).created_at,
{
    let name = match &policy.name {
        Some(n) => n.clone(),
        None => source.name.clone(),
    };
    let kind = crate::mister::backend_config::kind_after(policy, source.kind);
    let profile = crate::mister::backend_config::profile_after(policy, source.profile);
    let save_roots = pick_roots(source_policy_save_roots(policy), &source.save_roots);
    let rom_roots = pick_roots(source_policy_rom_roots(policy, &save_roots), &source.rom_roots);
    let recursive = match policy.recursive {
        Some(b) => b,
        None => source.recursive,
    };
    let systems = stored_systems_after(policy, &source.systems);
    let create = match policy.create_missing_system_dirs {
        Some(b) => b,
        None => source.create_missing_system_dirs,
    };
    let managed = match policy.managed {
        Some(b) => b,
        None => source.managed,
    };
    let origin = stored_origin_after(policy, &source.origin);
    source.name = name;
    source.kind = kind;
    source.profile = profile;
    source.save_roots = save_roots;
    source.rom_roots = rom_roots;
    source.recursive = recursive;
    source.systems = systems;
    source.create_missing_system_dirs = create;
    source.managed = managed;
    source.origin = origin;
    proof {
        assert(stored_facts(*source) =~= stored_applied(stored_facts(*old(source)), *policy));
    }
}

/// Writes one source policy back into the stored sources; see
/// `written_back`.
pub fn write_back_source_policy(sources: &mut Vec<Source>, policy: &BackendSourcePolicy)
    ensures
        all_stored(final(sources)@) == written_back(all_stored(old(sources)@), *policy),
{
    let ghost fs = all_stored(sources@);
    let mut i: usize = 0;
    while i < sources.len()
        invariant
            0 <= i <= sources@.len(),
            fs == all_stored(sources@),
            fs == all_stored(old(sources)@),
            forall|k: int| 0 <= k < i ==> !policy_for(#[trigger] fs[k], *policy),
        decreases sources@.len() - i,
    {
        if source_policy_matches_source(&sources[i], policy) {
            proof {
                lemma_first_match(fs, *policy, i as int);
            }
            let ghost old_sources = sources@;
            let mut s = sources.remove(i);
            apply_policy_to_stored_source(&mut s, policy);
            sources.insert(i, s);
            proof {
                assert(sources@ =~= old_sources.update(i as int, s));
                assert(fs[i as int] == stored_facts(old_sources[i as int]));
                assert(all_stored(sources@) =~= fs.update(i as int, stored_applied(fs[i as int], *policy)));
                assert(first_match(fs, *policy) == i);
                assert(written_back(fs, *policy) == fs.update(i as int, stored_applied(fs[i as int], *policy)));
            }
            return;
        }
        i = i + 1;
    }
    proof {
        lemma_first_match(fs, *policy, fs.len() as int);
    }
    match source_from_policy(policy) {
        Some(s) => {
            sources.push(s);
            proof {
                assert(all_stored(sources@) =~= written_back(fs, *policy));
            }
        },
        None => {},
    }
}

fn write_back_all_of(
    sources: &mut Vec<Source>,
    policies: &Vec<BackendSourcePolicy>,
    Ghost(start): Ghost<Seq<SourceFacts>>,
    Ghost(done): Ghost<Seq<BackendSourcePolicy>>,
)
    requires
        all_stored(old(sources)@) == after_writeback(start, done),
    ensures
        all_stored(final(sources)@) == after_writeback(start, done + policies@),
{
    let mut i: usize = 0;
    while i < policies.len()
        invariant
            0 <= i <= policies@.len(),
            all_stored(sources@) == after_writeback(start, done + policies@.subrange(0, i as int)),
        decreases policies@.len() - i,
    {
        write_back_source_policy(sources, &policies[i]);
        proof {
            let ps = done + policies@.subrange(0, i + 1);
            assert(ps.drop_last() =~= done + policies@.subrange(0, i as int));
            assert(ps.last() == policies@[i as int]);
        }
        i = i + 1;
    }
    assert(policies@.subrange(0, policies@.len() as int) =~= policies@);
}

fn write_back_policy_of(
    sources: &mut Vec<Source>,
    policy: &Option<BackendPolicy>,
    Ghost(start): Ghost<Seq<SourceFacts>>,
    Ghost(done): Ghost<Seq<BackendSourcePolicy>>,
)
    requires
        all_stored(old(sources)@) == after_writeback(start, done),
    ensures
        all_stored(final(sources)@) == after_writeback(start, done + sources_of(*policy)),
{
    match policy {
        Some(p) => write_back_all_of(sources, &p.sources, Ghost(start), Ghost(done)),
        None => {
            assert(done + sources_of(*policy) =~= done);
        },
    }
}

/// Writes every source policy of a response back into the store, in order;
/// see `after_writeback`.
pub fn apply_source_writeback(store: &mut SourceStore, response: &BackendConfigSyncResponse)
    ensures
        all_stored(final(store).sources@) == after_writeback(all_stored(old(store).sources@), response_policies(*response)),
{
    let ghost start = all_stored(store.sources@);
    let ghost d0: Seq<BackendSourcePolicy> = seq![];
    assert(after_writeback(start, d0) == start);
    write_back_all_of(&mut store.sources, &response.sources, Ghost(start), Ghost(d0));
    let ghost d1 = d0 + response.sources@;
    write_back_policy_of(&mut store.sources, &response.policy, Ghost(start), Ghost(d1));
    let ghost d2 = d1 + sources_of(response.policy);
    write_back_policy_of(&mut store.sources, &response.desired_config, Ghost(start), Ghost(d2));
    let ghost d3 = d2 + sources_of(response.desired_config);
    write_back_policy_of(&mut store.sources, &response.effective_config, Ghost(start), Ghost(d3));
    proof {
        assert(d3 + sources_of(response.effective_config) =~= response_policies(*response));
    }
}

// ---------------------------------------------------------------------------
// Global settings
// ---------------------------------------------------------------------------

/// The later setting where it is set, else the earlier one.
pub open spec fn later_or<T>(later: Option<T>, earlier: Option<T>) -> Option<T> {
    if later is Some {
        later
    } else {
        earlier
    }
}

/// The global settings after one more policy: each setting it makes
/// replaces the one before.
pub open spec fn merged_global(acc: BackendGlobalPolicy, p: Option<BackendGlobalPolicy>) -> BackendGlobalPolicy {
    match p {
        None => acc,
        Some(g) => BackendGlobalPolicy {
            url: later_or(g.url, acc.url),
            port: later_or(g.port, acc.port),
            email: later_or(g.email, acc.email),
            root: later_or(g.root, acc.root),
            state_dir: later_or(g.state_dir, acc.state_dir),
            watch: later_or(g.watch, acc.watch),
            watch_interval: later_or(g.watch_interval, acc.watch_interval),
            force_upload: later_or(g.force_upload, acc.force_upload),
            dry_run: later_or(g.dry_run, acc.dry_run),
            route_prefix: later_or(g.route_prefix, acc.route_prefix),
        },
    }
}

pub open spec fn no_global() -> BackendGlobalPolicy {
    BackendGlobalPolicy {
        url: None,
        port: None,
        email: None,
        root: None,
        state_dir: None,
        watch: None,
        watch_interval: None,
        force_upload: None,
        dry_run: None,
        route_prefix: None,
    }
}

/// The global settings a response decides: the top-level policy, then those
/// under `policy`, `desiredConfig` and `effectiveConfig`, a later one
/// winning.
pub open spec fn response_global(r: BackendConfigSyncResponse) -> BackendGlobalPolicy {
    merged_global(
        merged_global(merged_global(merged_global(no_global(), r.global), global_of(r.policy)), global_of(r.desired_config)),
        global_of(r.effective_config),
    )
}

pub open spec fn text_of(o: Option<String>) -> Option<Seq<char>> {
    match o {
        Some(s) => Some(s@),
        None => None,
    }
}

pub open spec fn bool_of(o: Option<bool>) -> Option<Seq<char>> {
    match o {
        Some(b) => Some(bool_text(b)),
        None => None,
    }
}

pub open spec fn number_of(o: Option<u64>) -> Option<Seq<char>> {
    match o {
        Some(n) => Some(decimal_text(n as nat)),
        None => None,
    }
}

pub open spec fn port_of(o: Option<u16>) -> Option<Seq<char>> {
    match o {
        Some(n) => Some(decimal_text(n as nat)),
        None => None,
    }
}

pub open spec fn pair_if(key: Seq<char>, v: Option<Seq<char>>) -> Seq<(Seq<char>, Seq<char>)> {
    match v {
        Some(x) => seq![(key, x)],
        None => seq![],
    }
}

/// The configuration keys and values a set of global settings writes, in
/// the order of the keys.
pub open spec fn writeback_pairs(g: BackendGlobalPolicy) -> Seq<(Seq<char>, Seq<char>)> {
    pair_if("DRY_RUN"@, bool_of(g.dry_run)) + pair_if("EMAIL"@, text_of(g.email)) + pair_if(
        "FORCE_UPLOAD"@,
        bool_of(g.force_upload),
    ) + pair_if("PORT"@, port_of(g.port)) + pair_if("ROOT"@, text_of(g.root)) + pair_if(
        "ROUTE_PREFIX"@,
        text_of(g.route_prefix),
    ) + pair_if("STATE_DIR"@, text_of(g.state_dir)) + pair_if("URL"@, text_of(g.url)) + pair_if(
        "WATCH"@,
        bool_of(g.watch),
    ) + pair_if("WATCH_INTERVAL"@, number_of(g.watch_interval))
}

pub open spec fn pairs_view(v: Seq<(String, String)>) -> Seq<(Seq<char>, Seq<char>)> {
    Seq::new(v.len(), |i: int| (v[i].0@, v[i].1@))
}

/// Merges one more global policy into the settings; see `merged_global`.
pub fn merge_global_policy(acc: &mut BackendGlobalPolicy, policy: &BackendGlobalPolicy)
    ensures
        *final(acc) == merged_global(*old(acc), Some(*policy)),
{
    let url = match &policy.url {
        Some(v) => Some(v.clone()),
        None => acc.url.clone(),
    };
    let email = match &policy.email {
        Some(v) => Some(v.clone()),
        None => acc.email.clone(),
    };
    let root = match &policy.root {
        Some(v) => Some(v.clone()),
        None => acc.root.clone(),
    };
    let state_dir = match &policy.state_dir {
        Some(v) => Some(v.clone()),
        None => acc.state_dir.clone(),
    };
    let route_prefix = match &policy.route_prefix {
        Some(v) => Some(v.clone()),
        None => acc.route_prefix.clone(),
    };
    if policy.port.is_some() {
        acc.port = policy.port;
    }
    if policy.watch.is_some() {
        acc.watch = policy.watch;
    }
    if policy.watch_interval.is_some() {
        acc.watch_interval = policy.watch_interval;
    }
    if policy.force_upload.is_some() {
        acc.force_upload = policy.force_upload;
    }
    if policy.dry_run.is_some() {
        acc.dry_run = policy.dry_run;
    }
    acc.url = url;
    acc.email = email;
    acc.root = root;
    acc.state_dir = state_dir;
    acc.route_prefix = route_prefix;
}

fn merge_policy_of(acc: &mut BackendGlobalPolicy, p: &Option<BackendPolicy>)
    ensures
        *final(acc) == merged_global(*old(acc), global_of(*p)),
{
    match p {
        Some(x) => match &x.global {
            Some(g) => merge_global_policy(acc, g),
            None => {},
        },
        None => {},
    }
}

fn push_pair(out: &mut Vec<(String, String)>, key: &str, value: Option<String>)
    ensures
        pairs_view(final(out)@) == pairs_view(old(out)@) + pair_if(key@, text_of(value)),
{
    match value {
        Some(v) => {
            out.push((owned(key), v));
            assert(pairs_view(out@) =~= pairs_view(old(out)@) + pair_if(key@, text_of(Some(v))));
        },
        None => {
            assert(pairs_view(out@) =~= pairs_view(old(out)@) + pair_if(key@, text_of(value)));
        },
    }
}

fn bool_value(b: Option<bool>) -> (r: Option<String>)
    ensures
        text_of(r) == bool_of(b),
{
    match b {
        Some(x) => Some(owned(bool_str(x))),
        None => None,
    }
}

/// The configuration keys and values the global settings of a response
/// write; see `writeback_pairs`.
pub fn collect_global_writeback(response: &BackendConfigSyncResponse) -> (r: Vec<(String, String)>)
    ensures
        pairs_view(r@) == writeback_pairs(response_global(*response)),
{
    let mut g = BackendGlobalPolicy {
        url: None,
        port: None,
        email: None,
        root: None,
        state_dir: None,
        watch: None,
        watch_interval: None,
        force_upload: None,
        dry_run: None,
        route_prefix: None,
    };
    match &response.global {
        Some(x) => merge_global_policy(&mut g, x),
        None => {},
    }
    merge_policy_of(&mut g, &response.policy);
    merge_policy_of(&mut g, &response.desired_config);
    merge_policy_of(&mut g, &response.effective_config);
    let ghost gs = g;
    assert(gs == response_global(*response));
    let mut out: Vec<(String, String)> = Vec::new();
    push_pair(&mut out, "DRY_RUN", bool_value(g.dry_run));
    push_pair(&mut out, "EMAIL", g.email);
    push_pair(&mut out, "FORCE_UPLOAD", bool_value(g.force_upload));
    push_pair(
        &mut out,
        "PORT",
        match g.port {
            Some(n) => Some(u64_text(n as u64)),
            None => None,
        },
    );
    push_pair(&mut out, "ROOT", g.root);
    push_pair(&mut out, "ROUTE_PREFIX", g.route_prefix);
    push_pair(&mut out, "STATE_DIR", g.state_dir);
    push_pair(&mut out, "URL", g.url);
    push_pair(&mut out, "WATCH", bool_value(g.watch));
    push_pair(
        &mut out,
        "WATCH_INTERVAL",
        match g.watch_interval {
            Some(n) => Some(u64_text(n)),
            None => None,
        },
    );
    proof {
        assert(pairs_view(out@) =~= writeback_pairs(gs));
    }
    out
}

/// Whether a response has anything to write back: a source policy, or a
/// global setting.
pub fn response_has_writeback(response: &BackendConfigSyncResponse) -> (r: bool)
    ensures
        r == (response_policies(*response).len() > 0 || writeback_pairs(response_global(*response)).len() > 0),
{
    let any_source = response.sources.len() > 0 || match &response.policy {
        Some(p) => p.sources.len() > 0,
        None => false,
    } || match &response.desired_config {
        Some(p) => p.sources.len() > 0,
        None => false,
    } || match &response.effective_config {
        Some(p) => p.sources.len() > 0,
        None => false,
    };
    let pairs = collect_global_writeback(response);
    any_source || pairs.len() > 0
}

// ---------------------------------------------------------------------------
// Writing the global settings into the file
// ---------------------------------------------------------------------------

/// A setting line: `KEY="value"`, quotes in the value escaped.
pub open spec fn setting_line(key: Seq<char>, value: Seq<char>) -> Seq<char> {
    key + "=\""@ + escape_quotes(value) + "\""@
}

/// The value a key is set to, where the updates set it (the last one for
/// the key).
pub open spec fn update_for(ups: Seq<(Seq<char>, Seq<char>)>, key: Seq<char>) -> Option<Seq<char>>
    decreases ups.len(),
{
    if ups.len() == 0 {
        None
    } else if ups.last().0 == key {
        Some(ups.last().1)
    } else {
        update_for(ups.drop_last(), key)
    }
}

pub open spec fn update_keys(ups: Seq<(Seq<char>, Seq<char>)>) -> Seq<Seq<char>> {
    ups.map_values(|u: (Seq<char>, Seq<char>)| u.0)
}

/// The setting lines for the updates whose key is not yet written, in order.
pub open spec fn missing_lines(ups: Seq<(Seq<char>, Seq<char>)>, written: Seq<Seq<char>>) -> Seq<Seq<char>>
    decreases ups.len(),
{
    if ups.len() == 0 {
        seq![]
    } else {
        let rest = missing_lines(ups.drop_last(), written);
        if written.contains(ups.last().0) {
            rest
        } else {
            rest.push(setting_line(ups.last().0, ups.last().1))
        }
    }
}

pub open spec fn is_section_header(t: Seq<char>) -> bool {
    t.len() > 0 && t[0] == '[' && t.last() == ']'
}

/// The key of a `key=value` line before any section: what stands before the
/// first `=`, trimmed and upper-cased.
pub open spec fn line_key(t: Seq<char>) -> Seq<char> {
    ascii_upper(trim(t.subrange(0, first_index(t, '='))))
}

/// Reading one more line: before the first section header the missing
/// settings are added; a setting line before any section whose key is
/// updated is replaced; every other line is kept.
pub open spec fn ini_step(
    ups: Seq<(Seq<char>, Seq<char>)>,
    st: (bool, Seq<Seq<char>>, Seq<Seq<char>>),
    line: Seq<char>,
) -> (bool, Seq<Seq<char>>, Seq<Seq<char>>) {
    let t = trim(line);
    let (in_section, written, out) = st;
    if is_section_header(t) {
        if !in_section {
            (true, written + update_keys(ups), out + missing_lines(ups, written) + seq![line])
        } else {
            (true, written, out.push(line))
        }
    } else if !in_section && first_index(t, '=') >= 0 && update_for(ups, line_key(t)) is Some {
        let k = line_key(t);
        (false, written.push(k), out.push(setting_line(k, update_for(ups, k)->0)))
    } else {
        (in_section, written, out.push(line))
    }
}

pub open spec fn ini_state(
    ups: Seq<(Seq<char>, Seq<char>)>,
    ls: Seq<Seq<char>>,
) -> (bool, Seq<Seq<char>>, Seq<Seq<char>>)
    decreases ls.len(),
{
    if ls.len() == 0 {
        (false, seq![], seq![])
    } else {
        ini_step(ups, ini_state(ups, ls.drop_last()), ls.last())
    }
}

/// The lines without the blank lines at the end.
pub open spec fn without_blank_tail(ls: Seq<Seq<char>>) -> Seq<Seq<char>>
    decreases ls.len(),
{
    if ls.len() > 0 && trim(ls.last()).len() == 0 {
        without_blank_tail(ls.drop_last())
    } else {
        ls
    }
}

/// The configuration text with the global settings written in: unchanged
/// when there is nothing to write; else each setting replaces its line
/// before the first section, the rest are added before that section (or at
/// the end), blank lines at the end are dropped, and the text ends with a
/// newline.
pub open spec fn ini_with_globals(existing: Seq<char>, ups: Seq<(Seq<char>, Seq<char>)>) -> Seq<char> {
    if ups.len() == 0 {
        existing
    } else {
        let (in_section, written, out) = ini_state(ups, lines(existing));
        let all = if in_section { out } else { out + missing_lines(ups, written) };
        join_with(without_blank_tail(all), "\n"@) + "\n"@
    }
}

fn lookup_update(ups: &Vec<(String, String)>, key: &Vec<char>) -> (r: Option<String>)
    ensures
        text_of(r) == update_for(pairs_view(ups@), key@),
{
    let mut found: Option<String> = None;
    let mut i: usize = 0;
    while i < ups.len()
        invariant
            0 <= i <= ups@.len(),
            text_of(found) == update_for(pairs_view(ups@.subrange(0, i as int)), key@),
        decreases ups@.len() - i,
    {
        let ghost sub = pairs_view(ups@.subrange(0, i + 1));
        assert(sub.drop_last() =~= pairs_view(ups@.subrange(0, i as int)));
        let k = chars_of(ups[i].0.as_str());
        if crate::text::seq_eq(k.as_slice(), key.as_slice()) {
            found = Some(ups[i].1.clone());
        }
        i = i + 1;
    }
    assert(ups@.subrange(0, ups@.len() as int) =~= ups@);
    found
}

fn is_written(written: &Vec<String>, key: &str) -> (r: bool)
    ensures
        r == written.deep_view().contains(key@),
{
    let mut i: usize = 0;
    while i < written.len()
        invariant
            0 <= i <= written@.len(),
            forall|j: int| 0 <= j < i ==> written.deep_view()[j] != key@,
        decreases written@.len() - i,
    {
        if str_eq(written[i].as_str(), key) {
            assert(written.deep_view()[i as int] == key@);
            return true;
        }
        i = i + 1;
    }
    false
}

fn setting_line_exec(key: &str, value: &str) -> (r: String)
    ensures
        r@ == setting_line(key@, value@),
{
    let a = concat2(key, "=\"");
    let b = concat2(a.as_str(), escape_quotes_str(value).as_str());
    concat2(b.as_str(), "\"")
}

fn push_missing(out: &mut Vec<String>, ups: &Vec<(String, String)>, written: &Vec<String>)
    ensures
        final(out).deep_view() == old(out).deep_view() + missing_lines(pairs_view(ups@), written.deep_view()),
{
    let ghost start = out.deep_view();
    let mut i: usize = 0;
    while i < ups.len()
        invariant
            0 <= i <= ups@.len(),
            out.deep_view() == start + missing_lines(pairs_view(ups@.subrange(0, i as int)), written.deep_view()),
        decreases ups@.len() - i,
    {
        let ghost sub = pairs_view(ups@.subrange(0, i + 1));
        assert(sub.drop_last() =~= pairs_view(ups@.subrange(0, i as int)));
        if !is_written(written, ups[i].0.as_str()) {
            let line = setting_line_exec(ups[i].0.as_str(), ups[i].1.as_str());
            let ghost before = out.deep_view();
            out.push(line);
            assert(out.deep_view() =~= before.push(line@));
        }
        i = i + 1;
    }
    assert(ups@.subrange(0, ups@.len() as int) =~= ups@);
}

fn push_keys(written: &mut Vec<String>, ups: &Vec<(String, String)>)
    ensures
        final(written).deep_view() == old(written).deep_view() + update_keys(pairs_view(ups@)),
{
    let ghost start = written.deep_view();
    let mut i: usize = 0;
    while i < ups.len()
        invariant
            0 <= i <= ups@.len(),
            written.deep_view() == start + update_keys(pairs_view(ups@.subrange(0, i as int))),
        decreases ups@.len() - i,
    {
        let ghost before = written.deep_view();
        written.push(ups[i].0.clone());
        assert(update_keys(pairs_view(ups@.subrange(0, i + 1))) =~= update_keys(pairs_view(ups@.subrange(0, i as int))).push(ups@[i as int].0@));
        assert(written.deep_view() =~= before.push(ups@[i as int].0@));
        i = i + 1;
    }
    assert(ups@.subrange(0, ups@.len() as int) =~= ups@);
}

fn read_line(
    ups: &Vec<(String, String)>,
    in_section: &mut bool,
    written: &mut Vec<String>,
    out: &mut Vec<String>,
    line: &Vec<char>,
)
    ensures
        (*final(in_section), final(written).deep_view(), final(out).deep_view()) == ini_step(
            pairs_view(ups@),
            (*old(in_section), old(written).deep_view(), old(out).deep_view()),
            line@,
        ),
{
    let t = trim_vec(line.as_slice());
    let ghost before_out = out.deep_view();
    let line_str = string_of(line.as_slice());
    if t.len() > 0 && t[0] == '[' && t[t.len() - 1] == ']' {
        if !*in_section {
            push_missing(out, ups, written);
            push_keys(written, ups);
        }
        *in_section = true;
        let ghost mid = out.deep_view();
        out.push(line_str);
        assert(out.deep_view() =~= mid.push(line@));
        proof {
            assert(seq![line@] =~= Seq::<Seq<char>>::empty().push(line@));
        }
        return;
    }
    if !*in_section {
        match find_char(t.as_slice(), '=') {
            Some(eq) => {
                let head = slice_vec(t.as_slice(), 0, eq);
                let k = upper_vec(trim_vec(head.as_slice()).as_slice());
                match lookup_update(ups, &k) {
                    Some(v) => {
                        let ks = string_of(k.as_slice());
                        let l = setting_line_exec(ks.as_str(), v.as_str());
                        let ghost wb = written.deep_view();
                        written.push(ks);
                        assert(written.deep_view() =~= wb.push(k@));
                        out.push(l);
                        assert(out.deep_view() =~= before_out.push(l@));
                        return;
                    },
                    None => {},
                }
            },
            None => {},
        }
    }
    out.push(line_str);
    assert(out.deep_view() =~= before_out.push(line@));
}

/// Writes the global settings into the configuration text; see
/// `ini_with_globals`. The updates name each key once.
pub fn apply_global_writeback_to_ini(existing: &str, updates: &Vec<(String, String)>) -> (r: String)
    ensures
        r@ == ini_with_globals(existing@, pairs_view(updates@)),
{
    if updates.len() == 0 {
        return owned(existing);
    }
    let chars = chars_of(existing);
    let ls = split_lines(chars.as_slice());
    let ghost lv = ls.deep_view();
    let mut in_section = false;
    let mut written: Vec<String> = Vec::new();
    let mut out: Vec<String> = Vec::new();
    let mut i: usize = 0;
    proof {
        assert(written.deep_view() =~= Seq::<Seq<char>>::empty());
        assert(out.deep_view() =~= Seq::<Seq<char>>::empty());
        assert(lv.subrange(0, 0) =~= Seq::<Seq<char>>::empty());
    }
    while i < ls.len()
        invariant
            0 <= i <= ls@.len(),
            lv == ls.deep_view(),
            lv == lines(existing@),
            (in_section, written.deep_view(), out.deep_view()) == ini_state(pairs_view(updates@), lv.subrange(0, i as int)),
        decreases ls@.len() - i,
    {
        assert(lv.subrange(0, i + 1).drop_last() =~= lv.subrange(0, i as int));
        assert(lv[i as int] == ls@[i as int]@);
        read_line(updates, &mut in_section, &mut written, &mut out, &ls[i]);
        i = i + 1;
    }
    assert(lv.subrange(0, lv.len() as int) =~= lv);
    if !in_section {
        push_missing(&mut out, updates, &written);
    }
    let ghost all = out.deep_view();
    while out.len() > 0 && trim_str(out[out.len() - 1].as_str()).len() == 0
        invariant
            without_blank_tail(out.deep_view()) == without_blank_tail(all),
        decreases out@.len(),
    {
        let ghost before = out.deep_view();
        out.pop();
        assert(out.deep_view() =~= before.drop_last());
    }
    let joined = join_strings(&out, "\n");
    concat2(joined.as_str(), "\n")
}

// ---------------------------------------------------------------------------
// What the writeback promises
// ---------------------------------------------------------------------------

/// A source policy changes the stored sources by at most one: it updates
/// the first source it is for in place, or else adds the one source it
/// describes (a policy without a save root adds nothing). The sources it is
/// not written into stay as they were.
pub proof fn law_policy_updates_one_source(fs: Seq<SourceFacts>, p: BackendSourcePolicy)
    ensures
        (exists|i: int| 0 <= i < fs.len() && policy_for(fs[i], p)) ==> {
            let i = first_match(fs, p);
            &&& written_back(fs, p).len() == fs.len()
            &&& written_back(fs, p)[i] == stored_applied(fs[i], p)
            &&& forall|k: int| 0 <= k < fs.len() && k != i ==> written_back(fs, p)[k] == fs[k]
        },
        !(exists|i: int| 0 <= i < fs.len() && policy_for(fs[i], p)) ==> match new_from_policy(p) {
            Some(f) => written_back(fs, p) == fs.push(f),
            None => written_back(fs, p) == fs,
        },
{
    lemma_first_match_props(fs, p);
    if exists|i: int| 0 <= i < fs.len() && policy_for(fs[i], p) {
        let w = choose|i: int| 0 <= i < fs.len() && policy_for(fs[i], p);
        assert(first_match(fs, p) <= w);
    }
}

/// A stored source that the backend disables syncs nothing afterwards, even
/// where the policy also names systems.
pub proof fn law_disabled_stored_source_has_no_systems(fs: Seq<SourceFacts>, p: BackendSourcePolicy, i: int)
    requires
        p.enabled == Some(false),
        0 <= i < fs.len(),
        policy_for(fs[i], p),
    ensures
        0 <= first_match(fs, p) < fs.len(),
        written_back(fs, p)[first_match(fs, p)].systems.len() == 0,
{
    lemma_first_match_props(fs, p);
    assert(first_match(fs, p) <= i);
}

/// A response with nothing to write back leaves the configuration text as
/// it is.
pub proof fn law_nothing_to_write_keeps_text(existing: Seq<char>)
    ensures
        ini_with_globals(existing, seq![]) == existing,
{
}

/// The global settings of the effective configuration win: a setting it
/// makes is the one written.
pub proof fn law_effective_global_setting_wins(r: BackendConfigSyncResponse, g: BackendGlobalPolicy)
    requires
        global_of(r.effective_config) == Some(g),
    ensures
        g.url is Some ==> response_global(r).url == g.url,
        g.port is Some ==> response_global(r).port == g.port,
        g.email is Some ==> response_global(r).email == g.email,
        g.root is Some ==> response_global(r).root == g.root,
        g.state_dir is Some ==> response_global(r).state_dir == g.state_dir,
        g.watch is Some ==> response_global(r).watch == g.watch,
        g.watch_interval is Some ==> response_global(r).watch_interval == g.watch_interval,
        g.force_upload is Some ==> response_global(r).force_upload == g.force_upload,
        g.dry_run is Some ==> response_global(r).dry_run == g.dry_run,
        g.route_prefix is Some ==> response_global(r).route_prefix == g.route_prefix,
{
}

} // verus!

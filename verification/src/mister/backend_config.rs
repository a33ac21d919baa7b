//! The backend's configuration policy: the run flags it overrides, and what
//! it decides for the sources the helper syncs. The policy wins over the
//! local configuration.
use vstd::prelude::*;
use crate::mister::sources::{
    EmulatorProfile, ResolvedSource, SourceKind, kind_from_word, profile_from_word,
};
use crate::text::{
    chars_of, insert_sorted_unique, lex_lt, lower, lower_char, lower_of, str_eq, string_of,
    strictly_sorted, trim, trim_vec, lemma_lex_total, lemma_lex_antisym,
};

verus! {

/// The run flags the backend sets, where it sets them.
#[derive(Debug, Clone, PartialEq, Eq, Structural)]
pub struct RuntimeConfigOverrides {
    pub force_upload: Option<bool>,
    pub dry_run: Option<bool>,
}

impl Default for RuntimeConfigOverrides {
    fn default() -> (r: Self)
        ensures
            r.force_upload is None,
            r.dry_run is None,
    {
        RuntimeConfigOverrides { force_upload: None, dry_run: None }
    }
}

/// Global settings the backend decides.
#[derive(Debug, Clone)]
pub struct BackendGlobalPolicy {
    pub url: Option<String>,
    pub port: Option<u16>,
    pub email: Option<String>,
    pub root: Option<String>,
    pub state_dir: Option<String>,
    pub watch: Option<bool>,
    pub watch_interval: Option<u64>,
    pub force_upload: Option<bool>,
    pub dry_run: Option<bool>,
    pub route_prefix: Option<String>,
}

/// What the backend decides for one source, found by id or name.
#[derive(Debug, Clone)]
pub struct BackendSourcePolicy {
    pub id: Option<String>,
    pub name: Option<String>,
    pub enabled: Option<bool>,
    pub kind: Option<String>,
    pub profile: Option<String>,
    pub save_roots: Vec<String>,
    pub save_path: Option<String>,
    pub rom_roots: Vec<String>,
    pub rom_path: Option<String>,
    pub recursive: Option<bool>,
    pub systems: Option<Vec<String>>,
    pub managed: Option<bool>,
    pub origin: Option<String>,
    pub create_missing_system_dirs: Option<bool>,
}

/// A set of source and global policies.
#[derive(Debug, Clone)]
pub struct BackendPolicy {
    pub sources: Vec<BackendSourcePolicy>,
    pub global: Option<BackendGlobalPolicy>,
}

/// The backend's answer to a configuration snapshot. Policies may come at
/// the top level and under `policy`, `desiredConfig` and `effectiveConfig`.
#[derive(Debug, Clone)]
pub struct BackendConfigSyncResponse {
    pub accepted: bool,
    pub policy: Option<BackendPolicy>,
    pub desired_config: Option<BackendPolicy>,
    pub effective_config: Option<BackendPolicy>,
    pub sources: Vec<BackendSourcePolicy>,
    pub global: Option<BackendGlobalPolicy>,
}

// ---------------------------------------------------------------------------
// Run flags
// ---------------------------------------------------------------------------

/// The overrides after one global policy: each flag it sets replaces the one
/// before.
pub open spec fn with_global(o: RuntimeConfigOverrides, p: Option<BackendGlobalPolicy>) -> RuntimeConfigOverrides {
    match p {
        None => o,
        Some(g) => RuntimeConfigOverrides {
            force_upload: if g.force_upload is Some { g.force_upload } else { o.force_upload },
            dry_run: if g.dry_run is Some { g.dry_run } else { o.dry_run },
        },
    }
}

pub open spec fn global_of(p: Option<BackendPolicy>) -> Option<BackendGlobalPolicy> {
    match p {
        Some(x) => x.global,
        None => None,
    }
}

/// The run flags the backend sets: from the top-level global policy, then
/// those under `policy`, `desiredConfig` and `effectiveConfig`, a later one
/// winning.
pub open spec fn response_overrides(r: BackendConfigSyncResponse) -> RuntimeConfigOverrides {
    let none = RuntimeConfigOverrides { force_upload: None, dry_run: None };
    with_global(
        with_global(with_global(with_global(none, r.global), global_of(r.policy)), global_of(r.desired_config)),
        global_of(r.effective_config),
    )
}

pub fn apply_global_policy(overrides: &mut RuntimeConfigOverrides, policy: Option<&BackendGlobalPolicy>)
    ensures
        *final(overrides) == with_global(*old(overrides), match policy {
            Some(p) => Some(*p),
            None => None,
        }),
{
    match policy {
        None => {},
        Some(p) => {
            if p.force_upload.is_some() {
                overrides.force_upload = p.force_upload;
            }
            if p.dry_run.is_some() {
                overrides.dry_run = p.dry_run;
            }
        },
    }
}

fn global_ref(p: &Option<BackendPolicy>) -> (r: Option<&BackendGlobalPolicy>)
    ensures
        match r {
            Some(g) => global_of(*p) == Some(*g),
            None => global_of(*p) is None,
        },
{
    match p {
        Some(x) => match &x.global {
            Some(g) => Some(g),
            None => None,
        },
        None => None,
    }
}

/// The run flags the backend sets; see `response_overrides`.
pub fn runtime_overrides(response: &BackendConfigSyncResponse) -> (r: RuntimeConfigOverrides)
    ensures
        r == response_overrides(*response),
{
    let mut o = RuntimeConfigOverrides { force_upload: None, dry_run: None };
    apply_global_policy(&mut o, match &response.global {
        Some(g) => Some(g),
        None => None,
    });
    apply_global_policy(&mut o, global_ref(&response.policy));
    apply_global_policy(&mut o, global_ref(&response.desired_config));
    apply_global_policy(&mut o, global_ref(&response.effective_config));
    o
}

// ---------------------------------------------------------------------------
// System lists
// ---------------------------------------------------------------------------

/// A system name as the backend's lists are read: trimmed, `_` and spaces
/// made `-`, ASCII lower case.
pub open spec fn system_token(v: Seq<char>) -> Seq<char> {
    lower(trim(v).map_values(|c: char| if c == '_' || c == ' ' { '-' } else { c }))
}

/// The system names of a list, read as tokens, blank ones left out.
pub open spec fn system_tokens_of(vals: Seq<Seq<char>>) -> Set<Seq<char>> {
    Set::new(|t: Seq<char>| t.len() > 0 && exists|i: int| 0 <= i < vals.len() && system_token(vals[i]) == t)
}

fn system_token_exec(v: &str) -> (r: String)
    ensures
        r@ == system_token(v@),
{
    let t = crate::text::trim_str(v);
    let mut out: Vec<char> = Vec::new();
    let mut i: usize = 0;
    while i < t.len()
        invariant
            0 <= i <= t@.len(),
            out@ == lower(t@.subrange(0, i as int).map_values(|c: char| if c == '_' || c == ' ' { '-' } else { c })),
        decreases t@.len() - i,
    {
        let c = t[i];
        let m = if c == '_' || c == ' ' { '-' } else { c };
        out.push(lower_of(m));
        i = i + 1;
        assert(out@ =~= lower(t@.subrange(0, i as int).map_values(|c: char| if c == '_' || c == ' ' { '-' } else { c })));
    }
    assert(t@.subrange(0, t@.len() as int) =~= t@);
    string_of(out.as_slice())
}

/// Two strictly sorted lists with the same texts are the same list.
pub proof fn lemma_sorted_unique(a: Seq<Seq<char>>, b: Seq<Seq<char>>)
    requires
        strictly_sorted(a),
        strictly_sorted(b),
        a.to_set() == b.to_set(),
    ensures
        a == b,
    decreases a.len(),
{
    if a.len() == 0 {
        if b.len() > 0 {
            assert(b.to_set().contains(b[0]));
        }
        assert(b.len() == 0);
        assert(a =~= b);
    } else if b.len() == 0 {
        assert(a.to_set().contains(a[0]));
    } else {
        let x = a.last();
        let y = b.last();
        assert(a.to_set().contains(x));
        assert(b.to_set().contains(y));
        let i = choose|i: int| 0 <= i < b.len() && b[i] == x;
        let j = choose|j: int| 0 <= j < a.len() && a[j] == y;
        if x != y {
            if i < b.len() - 1 {
                assert(lex_lt(b[i], b[b.len() - 1]));
            }
            if j < a.len() - 1 {
                assert(lex_lt(a[j], a[a.len() - 1]));
            }
            lemma_lex_antisym(x, y);
        }
        let a2 = a.drop_last();
        let b2 = b.drop_last();
        assert forall|e: Seq<char>| a2.to_set().contains(e) <==> b2.to_set().contains(e) by {
            if a2.contains(e) {
                let k = choose|k: int| 0 <= k < a2.len() && a2[k] == e;
                assert(lex_lt(a[k], a[a.len() - 1]));
                assert(b.to_set().contains(e));
                let m = choose|m: int| 0 <= m < b.len() && b[m] == e;
                if m == b.len() - 1 {
                } else {
                    assert(b2[m] == e);
                }
            }
            if b2.contains(e) {
                let k = choose|k: int| 0 <= k < b2.len() && b2[k] == e;
                assert(lex_lt(b[k], b[b.len() - 1]));
                assert(a.to_set().contains(e));
                let m = choose|m: int| 0 <= m < a.len() && a[m] == e;
                if m == a.len() - 1 {
                } else {
                    assert(a2[m] == e);
                }
            }
        }
        assert(a2.to_set() =~= b2.to_set());
        lemma_sorted_unique(a2, b2);
        assert(a =~= a2.push(x));
        assert(b =~= b2.push(y));
    }
}

/// The system list a policy sets: its names read as tokens, each once, in
/// lexicographic order.
pub open spec fn normalized_systems(vals: Seq<Seq<char>>) -> Seq<Seq<char>> {
    choose|s: Seq<Seq<char>>| strictly_sorted(s) && s.to_set() == system_tokens_of(vals)
}

/// The system list a policy sets; see `normalized_systems`.
pub fn normalize_systems(values: &Vec<String>) -> (r: Vec<String>)
    ensures
        r.deep_view() == normalized_systems(values.deep_view()),
{
    let ghost vals = values.deep_view();
    let mut out: Vec<String> = Vec::new();
    let mut i: usize = 0;
    assert(out.deep_view().to_set() =~= Set::<Seq<char>>::empty());
    while i < values.len()
        invariant
            0 <= i <= values@.len(),
            vals == values.deep_view(),
            strictly_sorted(out.deep_view()),
            out.deep_view().to_set() == system_tokens_of(vals.subrange(0, i as int)),
        decreases values@.len() - i,
    {
        let t = system_token_exec(values[i].as_str());
        assert(vals[i as int] == values@[i as int]@);
        let ghost before = out.deep_view().to_set();
        if chars_of(t.as_str()).len() > 0 {
            insert_sorted_unique(&mut out, t);
        }
        proof {
            let sub = vals.subrange(0, i + 1);
            assert forall|x: Seq<char>| system_tokens_of(sub).contains(x) <==> out.deep_view().to_set().contains(x) by {
                if system_tokens_of(sub).contains(x) {
                    let k = choose|k: int| 0 <= k < sub.len() && system_token(sub[k]) == x;
                    if k < i {
                        assert(vals.subrange(0, i as int)[k] == sub[k]);
                        assert(system_tokens_of(vals.subrange(0, i as int)).contains(x));
                    }
                }
                if before.contains(x) {
                    let k = choose|k: int| 0 <= k < i && system_token(vals.subrange(0, i as int)[k]) == x;
                    assert(sub[k] == vals.subrange(0, i as int)[k]);
                }
                if system_token(vals[i as int]) == x && x.len() > 0 {
                    assert(sub[i as int] == vals[i as int]);
                }
            }
            assert(system_tokens_of(sub) =~= out.deep_view().to_set());
        }
        i = i + 1;
    }
    proof {
        assert(vals.subrange(0, vals.len() as int) =~= vals);
        let w = out.deep_view();
        assert(strictly_sorted(w) && w.to_set() == system_tokens_of(vals));
        let c = normalized_systems(vals);
        lemma_sorted_unique(w, c);
    }
    out
}

// ---------------------------------------------------------------------------
// Source policies
// ---------------------------------------------------------------------------

/// Every source policy of a response: the top-level ones, then those under
/// `policy`, `desiredConfig` and `effectiveConfig`.
pub open spec fn sources_of(p: Option<BackendPolicy>) -> Seq<BackendSourcePolicy> {
    match p {
        Some(x) => x.sources@,
        None => seq![],
    }
}

pub open spec fn response_policies(r: BackendConfigSyncResponse) -> Seq<BackendSourcePolicy> {
    r.sources@ + sources_of(r.policy) + sources_of(r.desired_config) + sources_of(r.effective_config)
}

/// What the helper keeps of a resolved source.
#[verifier::ext_equal]
pub struct SourceFacts {
    pub id: Seq<char>,
    pub name: Seq<char>,
    pub kind: SourceKind,
    pub profile: EmulatorProfile,
    pub save_roots: Seq<Seq<char>>,
    pub rom_roots: Seq<Seq<char>>,
    pub recursive: bool,
    pub systems: Seq<Seq<char>>,
    pub create_missing_system_dirs: bool,
    pub managed: bool,
    pub origin: Seq<char>,
}

pub open spec fn facts(s: ResolvedSource) -> SourceFacts {
    SourceFacts {
        id: s.id@,
        name: s.name@,
        kind: s.kind,
        profile: s.profile,
        save_roots: s.save_roots.deep_view(),
        rom_roots: s.rom_roots.deep_view(),
        recursive: s.recursive,
        systems: s.systems.deep_view(),
        create_missing_system_dirs: s.create_missing_system_dirs,
        managed: s.managed,
        origin: s.origin@,
    }
}

/// Whether a policy is for a source: by its id, else by its name.
pub open spec fn policy_for(f: SourceFacts, p: BackendSourcePolicy) -> bool {
    (p.id is Some && p.id->0@ == f.id) || (p.name is Some && p.name->0@ == f.name)
}

pub open spec fn opt_parse_kind(k: Option<String>) -> Option<SourceKind> {
    match k {
        Some(v) => kind_from_word(lower(trim(v@))),
        None => None,
    }
}

pub open spec fn opt_parse_profile(k: Option<String>) -> Option<EmulatorProfile> {
    match k {
        Some(v) => profile_from_word(lower(trim(v@))),
        None => None,
    }
}

/// A source after a policy for it: a disabled source syncs no system; the
/// kind and profile are replaced where the policy names a known one; the
/// save and ROM roots where it gives a list (else a single path); the
/// recursion, system list and folder creation where it sets them.
pub open spec fn applied(f: SourceFacts, p: BackendSourcePolicy) -> SourceFacts {
    let systems0 = if p.enabled == Some(false) { Seq::<Seq<char>>::empty() } else { f.systems };
    SourceFacts {
        kind: match opt_parse_kind(p.kind) {
            Some(k) => k,
            None => f.kind,
        },
        profile: match opt_parse_profile(p.profile) {
            Some(x) => x,
            None => f.profile,
        },
        save_roots: if p.save_roots@.len() > 0 {
            p.save_roots.deep_view()
        } else if p.save_path is Some {
            seq![p.save_path->0@]
        } else {
            f.save_roots
        },
        rom_roots: if p.rom_roots@.len() > 0 {
            p.rom_roots.deep_view()
        } else if p.rom_path is Some {
            seq![p.rom_path->0@]
        } else {
            f.rom_roots
        },
        recursive: match p.recursive {
            Some(b) => b,
            None => f.recursive,
        },
        systems: match p.systems {
            Some(v) => normalized_systems(v.deep_view()),
            None => systems0,
        },
        create_missing_system_dirs: match p.create_missing_system_dirs {
            Some(b) => b,
            None => f.create_missing_system_dirs,
        },
        ..f
    }
}

/// The sources after the policies, in order, each applied to every source it
/// is for.
pub open spec fn after_policies(fs: Seq<SourceFacts>, ps: Seq<BackendSourcePolicy>) -> Seq<SourceFacts>
    decreases ps.len(),
{
    if ps.len() == 0 {
        fs
    } else {
        let before = after_policies(fs, ps.drop_last());
        Seq::new(before.len(), |i: int| if policy_for(before[i], ps.last()) { applied(before[i], ps.last()) } else { before[i] })
    }
}

fn copy_strings(v: &Vec<String>) -> (r: Vec<String>)
    ensures
        r.deep_view() == v.deep_view(),
{
    crate::mister::sources::copy_strings(v)
}

fn one_path(p: &String) -> (r: Vec<String>)
    ensures
        r.deep_view() == seq![p@],
{
    let mut v: Vec<String> = Vec::new();
    v.push(p.clone());
    assert(v.deep_view() =~= seq![p@]);
    v
}

/// Whether a policy is for a source; see `policy_for`.
pub fn policy_matches(source: &ResolvedSource, policy: &BackendSourcePolicy) -> (r: bool)
    ensures
        r == policy_for(facts(*source), *policy),
{
    match &policy.id {
        Some(id) => if str_eq(source.id.as_str(), id.as_str()) {
            return true;
        },
        None => {},
    }
    match &policy.name {
        Some(n) => str_eq(source.name.as_str(), n.as_str()),
        None => false,
    }
}

fn roots_after(list: &Vec<String>, single: &Option<String>, current: &Vec<String>) -> (r: Vec<String>)
    ensures
        r.deep_view() == if list@.len() > 0 {
            list.deep_view()
        } else if single is Some {
            seq![single->0@]
        } else {
            current.deep_view()
        },
{
    if list.len() > 0 {
        copy_strings(list)
    } else {
        match single {
            Some(p) => one_path(p),
            None => copy_strings(current),
        }
    }
}

fn systems_after(policy: &BackendSourcePolicy, current: &Vec<String>) -> (r: Vec<String>)
    ensures
        r.deep_view() == match policy.systems {
            Some(v) => normalized_systems(v.deep_view()),
            None => if policy.enabled == Some(false) {
                Seq::<Seq<char>>::empty()
            } else {
                current.deep_view()
            },
        },
{
    match &policy.systems {
        Some(v) => normalize_systems(v),
        None => if policy.enabled == Some(false) {
            let e: Vec<String> = Vec::new();
            assert(e.deep_view() =~= Seq::<Seq<char>>::empty());
            e
        } else {
            copy_strings(current)
        },
    }
}

pub(crate) fn kind_after(policy: &BackendSourcePolicy, current: SourceKind) -> (r: SourceKind)
    ensures
        r == match opt_parse_kind(policy.kind) {
            Some(k) => k,
            None => current,
        },
{
    match &policy.kind {
        Some(k) => match SourceKind::parse(k.as_str()) {
            Some(kind) => kind,
            None => current,
        },
        None => current,
    }
}

pub(crate) fn profile_after(policy: &BackendSourcePolicy, current: EmulatorProfile) -> (r: EmulatorProfile)
    ensures
        r == match opt_parse_profile(policy.profile) {
            Some(x) => x,
            None => current,
        },
{
    match &policy.profile {
        Some(p) => match EmulatorProfile::parse(p.as_str()) {
            Some(x) => x,
            None => current,
        },
        None => current,
    }
}

/// Applies a policy to a source it is for; see `applied`.
pub fn apply_source_policy(source: &mut ResolvedSource, policy: &BackendSourcePolicy)
    ensures
        facts(*final(source)) == applied(facts(*old(source)), *policy),
{
    let systems = systems_after(policy, &source.systems);
    let kind = kind_after(policy, source.kind);
    let profile = profile_after(policy, source.profile);
    let save_roots = roots_after(&policy.save_roots, &policy.save_path, &source.save_roots);
    let rom_roots = roots_after(&policy.rom_roots, &policy.rom_path, &source.rom_roots);
    let recursive = match policy.recursive {
        Some(b) => b,
        None => source.recursive,
    };
    let create = match policy.create_missing_system_dirs {
        Some(b) => b,
        None => source.create_missing_system_dirs,
    };
    source.systems = systems;
    source.kind = kind;
    source.profile = profile;
    source.save_roots = save_roots;
    source.rom_roots = rom_roots;
    source.recursive = recursive;
    source.create_missing_system_dirs = create;
    proof {
        let a = applied(facts(*old(source)), *policy);
        assert(facts(*source) =~= a);
    }
}

pub open spec fn all_facts(s: Seq<ResolvedSource>) -> Seq<SourceFacts> {
    Seq::new(s.len(), |i: int| facts(s[i]))
}

/// Applies one policy to every source it is for.
pub fn apply_policy_to_sources(sources: &mut Vec<ResolvedSource>, policy: &BackendSourcePolicy)
    ensures
        all_facts(final(sources)@) == Seq::new(
            old(sources)@.len(),
            |i: int| if policy_for(facts(old(sources)@[i]), *policy) {
                applied(facts(old(sources)@[i]), *policy)
            } else {
                facts(old(sources)@[i])
            },
        ),
{
    let ghost orig = sources@;
    let mut i: usize = 0;
    while i < sources.len()
        invariant
            0 <= i <= sources@.len(),
            sources@.len() == orig.len(),
            forall|k: int| 0 <= k < i ==> facts(#[trigger] sources@[k]) == (if policy_for(facts(orig[k]), *policy) {
                applied(facts(orig[k]), *policy)
            } else {
                facts(orig[k])
            }),
            forall|k: int| i <= k < sources@.len() ==> #[trigger] sources@[k] == orig[k],
        decreases sources@.len() - i,
    {
        if policy_matches(&sources[i], policy) {
            let mut s = sources.remove(i);
            apply_source_policy(&mut s, policy);
            sources.insert(i, s);
        }
        i = i + 1;
    }
    assert(all_facts(sources@) =~= Seq::new(
        orig.len(),
        |i: int| if policy_for(facts(orig[i]), *policy) {
            applied(facts(orig[i]), *policy)
        } else {
            facts(orig[i])
        },
    ));
}

/// Applies every source policy of a response, in order, and returns the
/// run flags it sets. (`verbose` asked for a log line per source.)
pub fn apply_backend_response(sources: &mut Vec<ResolvedSource>, response: &BackendConfigSyncResponse, verbose: bool) -> (r: RuntimeConfigOverrides)
    ensures
        r == response_overrides(*response),
        all_facts(final(sources)@) == after_policies(all_facts(old(sources)@), response_policies(*response)),
{
    let overrides = runtime_overrides(response);
    let ghost start = all_facts(sources@);
    let ghost mut done: Seq<BackendSourcePolicy> = seq![];
    apply_all_of(sources, &response.sources, Ghost(start), Ghost(done));
    proof {
        done = done + response.sources@;
    }
    match &response.policy {
        Some(p) => {
            apply_all_of(sources, &p.sources, Ghost(start), Ghost(done));
            proof {
                done = done + p.sources@;
            }
        },
        None => {},
    }
    match &response.desired_config {
        Some(p) => {
            apply_all_of(sources, &p.sources, Ghost(start), Ghost(done));
            proof {
                done = done + p.sources@;
            }
        },
        None => {},
    }
    match &response.effective_config {
        Some(p) => {
            apply_all_of(sources, &p.sources, Ghost(start), Ghost(done));
            proof {
                done = done + p.sources@;
            }
        },
        None => {},
    }
    proof {
        assert(seq![] + response.sources@ =~= response.sources@);
        assert(done =~= response_policies(*response));
    }
    overrides
}

fn apply_all_of(
    sources: &mut Vec<ResolvedSource>,
    policies: &Vec<BackendSourcePolicy>,
    Ghost(start): Ghost<Seq<SourceFacts>>,
    Ghost(done): Ghost<Seq<BackendSourcePolicy>>,
)
    requires
        all_facts(old(sources)@) == after_policies(start, done),
    ensures
        all_facts(final(sources)@) == after_policies(start, done + policies@),
{
    let mut i: usize = 0;
    while i < policies.len()
        invariant
            0 <= i <= policies@.len(),
            all_facts(sources@) == after_policies(start, done + policies@.subrange(0, i as int)),
        decreases policies@.len() - i,
    {
        let ghost before = sources@;
        apply_policy_to_sources(sources, &policies[i]);
        proof {
            let ps = done + policies@.subrange(0, i + 1);
            assert(ps.drop_last() =~= done + policies@.subrange(0, i as int));
            assert(ps.last() == policies@[i as int]);
            assert(all_facts(sources@) =~= after_policies(start, ps));
        }
        i = i + 1;
    }
    assert(policies@.subrange(0, policies@.len() as int) =~= policies@);
}

/// A disabled source syncs nothing: after a policy that disables it without
/// naming systems, every source the policy is for has no system left, and
/// the other sources are as they were.
pub proof fn law_disabled_source_syncs_nothing(fs: Seq<SourceFacts>, p: BackendSourcePolicy)
    requires
        p.enabled == Some(false),
        p.systems is None,
    ensures
        forall|i: int| 0 <= i < fs.len() ==> (#[trigger] after_policies(fs, seq![p])[i]).systems.len() == 0 || !policy_for(fs[i], p),
        forall|i: int| 0 <= i < fs.len() && !policy_for(fs[i], p) ==> #[trigger] after_policies(fs, seq![p])[i] == fs[i],
{
    assert(seq![p].drop_last() =~= Seq::<BackendSourcePolicy>::empty());
    assert(after_policies(fs, seq![p].drop_last()) == fs);
    assert(seq![p].last() == p);
    assert(after_policies(fs, seq![p]).len() == fs.len());
}

/// The backend's flags win: a flag set by the effective configuration is
/// the one the run uses, whatever the other policies set.
pub proof fn law_effective_config_wins(r: BackendConfigSyncResponse)
    requires
        r.effective_config is Some,
        r.effective_config->0.global is Some,
    ensures
        r.effective_config->0.global->0.force_upload is Some ==> response_overrides(r).force_upload
            == r.effective_config->0.global->0.force_upload,
        r.effective_config->0.global->0.dry_run is Some ==> response_overrides(r).dry_run
            == r.effective_config->0.global->0.dry_run,
{
}

/// Policies for no source change nothing.
pub proof fn law_unmatched_policy_changes_nothing(fs: Seq<SourceFacts>, p: BackendSourcePolicy)
    requires
        forall|i: int| 0 <= i < fs.len() ==> !policy_for(#[trigger] fs[i], p),
    ensures
        after_policies(fs, seq![p]) == fs,
{
    assert(seq![p].drop_last() =~= Seq::<BackendSourcePolicy>::empty());
    assert(after_policies(fs, seq![p].drop_last()) == fs);
    assert(seq![p].last() == p);
    assert(after_policies(fs, seq![p]) =~= fs);
}

} // verus!

//! The helper's persisted state: the login token and the record of what was
//! last synced for each save.
use vstd::prelude::*;
use crate::paths::{join_path, path_join};
use crate::steamdeck::scanner::{SaveAdapterProfile, SaveContainerFormat};
use crate::text::{chars_of, string_of};

verus! {

/// The current time, formatted as RFC 3339 by the `time` crate
/// (`OffsetDateTime::now_utc().format(&Rfc3339)`); where formatting fails, the
/// epoch. The time depends on the clock, so only this is stated: the text is
/// not empty (the format writes at least the four digits of the year).
#[verifier::external_body]
pub fn now_rfc3339() -> (r: String)
    ensures
        r@.len() > 0,
{
    time::OffsetDateTime::now_utc().format(&time::format_description::well_known::Rfc3339)
        .unwrap_or_else(|_| "1970-01-01T00:00:00Z".to_string())
}

/// The current time as seconds since the Unix epoch, by the `time` crate
/// (`OffsetDateTime::now_utc().unix_timestamp()`). The result depends on the
/// clock, so nothing is stated of it.
#[verifier::external_body]
pub(crate) fn unix_timestamp_now() -> (r: i64) {
    time::OffsetDateTime::now_utc().unix_timestamp()
}

/// A stored login: the token and where and for whom it was issued.
#[derive(Debug, Clone)]
pub struct AuthState {
    pub token: String,
    pub email: String,
    pub base_url: String,
    pub created_at: String,
}

/// The last `n` characters of `s` (all of it when it is shorter).
pub open spec fn suffix_of(s: Seq<char>, n: nat) -> Seq<char> {
    if s.len() <= n {
        s
    } else {
        s.subrange(s.len() - n, s.len() as int)
    }
}

impl AuthState {
    /// A login issued now.
    pub fn new(token: String, email: String, base_url: String) -> (r: Self)
        ensures
            r.token@ == token@,
            r.email@ == email@,
            r.base_url@ == base_url@,
    {
        AuthState { token, email, base_url, created_at: now_rfc3339() }
    }

    /// The last `n` characters of the token, for display.
    pub fn token_suffix(&self, n: usize) -> (r: String)
        ensures
            r@ == suffix_of(self.token@, n as nat),
    {
        let chars = chars_of(self.token.as_str());
        if chars.len() <= n {
            return self.token.clone();
        }
        let start = chars.len() - n;
        let mut out: Vec<char> = Vec::new();
        let mut k: usize = start;
        while k < chars.len()
            invariant
                start <= k <= chars@.len(),
                out@ == chars@.subrange(start as int, k as int),
            decreases chars@.len() - k,
        {
            out.push(chars[k]);
            k = k + 1;
            assert(out@ =~= chars@.subrange(start as int, k as int));
        }
        string_of(out.as_slice())
    }
}

/// What was last synced for one save: the hash of its synced form, the line
/// it was synced on, the cloud version, and how and from where it was read.
#[derive(Debug, Clone)]
pub struct SyncedEntry {
    pub sha256: String,
    pub rom_sha1: Option<String>,
    pub version: Option<i64>,
    pub system_slug: Option<String>,
    pub local_container: Option<SaveContainerFormat>,
    pub adapter_profile: Option<SaveAdapterProfile>,
    pub source_kind: Option<String>,
    pub source_name: Option<String>,
    pub slot_name: Option<String>,
    pub updated_at: String,
}

/// The sync record, one entry per save key.
#[derive(Debug, Clone)]
pub struct SyncState {
    pub entries: Vec<(String, SyncedEntry)>,
}

/// The first place where an entry is stored under `k`; the length when none
/// is.
pub open spec fn key_index(es: Seq<(String, SyncedEntry)>, k: Seq<char>) -> int {
    if exists|i: int| 0 <= i < es.len() && es[i].0@ == k {
        choose|i: int| 0 <= i < es.len() && es[i].0@ == k && forall|j: int| 0 <= j < i ==> es[j].0@ != k
    } else {
        es.len() as int
    }
}

/// The entries after storing `e` under `k`: the first entry under `k` is
/// replaced, or the entry is added at the end.
pub open spec fn stored(es: Seq<(String, SyncedEntry)>, k: String, e: SyncedEntry) -> Seq<(String, SyncedEntry)> {
    let i = key_index(es, k@);
    if i < es.len() {
        es.update(i, (k, e))
    } else {
        es.push((k, e))
    }
}

/// What is read under `k`: the first entry stored under it.
pub open spec fn read_entry(es: Seq<(String, SyncedEntry)>, k: Seq<char>) -> Option<SyncedEntry> {
    let i = key_index(es, k);
    if i < es.len() {
        Some(es[i].1)
    } else {
        None
    }
}

proof fn lemma_first_key_exists(es: Seq<(String, SyncedEntry)>, k: Seq<char>, w: int)
    requires
        0 <= w < es.len(),
        es[w].0@ == k,
    ensures
        exists|i: int| 0 <= i < es.len() && es[i].0@ == k && forall|j: int| 0 <= j < i ==> es[j].0@ != k,
    decreases w,
{
    if exists|j: int| 0 <= j < w && es[j].0@ == k {
        let j = choose|j: int| 0 <= j < w && es[j].0@ == k;
        lemma_first_key_exists(es, k, j);
    } else {
        assert(0 <= w < es.len() && es[w].0@ == k && forall|j: int| 0 <= j < w ==> es[j].0@ != k);
    }
}

proof fn lemma_key_index_props(es: Seq<(String, SyncedEntry)>, k: Seq<char>)
    ensures
        0 <= key_index(es, k) <= es.len(),
        forall|j: int| 0 <= j < key_index(es, k) ==> es[j].0@ != k,
        key_index(es, k) < es.len() ==> es[key_index(es, k)].0@ == k,
{
    if exists|i: int| 0 <= i < es.len() && es[i].0@ == k {
        let w = choose|i: int| 0 <= i < es.len() && es[i].0@ == k;
        lemma_first_key_exists(es, k, w);
    }
}

proof fn lemma_key_index_is(es: Seq<(String, SyncedEntry)>, k: Seq<char>, i: int)
    requires
        0 <= i <= es.len(),
        forall|j: int| 0 <= j < i ==> es[j].0@ != k,
        i < es.len() ==> es[i].0@ == k,
    ensures
        key_index(es, k) == i,
{
    if i < es.len() {
        assert(es[i].0@ == k);
        let c = choose|c: int| 0 <= c < es.len() && es[c].0@ == k && forall|j: int| 0 <= j < c ==> es[j].0@ != k;
        if c < i {
        } else if c > i {
        }
    } else {
        assert(!exists|c: int| 0 <= c < es.len() && es[c].0@ == k);
    }
}

/// A read gives back what was last stored under the key.
pub proof fn lemma_read_after_store(es: Seq<(String, SyncedEntry)>, k: String, e: SyncedEntry)
    ensures
        read_entry(stored(es, k, e), k@) == Some(e),
{
    let i = key_index(es, k@);
    lemma_key_index_props(es, k@);
    if i < es.len() {
        lemma_key_index_is(stored(es, k, e), k@, i);
    } else {
        lemma_key_index_is(stored(es, k, e), k@, es.len() as int);
    }
}

impl SyncState {
    pub open spec fn keys(self) -> Seq<Seq<char>> {
        self.entries@.map_values(|e: (String, SyncedEntry)| e.0@)
    }

    /// The entry stored under `key`, if any.
    pub fn get(&self, key: &str) -> (r: Option<&SyncedEntry>)
        ensures
            match r {
                Some(e) => read_entry(self.entries@, key@) == Some(*e),
                None => read_entry(self.entries@, key@) is None,
            },
    {
        let mut i: usize = 0;
        while i < self.entries.len()
            invariant
                0 <= i <= self.entries@.len(),
                forall|j: int| 0 <= j < i ==> self.entries@[j].0@ != key@,
            decreases self.entries@.len() - i,
        {
            if crate::text::str_eq(self.entries[i].0.as_str(), key) {
                proof {
                    lemma_key_index_is(self.entries@, key@, i as int);
                }
                return Some(&self.entries[i].1);
            }
            i = i + 1;
        }
        proof {
            lemma_key_index_is(self.entries@, key@, i as int);
        }
        None
    }

    /// Stores `entry` under `key`, replacing the entry stored under it.
    pub fn insert(&mut self, key: String, entry: SyncedEntry)
        ensures
            final(self).entries@ == stored(old(self).entries@, key, entry),
    {
        let mut i: usize = 0;
        while i < self.entries.len()
            invariant
                0 <= i <= self.entries@.len(),
                self.entries == old(self).entries,
                forall|j: int| 0 <= j < i ==> self.entries@[j].0@ != key@,
            decreases self.entries@.len() - i,
        {
            if crate::text::str_eq(self.entries[i].0.as_str(), key.as_str()) {
                proof {
                    lemma_key_index_is(self.entries@, key@, i as int);
                }
                self.entries.set(i, (key, entry));
                return;
            }
            i = i + 1;
        }
        proof {
            lemma_key_index_is(self.entries@, key@, i as int);
        }
        self.entries.push((key, entry));
    }
}

/// Whether an entry is stored under another key than `key`.
pub open spec fn other_key(key: Seq<char>) -> spec_fn((String, SyncedEntry)) -> bool {
    |e: (String, SyncedEntry)| e.0@ != key
}

impl SyncState {
    /// Removes every entry stored under `key`, keeping the others in order.
    pub fn remove(&mut self, key: &str)
        ensures
            final(self).entries@ == old(self).entries@.filter(other_key(key@)),
    {
        let ghost orig = self.entries@;
        let ghost pred = other_key(key@);
        let ghost mut j: int = 0;
        let mut i: usize = 0;
        while i < self.entries.len()
            invariant
                0 <= i <= self.entries@.len(),
                0 <= j <= orig.len(),
                self.entries@.len() - i == orig.len() - j,
                pred == other_key(key@),
                self.entries@.subrange(0, i as int) == orig.subrange(0, j).filter(pred),
                self.entries@.subrange(i as int, self.entries@.len() as int) == orig.subrange(j, orig.len() as int),
            decreases self.entries@.len() - i,
        {
            proof {
                reveal(Seq::filter);
                assert(self.entries@[i as int] == orig[j]) by {
                    assert(self.entries@.subrange(i as int, self.entries@.len() as int)[0] == orig.subrange(j, orig.len() as int)[0]);
                }
                assert(orig.subrange(0, j + 1).drop_last() =~= orig.subrange(0, j));
                assert(orig.subrange(0, j + 1).last() == orig[j]);
            }
            if crate::text::str_eq(self.entries[i].0.as_str(), key) {
                let ghost before = self.entries@;
                let _gone = self.entries.remove(i);
                proof {
                    assert(self.entries@.subrange(0, i as int) =~= before.subrange(0, i as int));
                    assert(self.entries@.subrange(i as int, self.entries@.len() as int) =~= before.subrange(i + 1, before.len() as int));
                    assert(orig.subrange(j + 1, orig.len() as int) =~= orig.subrange(j, orig.len() as int).subrange(1, orig.len() - j));
                    assert(before.subrange(i + 1, before.len() as int) =~= before.subrange(i as int, before.len() as int).subrange(1, before.len() - i));
                    j = j + 1;
                }
            } else {
                proof {
                    let ghost e = self.entries@;
                    assert(e.subrange(0, i + 1) =~= e.subrange(0, i as int).push(e[i as int]));
                    assert(orig.subrange(j + 1, orig.len() as int) =~= orig.subrange(j, orig.len() as int).subrange(1, orig.len() - j));
                    assert(e.subrange(i + 1, e.len() as int) =~= e.subrange(i as int, e.len() as int).subrange(1, e.len() - i));
                    j = j + 1;
                }
                i = i + 1;
            }
        }
        proof {
            assert(self.entries@.subrange(0, i as int) =~= self.entries@);
            assert(orig.subrange(j, orig.len() as int).len() == 0);
            assert(orig.subrange(0, j) =~= orig);
        }
    }
}

/// A key that was removed reads nothing: after `remove(key)`, `get(key)`
/// finds no entry.
pub proof fn law_removed_key_reads_nothing(es: Seq<(String, SyncedEntry)>, k: Seq<char>)
    ensures
        read_entry(es.filter(other_key(k)), k) is None,
{
    let f = es.filter(other_key(k));
    assert forall|i: int| 0 <= i < f.len() implies f[i].0@ != k by {
        es.lemma_filter_pred(other_key(k), i);
    }
}

/// Where the login is stored.
pub fn auth_path(state_dir: &str) -> (r: String)
    ensures
        r@ == path_join(state_dir@, "auth.json"@),
{
    join_path(state_dir, "auth.json")
}

/// Where the sync record is stored.
pub fn sync_state_path(state_dir: &str) -> (r: String)
    ensures
        r@ == path_join(state_dir@, "sync_state.json"@),
{
    join_path(state_dir, "sync_state.json")
}

} // verus!

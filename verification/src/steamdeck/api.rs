//! What the helper sends to and receives from the backend: the response and
//! request records, the runtime-profile query parameters, and URL building.
use vstd::prelude::*;
use crate::text::{
    chars_of, concat2, concat3, is_upper, lower_char, lower_of, owned, str_eq, string_of,
    strip_trail, strip_trail_vec, trim, trim_str,
};

verus! {

#[derive(Debug, Clone)]
pub struct TokenResponse {
    pub token: String,
}

#[derive(Debug, Clone)]
pub struct AuthUser {
    pub email: Option<String>,
}

#[derive(Debug, Clone)]
pub struct LoginResponse {
    pub user: Option<AuthUser>,
}

#[derive(Debug, Clone)]
pub struct AuthMeResponse {
    pub user: Option<AuthUser>,
}

#[derive(Debug, Clone)]
pub struct AutoEnrollStatusResponse {
    pub active: bool,
}

#[derive(Debug, Clone)]
pub struct AutoProvisionAppPasswordResponse {
    pub token: Option<String>,
    pub plain_text_key: Option<String>,
    pub plain_text_token: Option<String>,
}

#[derive(Debug, Clone)]
pub struct AutoProvisionRequest {
    pub name: String,
    pub device_type: String,
    pub fingerprint: String,
    pub hostname: String,
    pub helper_name: String,
    pub helper_version: String,
    pub platform: String,
    pub sync_paths: Vec<String>,
    pub systems: Vec<String>,
}

#[derive(Debug, Clone)]
pub struct LatestSaveResponse {
    pub exists: bool,
    pub sha256: Option<String>,
    pub version: Option<i64>,
    pub id: Option<String>,
}

#[derive(Debug, Clone)]
pub struct LatestSaveContext {
    pub filename: String,
    pub system_slug: String,
    pub display_title: String,
    pub region_code: Option<String>,
}

#[derive(Debug, Clone, Copy)]
pub struct LatestSaveRequest<'a> {
    pub rom_sha1: &'a str,
    pub slot_name: &'a str,
    pub device_type: &'a str,
    pub fingerprint: &'a str,
    pub app_password: Option<&'a str>,
    pub runtime_target: Option<&'a RuntimeTarget>,
    pub context: Option<&'a LatestSaveContext>,
}

#[derive(Debug, Clone)]
pub struct RomRecord {
    pub sha1: Option<String>,
    pub md5: Option<String>,
}

#[derive(Debug, Clone)]
pub struct LookupRomResponse {
    pub count: Option<u64>,
    pub rom: Option<RomRecord>,
}

#[derive(Debug, Clone)]
pub struct UploadedSave {
    pub id: Option<String>,
    pub sha256: Option<String>,
    pub version: Option<i64>,
}

#[derive(Debug, Clone)]
pub struct UploadSaveResponse {
    pub save: Option<UploadedSave>,
}

#[derive(Debug, Clone)]
pub struct CloudSaveSystem {
    pub slug: String,
}

#[derive(Debug, Clone)]
pub struct CloudSaveGame {
    pub name: String,
    pub display_title: String,
    pub system: Option<CloudSaveSystem>,
}

/// A save the backend lists. Of the JSON metadata and inspection it carries,
/// the string values that can name a Wii title are kept, in the order they
/// are consulted (`/rsm/wii/titleCode`, `gameCode`, `wiiTitleId`,
/// `wiiTitleID`, `sourcePath` of the metadata; `/semanticFields/titleCode`,
/// `gameCode`, `sourcePath` of the inspection), and the inspection's
/// `evidence` strings.
#[derive(Debug, Clone)]
pub struct CloudSaveSummary {
    pub id: String,
    pub filename: String,
    pub display_title: String,
    pub system_slug: String,
    pub game: Option<CloudSaveGame>,
    pub sha256: Option<String>,
    pub version: Option<i64>,
    pub file_size: Option<u64>,
    pub latest_size_bytes: Option<u64>,
    pub media_type: Option<String>,
    pub runtime_profile: Option<String>,
    pub source_artifact_profile: Option<String>,
    pub logical_key: Option<String>,
    pub card_slot: Option<String>,
    pub download_profiles: Vec<DownloadProfile>,
    pub wii_title_fields: Vec<String>,
    pub inspection_evidence: Vec<String>,
    pub rom_sha1: Option<String>,
    pub rom_md5: Option<String>,
}

/// The system a listed save belongs to: its own slug, else its game's
/// system's slug, trimmed; none when both are blank.
pub open spec fn cloud_system(c: CloudSaveSummary) -> Option<Seq<char>> {
    if trim(c.system_slug@).len() > 0 {
        Some(trim(c.system_slug@))
    } else {
        match c.game {
            Some(g) => match g.system {
                Some(s) => if trim(s.slug@).len() > 0 {
                    Some(trim(s.slug@))
                } else {
                    None
                },
                None => None,
            },
            None => None,
        }
    }
}

/// The name a listed save is shown by: its display title, else its game's
/// display title, else its game's name, else its file name; each trimmed,
/// the first that is not blank.
pub open spec fn cloud_display(c: CloudSaveSummary) -> Seq<char> {
    if trim(c.display_title@).len() > 0 {
        trim(c.display_title@)
    } else {
        match c.game {
            Some(g) => if trim(g.display_title@).len() > 0 {
                trim(g.display_title@)
            } else if trim(g.name@).len() > 0 {
                trim(g.name@)
            } else {
                trim(c.filename@)
            },
            None => trim(c.filename@),
        }
    }
}

impl CloudSaveSummary {
    pub fn system_slug(&self) -> (r: Option<String>)
        ensures
            match r {
                Some(s) => cloud_system(*self) == Some(s@),
                None => cloud_system(*self) is None,
            },
    {
        let direct = trim_str(self.system_slug.as_str());
        if direct.len() > 0 {
            return Some(string_of(direct.as_slice()));
        }
        match &self.game {
            Some(g) => match &g.system {
                Some(s) => {
                    let t = trim_str(s.slug.as_str());
                    if t.len() > 0 {
                        Some(string_of(t.as_slice()))
                    } else {
                        None
                    }
                },
                None => None,
            },
            None => None,
        }
    }

    pub fn display_name(&self) -> (r: String)
        ensures
            r@ == cloud_display(*self),
    {
        let title = trim_str(self.display_title.as_str());
        if title.len() > 0 {
            return string_of(title.as_slice());
        }
        match &self.game {
            Some(g) => {
                let t = trim_str(g.display_title.as_str());
                if t.len() > 0 {
                    return string_of(t.as_slice());
                }
                let n = trim_str(g.name.as_str());
                if n.len() > 0 {
                    return string_of(n.as_slice());
                }
            },
            None => {},
        }
        string_of(trim_str(self.filename.as_str()).as_slice())
    }
}

#[derive(Debug, Clone)]
pub struct DownloadProfile {
    pub id: String,
    pub label: String,
    pub target_extension: Option<String>,
    pub note: Option<String>,
}

#[derive(Debug, Clone)]
pub struct ConflictCheckResponse {
    pub exists: bool,
    pub conflict_id: Option<String>,
    pub cloud_sha256: Option<String>,
    pub cloud_version: Option<i64>,
    pub cloud_save_id: Option<String>,
}

#[derive(Debug, Clone)]
pub struct ConflictReportResponse {
    pub success: Option<bool>,
    pub conflict_id: Option<String>,
}

#[derive(Debug, Clone)]
pub struct PortUploadMetadata {
    pub port_id: String,
    pub port_name: String,
    pub origin_system_slug: String,
    pub port_save_kind: String,
    pub relative_path: String,
    pub root_relative_path: String,
    pub slot_id: String,
    pub display_title: String,
}

#[derive(Debug, Clone)]
pub struct DeviceAuthResponse {
    pub device_code: String,
    pub user_code: String,
    pub verification_uri: String,
    pub expires_in_seconds: u64,
}

#[derive(Debug, Clone)]
pub enum DeviceTokenPoll {
    Pending,
    Success(TokenResponse),
}

/// The emulator runtime a save is written for, as the backend names it.
#[derive(Debug, Clone, Default)]
pub struct RuntimeTarget {
    pub runtime_profile: Option<String>,
    pub emulator_profile: Option<String>,
    pub system_profile_key: Option<String>,
    pub system_profile_value: Option<String>,
}

// ---------------------------------------------------------------------------
// Query parameters
// ---------------------------------------------------------------------------

/// `camelCase` to `snake_case`: an `_` before each ASCII capital (but the
/// first character), `-` and space as `_`, everything ASCII lower-cased.
pub open spec fn snake_case(s: Seq<char>) -> Seq<char>
    decreases s.len(),
{
    if s.len() == 0 {
        seq![]
    } else {
        let prev = snake_case(s.drop_last());
        let c = s.last();
        if is_upper(c) {
            if s.len() > 1 {
                prev + seq!['_', lower_char(c)]
            } else {
                prev.push(lower_char(c))
            }
        } else if c == '-' || c == ' ' {
            prev.push('_')
        } else {
            prev.push(lower_char(c))
        }
    }
}

/// Converts a camel-case key to its snake-case form.
pub fn camel_case_to_snake_case(value: &str) -> (r: String)
    ensures
        r@ == snake_case(value@),
{
    let v = chars_of(value);
    let mut out: Vec<char> = Vec::new();
    let mut i: usize = 0;
    while i < v.len()
        invariant
            0 <= i <= v@.len(),
            out@ == snake_case(v@.subrange(0, i as int)),
        decreases v@.len() - i,
    {
        assert(v@.subrange(0, i + 1).drop_last() =~= v@.subrange(0, i as int));
        let c = v[i];
        let ghost before = out@;
        if 'A' <= c && c <= 'Z' {
            if i > 0 {
                out.push('_');
            }
            out.push(lower_of(c));
            assert(i > 0 ==> out@ =~= before + seq!['_', lower_char(c)]);
        } else if c == '-' || c == ' ' {
            out.push('_');
        } else {
            out.push(lower_of(c));
        }
        i = i + 1;
    }
    assert(v@.subrange(0, v@.len() as int) =~= v@);
    string_of(out.as_slice())
}

pub open spec fn pairs_view(p: Seq<(String, String)>) -> Seq<(Seq<char>, Seq<char>)> {
    Seq::new(p.len(), |i: int| (p[i].0@, p[i].1@))
}

/// Adding a pair to a query: skipped when key or value is blank, or when the
/// same pair is already there.
pub open spec fn with_pair(
    pairs: Seq<(Seq<char>, Seq<char>)>,
    key: Seq<char>,
    value: Seq<char>,
) -> Seq<(Seq<char>, Seq<char>)> {
    if trim(key).len() == 0 || trim(value).len() == 0 || pairs.contains((key, value)) {
        pairs
    } else {
        pairs.push((key, value))
    }
}

/// Adds a query pair unless blank or already present.
pub fn push_runtime_pair(pairs: &mut Vec<(String, String)>, key: &str, value: &str)
    ensures
        pairs_view(final(pairs)@) == with_pair(pairs_view(old(pairs)@), key@, value@),
{
    if trim_str(key).len() == 0 || trim_str(value).len() == 0 {
        return;
    }
    let mut i: usize = 0;
    while i < pairs.len()
        invariant
            0 <= i <= pairs@.len(),
            pairs@ == old(pairs)@,
            forall|j: int| 0 <= j < i ==> pairs_view(pairs@)[j] != (key@, value@),
        decreases pairs@.len() - i,
    {
        if str_eq(pairs[i].0.as_str(), key) && str_eq(pairs[i].1.as_str(), value) {
            assert(pairs_view(pairs@)[i as int] == (key@, value@));
            return;
        }
        i = i + 1;
    }
    let ghost before = pairs_view(pairs@);
    assert(!before.contains((key@, value@))) by {
        if before.contains((key@, value@)) {
            let j = choose|j: int| 0 <= j < before.len() && before[j] == (key@, value@);
            assert(pairs_view(pairs@)[j] == (key@, value@));
        }
    }
    pairs.push((owned(key), owned(value)));
    assert(pairs_view(pairs@) =~= before.push((key@, value@)));
}

pub open spec fn opt_str(o: Option<String>) -> Option<Seq<char>> {
    match o {
        Some(s) => Some(s@),
        None => None,
    }
}

/// The query pairs of a runtime target: the runtime profile and emulator
/// profile each under a camel-case and a snake-case key, and the system
/// profile under its key and that key's snake-case form.
pub open spec fn target_pairs(
    runtime: Option<Seq<char>>,
    emulator: Option<Seq<char>>,
    key: Option<Seq<char>>,
    value: Option<Seq<char>>,
) -> Seq<(Seq<char>, Seq<char>)> {
    let p0: Seq<(Seq<char>, Seq<char>)> = seq![];
    let p1 = match runtime {
        Some(r) => with_pair(with_pair(p0, "runtimeProfile"@, r), "runtime_profile"@, r),
        None => p0,
    };
    let p2 = match emulator {
        Some(e) => with_pair(with_pair(p1, "emulatorProfile"@, e), "emulator_profile"@, e),
        None => p1,
    };
    match (key, value) {
        (Some(k), Some(v)) => with_pair(with_pair(p2, k, v), snake_case(k), v),
        _ => p2,
    }
}

impl RuntimeTarget {
    /// The query (or form) parameters that describe this target.
    pub fn query_pairs(&self) -> (r: Vec<(String, String)>)
        ensures
            pairs_view(r@) == target_pairs(
                opt_str(self.runtime_profile),
                opt_str(self.emulator_profile),
                opt_str(self.system_profile_key),
                opt_str(self.system_profile_value),
            ),
    {
        let mut pairs: Vec<(String, String)> = Vec::new();
        assert(pairs_view(pairs@) =~= Seq::<(Seq<char>, Seq<char>)>::empty());
        if let Some(r) = &self.runtime_profile {
            push_runtime_pair(&mut pairs, "runtimeProfile", r.as_str());
            push_runtime_pair(&mut pairs, "runtime_profile", r.as_str());
        }
        if let Some(e) = &self.emulator_profile {
            push_runtime_pair(&mut pairs, "emulatorProfile", e.as_str());
            push_runtime_pair(&mut pairs, "emulator_profile", e.as_str());
        }
        match (&self.system_profile_key, &self.system_profile_value) {
            (Some(k), Some(v)) => {
                push_runtime_pair(&mut pairs, k.as_str(), v.as_str());
                let snake = camel_case_to_snake_case(k.as_str());
                push_runtime_pair(&mut pairs, snake.as_str(), v.as_str());
            },
            _ => {},
        }
        pairs
    }
}

// ---------------------------------------------------------------------------
// Text helpers
// ---------------------------------------------------------------------------

/// At most `max` characters of a text, with `...` where it was cut.
pub open spec fn truncated(s: Seq<char>, max: nat) -> Seq<char> {
    if s.len() <= max {
        s
    } else {
        s.subrange(0, max as int) + "..."@
    }
}

/// Cuts a text to `max` characters, marking the cut with `...`.
pub fn truncate(value: &str, max: usize) -> (r: String)
    ensures
        r@ == truncated(value@, max as nat),
{
    let v = chars_of(value);
    if v.len() <= max {
        return owned(value);
    }
    let head = crate::text::slice_vec(v.as_slice(), 0, max);
    let h = string_of(head.as_slice());
    concat2(h.as_str(), "...")
}

/// A route prefix as used in URLs: trimmed, without trailing slashes, with
/// one leading slash, or empty.
pub open spec fn url_prefix(p: Seq<char>) -> Seq<char> {
    let t = strip_trail(trim(p), '/');
    if t == "/"@ || t.len() == 0 {
        seq![]
    } else if t[0] != '/' {
        seq!['/'] + t
    } else {
        t
    }
}

/// Normalizes a route prefix.
pub fn normalize_prefix(prefix: &str) -> (r: String)
    ensures
        r@ == url_prefix(prefix@),
{
    let r = crate::mister::config::normalize_route_prefix(prefix);
    r
}

/// The URL of an endpoint: base, prefix, and the path with a leading `/`.
pub open spec fn endpoint_url(base: Seq<char>, prefix: Seq<char>, path: Seq<char>) -> Seq<char> {
    base + prefix + if path.len() > 0 && path[0] == '/' {
        path
    } else {
        seq!['/'] + path
    }
}

/// Builds the URL of an endpoint of the backend.
pub fn api_url(base_url: &str, route_prefix: &str, path: &str) -> (r: String)
    ensures
        r@ == endpoint_url(base_url@, route_prefix@, path@),
{
    let pv = chars_of(path);
    let mut r = concat2(base_url, route_prefix);
    if !(pv.len() > 0 && pv[0] == '/') {
        crate::text::push_char(&mut r, '/');
    }
    r.append(path);
    r
}

} // verus!

//! The helper's own decisions around its commands: how it names itself to
//! the backend, what it asks for when it enrolls, and how it reads the
//! container choices of the PS1 conversion command.
use vstd::prelude::*;
use crate::mister::sources::{
    EmulatorProfile, ResolvedSource, SourceKind, kind_device_type, kind_name, profile_from_word,
};
use crate::paths::{set_extension, with_extension};
use crate::steamdeck::api::AutoProvisionRequest;
use crate::steamdeck::scanner::SaveContainerFormat;
use crate::text::{
    concat2, concat3, eq_lit, insert_sorted_unique, lower, lower_vec, owned, strictly_sorted, trim, trim_str,
};

verus! {

pub open spec fn display_name_of(kind: SourceKind) -> Seq<char> {
    match kind {
        SourceKind::MisterFpga => "SGM MiSTer Helper"@,
        SourceKind::SteamDeck => "SGM SteamDeck Helper"@,
        SourceKind::Windows => "SGM Windows Helper"@,
        SourceKind::RetroArch => "SGM RetroArch Helper"@,
        SourceKind::OpenEmu => "SGM OpenEmu Helper"@,
        SourceKind::AnaloguePocket => "SGM Analogue Pocket Helper"@,
        SourceKind::Custom => "SGM Custom Helper"@,
    }
}

/// The name the helper of a kind goes by.
pub fn helper_display_name(kind: &SourceKind) -> (r: &'static str)
    ensures
        r@ == display_name_of(*kind),
{
    match kind {
        SourceKind::MisterFpga => "SGM MiSTer Helper",
        SourceKind::SteamDeck => "SGM SteamDeck Helper",
        SourceKind::Windows => "SGM Windows Helper",
        SourceKind::RetroArch => "SGM RetroArch Helper",
        SourceKind::OpenEmu => "SGM OpenEmu Helper",
        SourceKind::AnaloguePocket => "SGM Analogue Pocket Helper",
        SourceKind::Custom => "SGM Custom Helper",
    }
}

pub open spec fn platform_name_of(kind: SourceKind) -> Seq<char> {
    match kind {
        SourceKind::MisterFpga => "MiSTer"@,
        SourceKind::SteamDeck => "SteamDeck"@,
        SourceKind::Windows => "Windows"@,
        SourceKind::RetroArch => "RetroArch"@,
        SourceKind::OpenEmu => "OpenEmu"@,
        SourceKind::AnaloguePocket => "Analogue Pocket"@,
        SourceKind::Custom => "Custom"@,
    }
}

/// The platform the helper of a kind reports.
pub fn helper_platform_name(kind: &SourceKind) -> (r: &'static str)
    ensures
        r@ == platform_name_of(*kind),
{
    match kind {
        SourceKind::MisterFpga => "MiSTer",
        SourceKind::SteamDeck => "SteamDeck",
        SourceKind::Windows => "Windows",
        SourceKind::RetroArch => "RetroArch",
        SourceKind::OpenEmu => "OpenEmu",
        SourceKind::AnaloguePocket => "Analogue Pocket",
        SourceKind::Custom => "Custom",
    }
}

/// A choice on the command line that names no known value.
#[derive(Debug, Clone)]
pub struct UnknownChoice {
    pub value: String,
}

/// The PS1 container a target word names (trimmed, lower-cased).
pub open spec fn ps1_target(w: Seq<char>) -> Option<SaveContainerFormat> {
    if w == "raw"@ || w == "ps1-raw"@ {
        Some(SaveContainerFormat::Ps1Raw)
    } else if w == "gme"@ || w == "ps1-gme"@ || w == "dexdrive"@ {
        Some(SaveContainerFormat::Ps1DexDrive)
    } else if w == "vmp"@ || w == "ps1-vmp"@ {
        Some(SaveContainerFormat::Ps1Vmp)
    } else {
        None
    }
}

/// The PS1 container `--to` names; an unknown word is refused.
pub fn parse_ps1_target_container(to: &str) -> (r: Result<SaveContainerFormat, UnknownChoice>)
    ensures
        match r {
            Ok(c) => ps1_target(lower(trim(to@))) == Some(c),
            Err(e) => ps1_target(lower(trim(to@))) is None && e.value@ == to@,
        },
{
    let w = lower_vec(trim_str(to).as_slice());
    let w = w.as_slice();
    if eq_lit(w, "raw") || eq_lit(w, "ps1-raw") {
        Ok(SaveContainerFormat::Ps1Raw)
    } else if eq_lit(w, "gme") || eq_lit(w, "ps1-gme") || eq_lit(w, "dexdrive") {
        Ok(SaveContainerFormat::Ps1DexDrive)
    } else if eq_lit(w, "vmp") || eq_lit(w, "ps1-vmp") {
        Ok(SaveContainerFormat::Ps1Vmp)
    } else {
        Err(UnknownChoice { value: owned(to) })
    }
}

/// The extension a `--from` word (trimmed, lower-cased) reads the input as:
/// `None` keeps the path (`auto`); an unknown word gives no answer.
pub open spec fn from_extension(w: Seq<char>) -> Option<Option<Seq<char>>> {
    if w == "auto"@ {
        Some(None)
    } else if w == "raw"@ || w == "ps1-raw"@ {
        Some(Some("mcr"@))
    } else if w == "gme"@ || w == "ps1-gme"@ || w == "dexdrive"@ {
        Some(Some("gme"@))
    } else if w == "vmp"@ || w == "ps1-vmp"@ {
        Some(Some("vmp"@))
    } else {
        None
    }
}

/// The path the input is read as under `--from`: the same path for `auto`,
/// else the path with the extension of the named container; an unknown word
/// is refused.
pub fn input_path_for_from_override(input: &str, from: &str) -> (r: Result<String, UnknownChoice>)
    ensures
        match r {
            Ok(p) => match from_extension(lower(trim(from@))) {
                Some(None) => p@ == input@,
                Some(Some(e)) => p@ == with_extension(input@, e),
                None => false,
            },
            Err(e) => from_extension(lower(trim(from@))) is None && e.value@ == from@,
        },
{
    let w = lower_vec(trim_str(from).as_slice());
    let w = w.as_slice();
    if eq_lit(w, "auto") {
        Ok(owned(input))
    } else if eq_lit(w, "raw") || eq_lit(w, "ps1-raw") {
        Ok(set_extension(input, "mcr"))
    } else if eq_lit(w, "gme") || eq_lit(w, "ps1-gme") || eq_lit(w, "dexdrive") {
        Ok(set_extension(input, "gme"))
    } else if eq_lit(w, "vmp") || eq_lit(w, "ps1-vmp") {
        Ok(set_extension(input, "vmp"))
    } else {
        Err(UnknownChoice { value: owned(from) })
    }
}

/// The emulator profile a command line names; an unknown one is refused.
pub fn parse_emulator_profile(value: &str) -> (r: Result<EmulatorProfile, UnknownChoice>)
    ensures
        match r {
            Ok(p) => profile_from_word(lower(trim(value@))) == Some(p),
            Err(e) => profile_from_word(lower(trim(value@))) is None && e.value@ == value@,
        },
{
    match EmulatorProfile::parse(value) {
        Some(p) => Ok(p),
        None => Err(UnknownChoice { value: owned(value) }),
    }
}

/// The e-mail a helper that enrolled itself is stored under: the configured
/// one, or the kind's name at `local` where none is configured.
pub open spec fn enroll_email(configured: Seq<char>, kind: SourceKind) -> Seq<char> {
    if trim(configured).len() == 0 {
        kind_name(kind) + "@local"@
    } else {
        configured
    }
}

pub fn auto_enroll_email(configured: &str, kind: SourceKind) -> (r: String)
    ensures
        r@ == enroll_email(configured@, kind),
{
    if trim_str(configured).len() == 0 {
        concat2(kind.as_str(), "@local")
    } else {
        owned(configured)
    }
}

/// What a helper asks for when it enrolls itself: named after its kind and
/// host, identified by its host name, with the save folders it syncs and no
/// systems.
pub fn auto_provision_request(
    kind: SourceKind,
    hostname: &str,
    helper_name: &str,
    helper_version: &str,
    sync_paths: Vec<String>,
) -> (r: AutoProvisionRequest)
    ensures
        r.name@ == display_name_of(kind) + " ("@ + hostname@ + ")"@,
        r.device_type@ == kind_device_type(kind),
        r.fingerprint@ == hostname@,
        r.hostname@ == hostname@,
        r.helper_name@ == helper_name@,
        r.helper_version@ == helper_version@,
        r.platform@ == platform_name_of(kind),
        r.sync_paths == sync_paths,
        r.systems@.len() == 0,
{
    let head = concat3(helper_display_name(&kind), " (", hostname);
    AutoProvisionRequest {
        name: concat2(head.as_str(), ")"),
        device_type: owned(kind.helper_device_type()),
        fingerprint: owned(hostname),
        hostname: owned(hostname),
        helper_name: owned(helper_name),
        helper_version: owned(helper_version),
        platform: owned(helper_platform_name(&kind)),
        sync_paths,
        systems: Vec::new(),
    }
}

/// Every save folder of the sources, as a set.
pub open spec fn save_root_set(s: Seq<ResolvedSource>) -> Set<Seq<char>>
    decreases s.len(),
{
    if s.len() == 0 {
        Set::empty()
    } else {
        save_root_set(s.drop_last()).union(s.last().save_roots.deep_view().to_set())
    }
}

/// The save folders a helper names when it enrolls: those of its sources,
/// sorted, each once.
pub fn collect_auto_enroll_sync_paths(sources: &Vec<ResolvedSource>) -> (r: Vec<String>)
    ensures
        strictly_sorted(r.deep_view()),
        r.deep_view().to_set() == save_root_set(sources@),
{
    let mut out: Vec<String> = Vec::new();
    let mut i: usize = 0;
    assert(out.deep_view().to_set() =~= Set::<Seq<char>>::empty());
    while i < sources.len()
        invariant
            0 <= i <= sources@.len(),
            strictly_sorted(out.deep_view()),
            out.deep_view().to_set() == save_root_set(sources@.subrange(0, i as int)),
        decreases sources@.len() - i,
    {
        let roots = &sources[i].save_roots;
        let ghost base = out.deep_view().to_set();
        let mut j: usize = 0;
        assert(roots.deep_view().subrange(0, 0).to_set() =~= Set::<Seq<char>>::empty());
        assert(base.union(Set::<Seq<char>>::empty()) =~= base);
        while j < roots.len()
            invariant
                0 <= j <= roots@.len(),
                strictly_sorted(out.deep_view()),
                out.deep_view().to_set() == base.union(roots.deep_view().subrange(0, j as int).to_set()),
            decreases roots@.len() - j,
        {
            insert_sorted_unique(&mut out, roots[j].clone());
            proof {
                let sub = roots.deep_view().subrange(0, j + 1);
                assert(sub =~= roots.deep_view().subrange(0, j as int).push(roots@[j as int]@));
                roots.deep_view().subrange(0, j as int).lemma_push_to_set_commute(roots@[j as int]@);
                assert(out.deep_view().to_set() =~= base.union(sub.to_set()));
            }
            j = j + 1;
        }
        proof {
            assert(roots.deep_view().subrange(0, roots@.len() as int) =~= roots.deep_view());
            assert(sources@.subrange(0, i + 1).drop_last() =~= sources@.subrange(0, i as int));
            assert(sources@.subrange(0, i + 1).last() == sources@[i as int]);
        }
        i = i + 1;
    }
    assert(sources@.subrange(0, sources@.len() as int) =~= sources@);
    out
}

/// How a device login is polled: at least a second apart, and as many times
/// as fit in the time the code is valid, at least once.
pub open spec fn poll_plan(expires_in: nat, interval: nat) -> (nat, nat) {
    let every = if interval < 1 { 1 } else { interval };
    let attempts = expires_in / every;
    (every, if attempts < 1 { 1 } else { attempts })
}

pub fn device_poll_plan(expires_in_seconds: u64, poll_interval: u64) -> (r: (u64, u64))
    ensures
        (r.0 as nat, r.1 as nat) == poll_plan(expires_in_seconds as nat, poll_interval as nat),
{
    let every: u64 = if poll_interval < 1 {
        1
    } else {
        poll_interval
    };
    let attempts = expires_in_seconds / every;
    (every, if attempts < 1 {
        1
    } else {
        attempts
    })
}

} // verus!

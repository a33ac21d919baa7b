//! The Steam Deck helper's sync rules: which extension a save is kept under,
//! which memory-card slot a PlayStation save is synced as, and the decisions
//! of syncing one save with the cloud.
use vstd::prelude::*;
use crate::mister::flow::{
    SaveSyncAction, SaveSyncEvent, SaveSyncOutcome, SaveSyncPhase, downloads, fails,
    finishes_downloaded, read_only_phase, uploads, writes,
};
use crate::mister::sources::{EmulatorProfile, SourceKind};
use crate::mister::syncer::{
    cartridge_extension, preferred_extension_for_cartridge, ps_slot, ps_slot_of_path, save_extension,
};
use crate::paths::{file_name, path_file_name, set_extension, with_extension};
use crate::steamdeck::api::LatestSaveResponse;
use crate::steamdeck::scanner::{SaveContainerFormat, lower_ext};
use crate::text::{chars_of, eq_lit, owned, str_eq, string_of};

pub use crate::mister::syncer::{
    infer_playstation_slot_from_path, parse_playstation_slot, playstation_line_key,
};

verus! {

// ---------------------------------------------------------------------------
// Preferred extensions
// ---------------------------------------------------------------------------

/// The extension an N64 save is kept under: `sav` outside MiSTer and
/// EverDrive; there, by size (512 or 2048 bytes `eep`, 32768 `sra`, 131072
/// `fla`, 786432 `sav`), none for another or an unknown size.
pub open spec fn deck_n64_extension(kind: SourceKind, profile: EmulatorProfile, size: Option<u64>) -> Option<Seq<char>> {
    if !(profile == EmulatorProfile::Mister || profile == EmulatorProfile::EverDrive) && kind
        != SourceKind::MisterFpga {
        Some("sav"@)
    } else {
        match size {
            Some(n) => if n == 512 || n == 2048 {
                Some("eep"@)
            } else if n == 32768 {
                Some("sra"@)
            } else if n == 131072 {
                Some("fla"@)
            } else if n == 786432 {
                Some("sav"@)
            } else {
                None
            },
            None => None,
        }
    }
}

pub fn preferred_extension_for_n64(source_kind: &SourceKind, source_profile: &EmulatorProfile, save_size: Option<u64>) -> (r: Option<&'static str>)
    ensures
        match r {
            Some(e) => deck_n64_extension(*source_kind, *source_profile, save_size) == Some(e@),
            None => deck_n64_extension(*source_kind, *source_profile, save_size) is None,
        },
{
    if !(*source_profile == EmulatorProfile::Mister || *source_profile == EmulatorProfile::EverDrive)
        && *source_kind != SourceKind::MisterFpga {
        return Some("sav");
    }
    match save_size {
        Some(n) => if n == 512 || n == 2048 {
            Some("eep")
        } else if n == 32768 {
            Some("sra")
        } else if n == 131072 {
            Some("fla")
        } else if n == 786432 {
            Some("sav")
        } else {
            None
        },
        None => None,
    }
}

/// The extension a save of a system is kept under on the Steam Deck helper:
/// cartridge systems by the profile, N64 as `deck_n64_extension`, handheld
/// and later PlayStation systems `sav`, PS2 `ps2`, none for the others.
pub open spec fn deck_extension(kind: SourceKind, profile: EmulatorProfile, slug: Seq<char>, size: Option<u64>) -> Option<Seq<char>> {
    if slug == "nes"@ || slug == "snes"@ || slug == "gameboy"@ || slug == "gba"@ || slug
        == "genesis"@ || slug == "master-system"@ || slug == "game-gear"@ || slug == "neogeo"@ {
        Some(cartridge_extension(profile))
    } else if slug == "n64"@ {
        deck_n64_extension(kind, profile, size)
    } else if slug == "nds"@ || slug == "psp"@ || slug == "psvita"@ || slug == "ps3"@ || slug
        == "ps4"@ || slug == "ps5"@ {
        Some("sav"@)
    } else if slug == "ps2"@ {
        Some("ps2"@)
    } else {
        None
    }
}

pub fn preferred_extension_for_system(source_kind: &SourceKind, source_profile: &EmulatorProfile, system_slug: &str, save_size: Option<u64>) -> (r: Option<&'static str>)
    ensures
        match r {
            Some(e) => deck_extension(*source_kind, *source_profile, system_slug@, save_size) == Some(e@),
            None => deck_extension(*source_kind, *source_profile, system_slug@, save_size) is None,
        },
{
    let s = chars_of(system_slug);
    let s = s.as_slice();
    if eq_lit(s, "nes") || eq_lit(s, "snes") || eq_lit(s, "gameboy") || eq_lit(s, "gba") || eq_lit(s, "genesis")
        || eq_lit(s, "master-system") || eq_lit(s, "game-gear") || eq_lit(s, "neogeo") {
        preferred_extension_for_cartridge(source_profile)
    } else if eq_lit(s, "n64") {
        preferred_extension_for_n64(source_kind, source_profile, save_size)
    } else if eq_lit(s, "nds") || eq_lit(s, "psp") || eq_lit(s, "psvita") || eq_lit(s, "ps3") || eq_lit(s, "ps4")
        || eq_lit(s, "ps5") {
        Some("sav")
    } else if eq_lit(s, "ps2") {
        Some("ps2")
    } else {
        None
    }
}

/// The path a save is kept at: a natively stored save of a system with a
/// preferred extension is renamed to it; any other save stays where it is.
pub open spec fn deck_preferred_path(
    path: Seq<char>,
    kind: SourceKind,
    profile: EmulatorProfile,
    slug: Option<Seq<char>>,
    container: SaveContainerFormat,
    size: Option<u64>,
) -> Seq<char> {
    if container != SaveContainerFormat::Native || slug is None {
        path
    } else {
        match deck_extension(kind, profile, slug->0, size) {
            None => path,
            Some(e) => if lower_ext(path) == Some(e) {
                path
            } else {
                with_extension(path, e)
            },
        }
    }
}

pub fn preferred_save_path(
    save_path: &str,
    source_kind: &SourceKind,
    source_profile: &EmulatorProfile,
    system_slug: Option<&str>,
    local_container: SaveContainerFormat,
    canonical_size: Option<u64>,
) -> (r: String)
    ensures
        r@ == deck_preferred_path(save_path@, *source_kind, *source_profile, crate::text::opt_chars(system_slug), local_container, canonical_size),
{
    if local_container != SaveContainerFormat::Native {
        return save_path.to_string();
    }
    let slug = match system_slug {
        Some(s) => s,
        None => {
            return save_path.to_string();
        },
    };
    let ext = match preferred_extension_for_system(source_kind, source_profile, slug, canonical_size) {
        Some(e) => e,
        None => {
            return save_path.to_string();
        },
    };
    match save_extension(save_path) {
        Some(cur) => if str_eq(cur.as_str(), ext) {
            return save_path.to_string();
        },
        None => {},
    }
    set_extension(save_path, ext)
}

// ---------------------------------------------------------------------------
// Memory-card slots
// ---------------------------------------------------------------------------

/// The slot a save is synced as: for a PlayStation or PS2 save, the slot the
/// configured name designates, else the one its path designates; for any
/// other save, the configured slot.
pub open spec fn deck_slot(slug: Seq<char>, path: Seq<char>, configured: Seq<char>) -> Seq<char> {
    if !(slug == "psx"@ || slug == "ps2"@) {
        configured
    } else {
        match ps_slot(configured) {
            Some(s) => s,
            None => ps_slot_of_path(path),
        }
    }
}

pub fn resolve_slot_name_for_sync(system_slug: &str, save_path: &str, configured_slot: &str) -> (r: String)
    ensures
        r@ == deck_slot(system_slug@, save_path@, configured_slot@),
{
    if !(str_eq(system_slug, "psx") || str_eq(system_slug, "ps2")) {
        return configured_slot.to_string();
    }
    match parse_playstation_slot(configured_slot) {
        Some(s) => s,
        None => infer_playstation_slot_from_path(save_path),
    }
}

/// The name a save is uploaded under: its file name, or `save.bin`.
pub fn upload_file_name(save_path: &str) -> (r: String)
    ensures
        r@ == match file_name(save_path@) {
            Some(n) => n,
            None => "save.bin"@,
        },
{
    match path_file_name(save_path) {
        Some(n) => string_of(n.as_slice()),
        None => owned("save.bin"),
    }
}

// ---------------------------------------------------------------------------
// Syncing one save
// ---------------------------------------------------------------------------

/// One step of syncing a save on the Steam Deck helper.
///
/// No cloud save: upload (a dry run counts it, without a version). A cloud
/// save with the local hash: in sync. Else, with `force_upload`, upload;
/// else ask for a conflict: a conflict is reported (a dry run only counts
/// it); without one the cloud save is downloaded, or the save skipped when
/// the cloud save has no id. Every failure of the backend fails the save.
pub open spec fn deck_sync_step(
    dry_run: bool,
    force_upload: bool,
    local_sha: Seq<char>,
    filename: Seq<char>,
    phase: SaveSyncPhase,
    ev: SaveSyncEvent,
    next: SaveSyncPhase,
    act: SaveSyncAction,
) -> bool {
    match (phase, ev) {
        (SaveSyncPhase::Start, SaveSyncEvent::Begin) => next is AwaitingLatest && act is RequestLatest,
        (SaveSyncPhase::AwaitingLatest, SaveSyncEvent::Latest(l)) => {
            if !l.exists {
                if dry_run {
                    next is Finished && act == SaveSyncAction::Finish(SaveSyncOutcome::Uploaded { version: None })
                } else {
                    next == (SaveSyncPhase::AwaitingUpload { version: l.version, fallback: false }) && uploads(act, filename)
                }
            } else if l.sha256 is Some && l.sha256->0@ == local_sha {
                next is Finished && act == SaveSyncAction::Finish(SaveSyncOutcome::InSync { version: l.version })
            } else if force_upload {
                if dry_run {
                    next is Finished && act == SaveSyncAction::Finish(SaveSyncOutcome::Uploaded { version: l.version })
                } else {
                    next == (SaveSyncPhase::AwaitingUpload { version: l.version, fallback: false }) && uploads(act, filename)
                }
            } else {
                next == (SaveSyncPhase::AwaitingConflictCheck { version: l.version, id: l.id }) && act is RequestConflictCheck
            }
        },
        (SaveSyncPhase::AwaitingConflictCheck { version, id }, SaveSyncEvent::ConflictCheck { exists }) => {
            if exists {
                if dry_run {
                    next is Finished && act == SaveSyncAction::Finish(SaveSyncOutcome::Conflict { version })
                } else {
                    next == (SaveSyncPhase::AwaitingConflictReport { version }) && act is ReportConflict
                }
            } else {
                match id {
                    Some(i) => if dry_run {
                        next is Finished && act == SaveSyncAction::Finish(SaveSyncOutcome::Downloaded { version, sha256: None })
                    } else {
                        next == (SaveSyncPhase::AwaitingDownload { version }) && downloads(act, i@)
                    },
                    None => next is Finished && act == SaveSyncAction::Finish(SaveSyncOutcome::Skipped),
                }
            }
        },
        (SaveSyncPhase::AwaitingConflictReport { version }, SaveSyncEvent::ConflictReportDone) => next is Finished && act == SaveSyncAction::Finish(SaveSyncOutcome::Conflict { version }),
        (SaveSyncPhase::AwaitingDownload { version }, SaveSyncEvent::DownloadDone { sha256 }) => next is Finished && finishes_downloaded(act, version, sha256@),
        (SaveSyncPhase::AwaitingUpload { version, fallback }, SaveSyncEvent::UploadDone) => next is Finished && act == SaveSyncAction::Finish(SaveSyncOutcome::Uploaded { version }),
        (SaveSyncPhase::AwaitingLatest, SaveSyncEvent::LatestFailed(m)) => next is Finished && fails(act, m@),
        (SaveSyncPhase::AwaitingConflictCheck { .. }, SaveSyncEvent::ConflictCheckFailed(m)) => next is Finished && fails(act, m@),
        (SaveSyncPhase::AwaitingConflictReport { .. }, SaveSyncEvent::ConflictReportFailed(m)) => next is Finished && fails(act, m@),
        (SaveSyncPhase::AwaitingDownload { .. }, SaveSyncEvent::DownloadFailed(m)) => next is Finished && fails(act, m@),
        (SaveSyncPhase::AwaitingUpload { .. }, SaveSyncEvent::UploadFailed(m)) => next is Finished && fails(act, m@),
        _ => next == phase && act is Ignore,
    }
}

fn same_sha(a: &Option<String>, b: &String) -> (r: bool)
    ensures
        r == (a is Some && a->0@ == b@),
{
    match a {
        Some(s) => str_eq(s.as_str(), b.as_str()),
        None => false,
    }
}

fn keep_phase(p: &SaveSyncPhase) -> (r: SaveSyncPhase)
    ensures
        r == *p,
{
    match p {
        SaveSyncPhase::Start => SaveSyncPhase::Start,
        SaveSyncPhase::AwaitingLatest => SaveSyncPhase::AwaitingLatest,
        SaveSyncPhase::AwaitingConflictCheck { version, id } => {
            let id2 = match id {
                Some(i) => Some(i.clone()),
                None => None,
            };
            SaveSyncPhase::AwaitingConflictCheck { version: *version, id: id2 }
        },
        SaveSyncPhase::AwaitingUpload { version, fallback } => SaveSyncPhase::AwaitingUpload { version: *version, fallback: *fallback },
        SaveSyncPhase::AwaitingRetryUpload { version } => SaveSyncPhase::AwaitingRetryUpload { version: *version },
        SaveSyncPhase::AwaitingConflictReport { version } => SaveSyncPhase::AwaitingConflictReport { version: *version },
        SaveSyncPhase::AwaitingDownload { version } => SaveSyncPhase::AwaitingDownload { version: *version },
        SaveSyncPhase::Finished => SaveSyncPhase::Finished,
    }
}

fn fail_with(m: &String) -> (r: (SaveSyncPhase, SaveSyncAction))
    ensures
        r.0 is Finished && fails(r.1, m@),
{
    (SaveSyncPhase::Finished, SaveSyncAction::Fail(m.clone()))
}

/// One step of syncing a save; see `deck_sync_step`.
pub fn next_deck_sync_step(
    dry_run: bool,
    force_upload: bool,
    local_sha256: &String,
    upload_filename: &String,
    phase: &SaveSyncPhase,
    event: &SaveSyncEvent,
) -> (r: (SaveSyncPhase, SaveSyncAction))
    ensures
        deck_sync_step(dry_run, force_upload, local_sha256@, upload_filename@, *phase, *event, r.0, r.1),
{
    match (phase, event) {
        (SaveSyncPhase::Start, SaveSyncEvent::Begin) => (SaveSyncPhase::AwaitingLatest, SaveSyncAction::RequestLatest),
        (SaveSyncPhase::AwaitingLatest, SaveSyncEvent::Latest(l)) => {
            if !l.exists {
                if dry_run {
                    (SaveSyncPhase::Finished, SaveSyncAction::Finish(SaveSyncOutcome::Uploaded { version: None }))
                } else {
                    (SaveSyncPhase::AwaitingUpload { version: l.version, fallback: false }, SaveSyncAction::Upload { filename: upload_filename.clone() })
                }
            } else if same_sha(&l.sha256, local_sha256) {
                (SaveSyncPhase::Finished, SaveSyncAction::Finish(SaveSyncOutcome::InSync { version: l.version }))
            } else if force_upload {
                if dry_run {
                    (SaveSyncPhase::Finished, SaveSyncAction::Finish(SaveSyncOutcome::Uploaded { version: l.version }))
                } else {
                    (SaveSyncPhase::AwaitingUpload { version: l.version, fallback: false }, SaveSyncAction::Upload { filename: upload_filename.clone() })
                }
            } else {
                (SaveSyncPhase::AwaitingConflictCheck { version: l.version, id: l.id.clone() }, SaveSyncAction::RequestConflictCheck)
            }
        },
        (SaveSyncPhase::AwaitingConflictCheck { version, id }, SaveSyncEvent::ConflictCheck { exists }) => {
            if *exists {
                if dry_run {
                    (SaveSyncPhase::Finished, SaveSyncAction::Finish(SaveSyncOutcome::Conflict { version: *version }))
                } else {
                    (SaveSyncPhase::AwaitingConflictReport { version: *version }, SaveSyncAction::ReportConflict)
                }
            } else {
                match id {
                    Some(i) => if dry_run {
                        (SaveSyncPhase::Finished, SaveSyncAction::Finish(SaveSyncOutcome::Downloaded { version: *version, sha256: None }))
                    } else {
                        (SaveSyncPhase::AwaitingDownload { version: *version }, SaveSyncAction::Download { save_id: i.clone() })
                    },
                    None => (SaveSyncPhase::Finished, SaveSyncAction::Finish(SaveSyncOutcome::Skipped)),
                }
            }
        },
        (SaveSyncPhase::AwaitingConflictReport { version }, SaveSyncEvent::ConflictReportDone) => (SaveSyncPhase::Finished, SaveSyncAction::Finish(SaveSyncOutcome::Conflict { version: *version })),
        (SaveSyncPhase::AwaitingDownload { version }, SaveSyncEvent::DownloadDone { sha256 }) => (SaveSyncPhase::Finished, SaveSyncAction::Finish(SaveSyncOutcome::Downloaded { version: *version, sha256: Some(sha256.clone()) })),
        (SaveSyncPhase::AwaitingUpload { version, fallback }, SaveSyncEvent::UploadDone) => (SaveSyncPhase::Finished, SaveSyncAction::Finish(SaveSyncOutcome::Uploaded { version: *version })),
        (SaveSyncPhase::AwaitingLatest, SaveSyncEvent::LatestFailed(m)) => fail_with(m),
        (SaveSyncPhase::AwaitingConflictCheck { .. }, SaveSyncEvent::ConflictCheckFailed(m)) => fail_with(m),
        (SaveSyncPhase::AwaitingConflictReport { .. }, SaveSyncEvent::ConflictReportFailed(m)) => fail_with(m),
        (SaveSyncPhase::AwaitingDownload { .. }, SaveSyncEvent::DownloadFailed(m)) => fail_with(m),
        (SaveSyncPhase::AwaitingUpload { .. }, SaveSyncEvent::UploadFailed(m)) => fail_with(m),
        _ => (keep_phase(phase), SaveSyncAction::Ignore),
    }
}

/// A dry run only reads: from a phase a dry run can be in, no step uploads,
/// downloads or reports, and the next phase is again one a dry run can be in.
pub proof fn law_deck_dry_run_only_reads(
    force_upload: bool,
    local_sha: Seq<char>,
    filename: Seq<char>,
    phase: SaveSyncPhase,
    ev: SaveSyncEvent,
    next: SaveSyncPhase,
    act: SaveSyncAction,
)
    requires
        read_only_phase(phase),
        deck_sync_step(true, force_upload, local_sha, filename, phase, ev, next, act),
    ensures
        read_only_phase(next),
        !writes(act),
{
}

/// A cloud save with the local hash is in sync, even with `force_upload`.
pub proof fn law_deck_equal_hash_is_in_sync(
    dry_run: bool,
    force_upload: bool,
    local_sha: Seq<char>,
    filename: Seq<char>,
    latest: LatestSaveResponse,
    next: SaveSyncPhase,
    act: SaveSyncAction,
)
    requires
        latest.exists,
        latest.sha256 is Some,
        latest.sha256->0@ == local_sha,
        deck_sync_step(dry_run, force_upload, local_sha, filename, SaveSyncPhase::AwaitingLatest, SaveSyncEvent::Latest(latest), next, act),
    ensures
        next is Finished,
        act == SaveSyncAction::Finish(SaveSyncOutcome::InSync { version: latest.version }),
{
}

/// A save the cloud does not have is uploaded (outside a dry run).
pub proof fn law_deck_missing_cloud_save_is_uploaded(
    force_upload: bool,
    local_sha: Seq<char>,
    filename: Seq<char>,
    latest: LatestSaveResponse,
    next: SaveSyncPhase,
    act: SaveSyncAction,
)
    requires
        !latest.exists,
        deck_sync_step(false, force_upload, local_sha, filename, SaveSyncPhase::AwaitingLatest, SaveSyncEvent::Latest(latest), next, act),
    ensures
        uploads(act, filename),
{
}


/// A conflict is reported, never overwritten: outside a dry run, when the
/// conflict check finds that both the local and the cloud save changed, the
/// next step reports the conflict, and neither downloads nor uploads; a dry
/// run counts the conflict.
pub proof fn law_deck_conflict_is_reported(
    dry_run: bool,
    force_upload: bool,
    local_sha: Seq<char>,
    filename: Seq<char>,
    version: Option<i64>,
    id: Option<String>,
    next: SaveSyncPhase,
    act: SaveSyncAction,
)
    requires
        deck_sync_step(dry_run, force_upload, local_sha, filename, SaveSyncPhase::AwaitingConflictCheck { version, id }, SaveSyncEvent::ConflictCheck { exists: true }, next, act),
    ensures
        !dry_run ==> next == (SaveSyncPhase::AwaitingConflictReport { version }) && act is ReportConflict,
        dry_run ==> act == SaveSyncAction::Finish(SaveSyncOutcome::Conflict { version }),
        !(act is Download),
        !(act is Upload),
{
}

/// A download happens only where the conflict check found no conflict: any
/// step that downloads is the answer to a conflict check that found none,
/// and downloads the save the latest cloud answer named.
pub proof fn law_deck_download_only_without_conflict(
    dry_run: bool,
    force_upload: bool,
    local_sha: Seq<char>,
    filename: Seq<char>,
    phase: SaveSyncPhase,
    ev: SaveSyncEvent,
    next: SaveSyncPhase,
    act: SaveSyncAction,
)
    requires
        deck_sync_step(dry_run, force_upload, local_sha, filename, phase, ev, next, act),
        act is Download,
    ensures
        ev == (SaveSyncEvent::ConflictCheck { exists: false }),
        phase matches SaveSyncPhase::AwaitingConflictCheck { id: Some(i), .. } && downloads(act, i@),
        !dry_run,
{
}

} // verus!

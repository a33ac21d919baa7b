//! The decisions of syncing one save with the cloud, as a state machine: the
//! helper asks the backend, hands the machine what came back, and does what
//! the machine says next (ask again, upload, download, report a conflict, or
//! finish with an outcome).
use vstd::prelude::*;
use crate::mister::syncer::{
    SyncReport, empty_controller_pak_rejection, filename_with_extension,
    is_empty_n64_controller_pak_rejection, is_legacy_n64_latest_mismatch,
    is_missing_cloud_payload_reference, is_playstation_projection_unavailable,
    legacy_n64_latest_mismatch, missing_cloud_payload, playstation_projection_unavailable,
    renamed_with_extension, retry_cpk_as_mpk, should_retry_n64_mister_cpk_as_mpk,
};
use crate::mister::cloud_restore::{RootFacts, parent_allowed, target_parent_allowed};
use crate::mister::sources::{ResolvedSource, SourceKind, kind_name};
use crate::mister::syncer::{allows_system, source_allows_system};
use crate::steamdeck::ports::{relative_path_under, relative_under};
use crate::mister::state::{SyncState, SyncedEntry, now_rfc3339, other_key, stored};
use crate::steamdeck::api::{ConflictCheckResponse, LatestSaveResponse, RuntimeTarget};
use crate::steamdeck::scanner::{SaveAdapterProfile, SaveContainerFormat};
use crate::text::{opt_chars, str_eq};

verus! {

/// What stays fixed while one save is synced.
#[derive(Debug, Clone)]
pub struct SaveSyncContext {
    pub system_slug: String,
    pub upload_filename: String,
    pub runtime_target: RuntimeTarget,
    pub force_upload: bool,
    pub dry_run: bool,
    pub local_sha256: String,
}

/// Where the syncing of one save stands. `fallback` marks an upload that may
/// be retried under the `.mpk` name; a repair upload may not.
#[derive(Debug, Clone)]
pub enum SaveSyncPhase {
    Start,
    AwaitingLatest,
    AwaitingConflictCheck { version: Option<i64>, id: Option<String> },
    AwaitingUpload { version: Option<i64>, fallback: bool },
    AwaitingRetryUpload { version: Option<i64> },
    AwaitingConflictReport { version: Option<i64> },
    AwaitingDownload { version: Option<i64> },
    Finished,
}

/// What the helper reports back: the start, or the answer to the last
/// request (an error as its message).
#[derive(Debug, Clone)]
pub enum SaveSyncEvent {
    Begin,
    Latest(LatestSaveResponse),
    LatestFailed(String),
    ConflictCheck { exists: bool },
    ConflictCheckFailed(String),
    UploadDone,
    UploadFailed(String),
    ConflictReportDone,
    ConflictReportFailed(String),
    DownloadDone { sha256: String },
    DownloadFailed(String),
}

/// How the syncing of a save ended. A download in a dry run keeps the local
/// hash (`sha256` is `None`); a real one records the hash of what came down.
#[derive(Debug, Clone)]
pub enum SaveSyncOutcome {
    Uploaded { version: Option<i64> },
    InSync { version: Option<i64> },
    Conflict { version: Option<i64> },
    Downloaded { version: Option<i64>, sha256: Option<String> },
    Skipped,
}

/// What the helper is to do next.
#[derive(Debug, Clone)]
pub enum SaveSyncAction {
    RequestLatest,
    RequestConflictCheck,
    Upload { filename: String },
    ReportConflict,
    Download { save_id: String },
    Finish(SaveSyncOutcome),
    Fail(String),
    Ignore,
}

/// An upload of the file named `name`.
pub open spec fn uploads(act: SaveSyncAction, name: Seq<char>) -> bool {
    match act {
        SaveSyncAction::Upload { filename } => filename@ == name,
        _ => false,
    }
}

/// A failure with the message `msg`.
pub open spec fn fails(act: SaveSyncAction, msg: Seq<char>) -> bool {
    match act {
        SaveSyncAction::Fail(m) => m@ == msg,
        _ => false,
    }
}

/// A download of the cloud save `id`.
pub open spec fn downloads(act: SaveSyncAction, id: Seq<char>) -> bool {
    match act {
        SaveSyncAction::Download { save_id } => save_id@ == id,
        _ => false,
    }
}

/// The end of a download that brought down bytes hashing to `sha`.
pub open spec fn finishes_downloaded(act: SaveSyncAction, version: Option<i64>, sha: Seq<char>) -> bool {
    match act {
        SaveSyncAction::Finish(SaveSyncOutcome::Downloaded { version: v, sha256: Some(s) }) => v == version && s@ == sha,
        _ => false,
    }
}

/// A latest-save failure that stands for "no usable cloud save": a legacy N64
/// EEPROM payload mismatch, a payload reference that is gone, or a missing
/// PlayStation projection.
pub open spec fn latest_counts_as_missing(slug: Seq<char>, msg: Seq<char>) -> bool {
    legacy_n64_latest_mismatch(msg, slug) || missing_cloud_payload(msg)
        || playstation_projection_unavailable(msg, slug)
}

/// The step after the cloud has no usable save: upload (in a dry run, count
/// it as uploaded without a version).
pub open spec fn no_cloud_step(
    ctx: SaveSyncContext,
    version: Option<i64>,
    next: SaveSyncPhase,
    act: SaveSyncAction,
) -> bool {
    if ctx.dry_run {
        next is Finished && act == SaveSyncAction::Finish(SaveSyncOutcome::Uploaded { version: None })
    } else {
        next == (SaveSyncPhase::AwaitingUpload { version, fallback: true }) && uploads(act, ctx.upload_filename@)
    }
}

/// The step that uploads the local card as a repair after a missing
/// PlayStation projection.
pub open spec fn repair_step(
    ctx: SaveSyncContext,
    version: Option<i64>,
    next: SaveSyncPhase,
    act: SaveSyncAction,
) -> bool {
    next == (SaveSyncPhase::AwaitingUpload { version, fallback: false }) && uploads(act, ctx.upload_filename@)
}

/// The step after a failed upload: retry once under the `.mpk` name where an
/// old backend refused a MiSTer `.cpk` controller pak; else skip an empty
/// controller pak; else fail.
pub open spec fn upload_failed_step(
    ctx: SaveSyncContext,
    version: Option<i64>,
    may_retry: bool,
    msg: Seq<char>,
    next: SaveSyncPhase,
    act: SaveSyncAction,
) -> bool {
    let renamed = renamed_with_extension(ctx.upload_filename@, "mpk"@);
    if may_retry && retry_cpk_as_mpk(msg, ctx.system_slug@, ctx.runtime_target, ctx.upload_filename@)
        && renamed is Some {
        next == (SaveSyncPhase::AwaitingRetryUpload { version }) && uploads(act, renamed->0)
    } else if empty_controller_pak_rejection(msg, ctx.system_slug@) {
        next is Finished && act == SaveSyncAction::Finish(SaveSyncOutcome::Skipped)
    } else {
        next is Finished && fails(act, msg)
    }
}

/// One step of syncing a save, from the phase and what came back.
///
/// The cloud's latest save decides: none (or one that counts as missing) is
/// uploaded; with `force_upload` the local save is uploaded; a cloud hash
/// equal to the local one is in sync; else the backend is asked for a
/// conflict. A conflict is reported; else the cloud save is downloaded, or
/// the save is skipped when the cloud save has no id. A missing PlayStation
/// projection during the conflict check, the report or the download is
/// repaired by uploading the local card. A dry run only reads: it counts
/// what it would have uploaded, downloaded or reported. An event that does
/// not answer the phase's request is ignored.
pub open spec fn save_sync_step(
    ctx: SaveSyncContext,
    phase: SaveSyncPhase,
    ev: SaveSyncEvent,
    next: SaveSyncPhase,
    act: SaveSyncAction,
) -> bool {
    match (phase, ev) {
        (SaveSyncPhase::Start, SaveSyncEvent::Begin) => next is AwaitingLatest && act is RequestLatest,
        (SaveSyncPhase::AwaitingLatest, SaveSyncEvent::Latest(l)) => {
            if !l.exists {
                no_cloud_step(ctx, l.version, next, act)
            } else if ctx.force_upload {
                if ctx.dry_run {
                    next is Finished && act == SaveSyncAction::Finish(SaveSyncOutcome::Uploaded { version: l.version })
                } else {
                    next == (SaveSyncPhase::AwaitingUpload { version: l.version, fallback: true }) && uploads(act, ctx.upload_filename@)
                }
            } else if l.sha256 is Some && l.sha256->0@ == ctx.local_sha256@ {
                next is Finished && act == SaveSyncAction::Finish(SaveSyncOutcome::InSync { version: l.version })
            } else {
                next == (SaveSyncPhase::AwaitingConflictCheck { version: l.version, id: l.id }) && act is RequestConflictCheck
            }
        },
        (SaveSyncPhase::AwaitingLatest, SaveSyncEvent::LatestFailed(m)) => {
            if latest_counts_as_missing(ctx.system_slug@, m@) {
                no_cloud_step(ctx, None, next, act)
            } else {
                next is Finished && fails(act, m@)
            }
        },
        (SaveSyncPhase::AwaitingConflictCheck { version, id }, SaveSyncEvent::ConflictCheck { exists }) => {
            if exists {
                if ctx.dry_run {
                    next is Finished && act == SaveSyncAction::Finish(SaveSyncOutcome::Conflict { version })
                } else {
                    next == (SaveSyncPhase::AwaitingConflictReport { version }) && act is ReportConflict
                }
            } else {
                match id {
                    Some(i) => if ctx.dry_run {
                        next is Finished && act == SaveSyncAction::Finish(SaveSyncOutcome::Downloaded { version, sha256: None })
                    } else {
                        next == (SaveSyncPhase::AwaitingDownload { version }) && downloads(act, i@)
                    },
                    None => next is Finished && act == SaveSyncAction::Finish(SaveSyncOutcome::Skipped),
                }
            }
        },
        (SaveSyncPhase::AwaitingConflictCheck { version, id }, SaveSyncEvent::ConflictCheckFailed(m)) => {
            if playstation_projection_unavailable(m@, ctx.system_slug@) {
                if ctx.dry_run {
                    next is Finished && act == SaveSyncAction::Finish(SaveSyncOutcome::Uploaded { version })
                } else {
                    repair_step(ctx, version, next, act)
                }
            } else {
                next is Finished && fails(act, m@)
            }
        },
        (SaveSyncPhase::AwaitingConflictReport { version }, SaveSyncEvent::ConflictReportDone) => next is Finished && act == SaveSyncAction::Finish(SaveSyncOutcome::Conflict { version }),
        (SaveSyncPhase::AwaitingConflictReport { version }, SaveSyncEvent::ConflictReportFailed(m)) => {
            if playstation_projection_unavailable(m@, ctx.system_slug@) {
                repair_step(ctx, version, next, act)
            } else {
                next is Finished && fails(act, m@)
            }
        },
        (SaveSyncPhase::AwaitingDownload { version }, SaveSyncEvent::DownloadDone { sha256 }) => next is Finished && finishes_downloaded(act, version, sha256@),
        (SaveSyncPhase::AwaitingDownload { version }, SaveSyncEvent::DownloadFailed(m)) => {
            if playstation_projection_unavailable(m@, ctx.system_slug@) {
                repair_step(ctx, version, next, act)
            } else {
                next is Finished && fails(act, m@)
            }
        },
        (SaveSyncPhase::AwaitingUpload { version, fallback }, SaveSyncEvent::UploadDone) => next is Finished && act == SaveSyncAction::Finish(SaveSyncOutcome::Uploaded { version }),
        (SaveSyncPhase::AwaitingUpload { version, fallback }, SaveSyncEvent::UploadFailed(m)) => {
            if fallback {
                upload_failed_step(ctx, version, true, m@, next, act)
            } else {
                next is Finished && fails(act, m@)
            }
        },
        (SaveSyncPhase::AwaitingRetryUpload { version }, SaveSyncEvent::UploadDone) => next is Finished && act == SaveSyncAction::Finish(SaveSyncOutcome::Uploaded { version }),
        (SaveSyncPhase::AwaitingRetryUpload { version }, SaveSyncEvent::UploadFailed(m)) => upload_failed_step(ctx, version, false, m@, next, act),
        _ => next == phase && act is Ignore,
    }
}

fn upload_action(ctx: &SaveSyncContext) -> (r: SaveSyncAction)
    ensures
        uploads(r, ctx.upload_filename@),
{
    SaveSyncAction::Upload { filename: ctx.upload_filename.clone() }
}

pub(crate) fn fail_action(m: &String) -> (r: SaveSyncAction)
    ensures
        fails(r, m@),
{
    SaveSyncAction::Fail(m.clone())
}

fn no_cloud(ctx: &SaveSyncContext, version: Option<i64>) -> (r: (SaveSyncPhase, SaveSyncAction))
    ensures
        no_cloud_step(*ctx, version, r.0, r.1),
{
    if ctx.dry_run {
        (SaveSyncPhase::Finished, SaveSyncAction::Finish(SaveSyncOutcome::Uploaded { version: None }))
    } else {
        (SaveSyncPhase::AwaitingUpload { version, fallback: true }, upload_action(ctx))
    }
}

fn repair(ctx: &SaveSyncContext, version: Option<i64>) -> (r: (SaveSyncPhase, SaveSyncAction))
    ensures
        repair_step(*ctx, version, r.0, r.1),
{
    (SaveSyncPhase::AwaitingUpload { version, fallback: false }, upload_action(ctx))
}

fn upload_failed(ctx: &SaveSyncContext, version: Option<i64>, may_retry: bool, m: &String) -> (r: (SaveSyncPhase, SaveSyncAction))
    ensures
        upload_failed_step(*ctx, version, may_retry, m@, r.0, r.1),
{
    if may_retry && should_retry_n64_mister_cpk_as_mpk(
        m.as_str(),
        ctx.system_slug.as_str(),
        &ctx.runtime_target,
        ctx.upload_filename.as_str(),
    ) {
        match filename_with_extension(ctx.upload_filename.as_str(), "mpk") {
            Some(f) => {
                return (SaveSyncPhase::AwaitingRetryUpload { version }, SaveSyncAction::Upload { filename: f });
            },
            None => {},
        }
    }
    if is_empty_n64_controller_pak_rejection(m.as_str(), ctx.system_slug.as_str()) {
        (SaveSyncPhase::Finished, SaveSyncAction::Finish(SaveSyncOutcome::Skipped))
    } else {
        (SaveSyncPhase::Finished, fail_action(m))
    }
}

pub(crate) fn copy_phase(p: &SaveSyncPhase) -> (r: SaveSyncPhase)
    ensures
        r == *p,
{
    match p {
        SaveSyncPhase::Start => SaveSyncPhase::Start,
        SaveSyncPhase::AwaitingLatest => SaveSyncPhase::AwaitingLatest,
        SaveSyncPhase::AwaitingConflictCheck { version, id } => {
            let id2 = match id {
                Some(i) => Some(i.clone()),
                None => None,
            };
            SaveSyncPhase::AwaitingConflictCheck { version: *version, id: id2 }
        },
        SaveSyncPhase::AwaitingUpload { version, fallback } => SaveSyncPhase::AwaitingUpload { version: *version, fallback: *fallback },
        SaveSyncPhase::AwaitingRetryUpload { version } => SaveSyncPhase::AwaitingRetryUpload { version: *version },
        SaveSyncPhase::AwaitingConflictReport { version } => SaveSyncPhase::AwaitingConflictReport { version: *version },
        SaveSyncPhase::AwaitingDownload { version } => SaveSyncPhase::AwaitingDownload { version: *version },
        SaveSyncPhase::Finished => SaveSyncPhase::Finished,
    }
}

pub(crate) fn same_sha(a: &Option<String>, b: &String) -> (r: bool)
    ensures
        r == (a is Some && a->0@ == b@),
{
    match a {
        Some(s) => crate::text::str_eq(s.as_str(), b.as_str()),
        None => false,
    }
}

/// One step of syncing a save; see `save_sync_step`.
#[verifier::rlimit(30)]
pub fn next_save_sync_step(ctx: &SaveSyncContext, phase: &SaveSyncPhase, event: &SaveSyncEvent) -> (r: (SaveSyncPhase, SaveSyncAction))
    ensures
        save_sync_step(*ctx, *phase, *event, r.0, r.1),
{
    match (phase, event) {
        (SaveSyncPhase::Start, SaveSyncEvent::Begin) => (SaveSyncPhase::AwaitingLatest, SaveSyncAction::RequestLatest),
        (SaveSyncPhase::AwaitingLatest, SaveSyncEvent::Latest(l)) => {
            if !l.exists {
                no_cloud(ctx, l.version)
            } else if ctx.force_upload {
                if ctx.dry_run {
                    (SaveSyncPhase::Finished, SaveSyncAction::Finish(SaveSyncOutcome::Uploaded { version: l.version }))
                } else {
                    (SaveSyncPhase::AwaitingUpload { version: l.version, fallback: true }, upload_action(ctx))
                }
            } else if same_sha(&l.sha256, &ctx.local_sha256) {
                (SaveSyncPhase::Finished, SaveSyncAction::Finish(SaveSyncOutcome::InSync { version: l.version }))
            } else {
                (SaveSyncPhase::AwaitingConflictCheck { version: l.version, id: l.id.clone() }, SaveSyncAction::RequestConflictCheck)
            }
        },
        (SaveSyncPhase::AwaitingLatest, SaveSyncEvent::LatestFailed(m)) => {
            let slug = ctx.system_slug.as_str();
            if is_legacy_n64_latest_mismatch(m.as_str(), slug) || is_missing_cloud_payload_reference(m.as_str())
                || is_playstation_projection_unavailable(m.as_str(), slug) {
                no_cloud(ctx, None)
            } else {
                (SaveSyncPhase::Finished, fail_action(m))
            }
        },
        (SaveSyncPhase::AwaitingConflictCheck { version, id }, SaveSyncEvent::ConflictCheck { exists }) => {
            if *exists {
                if ctx.dry_run {
                    (SaveSyncPhase::Finished, SaveSyncAction::Finish(SaveSyncOutcome::Conflict { version: *version }))
                } else {
                    (SaveSyncPhase::AwaitingConflictReport { version: *version }, SaveSyncAction::ReportConflict)
                }
            } else {
                match id {
                    Some(i) => if ctx.dry_run {
                        (SaveSyncPhase::Finished, SaveSyncAction::Finish(SaveSyncOutcome::Downloaded { version: *version, sha256: None }))
                    } else {
                        (SaveSyncPhase::AwaitingDownload { version: *version }, SaveSyncAction::Download { save_id: i.clone() })
                    },
                    None => (SaveSyncPhase::Finished, SaveSyncAction::Finish(SaveSyncOutcome::Skipped)),
                }
            }
        },
        (SaveSyncPhase::AwaitingConflictCheck { version, id }, SaveSyncEvent::ConflictCheckFailed(m)) => {
            if is_playstation_projection_unavailable(m.as_str(), ctx.system_slug.as_str()) {
                if ctx.dry_run {
                    (SaveSyncPhase::Finished, SaveSyncAction::Finish(SaveSyncOutcome::Uploaded { version: *version }))
                } else {
                    repair(ctx, *version)
                }
            } else {
                (SaveSyncPhase::Finished, fail_action(m))
            }
        },
        (SaveSyncPhase::AwaitingConflictReport { version }, SaveSyncEvent::ConflictReportDone) => (SaveSyncPhase::Finished, SaveSyncAction::Finish(SaveSyncOutcome::Conflict { version: *version })),
        (SaveSyncPhase::AwaitingConflictReport { version }, SaveSyncEvent::ConflictReportFailed(m)) => {
            if is_playstation_projection_unavailable(m.as_str(), ctx.system_slug.as_str()) {
                repair(ctx, *version)
            } else {
                (SaveSyncPhase::Finished, fail_action(m))
            }
        },
        (SaveSyncPhase::AwaitingDownload { version }, SaveSyncEvent::DownloadDone { sha256 }) => (SaveSyncPhase::Finished, SaveSyncAction::Finish(SaveSyncOutcome::Downloaded { version: *version, sha256: Some(sha256.clone()) })),
        (SaveSyncPhase::AwaitingDownload { version }, SaveSyncEvent::DownloadFailed(m)) => {
            if is_playstation_projection_unavailable(m.as_str(), ctx.system_slug.as_str()) {
                repair(ctx, *version)
            } else {
                (SaveSyncPhase::Finished, fail_action(m))
            }
        },
        (SaveSyncPhase::AwaitingUpload { version, fallback }, SaveSyncEvent::UploadDone) => (SaveSyncPhase::Finished, SaveSyncAction::Finish(SaveSyncOutcome::Uploaded { version: *version })),
        (SaveSyncPhase::AwaitingUpload { version, fallback }, SaveSyncEvent::UploadFailed(m)) => {
            if *fallback {
                upload_failed(ctx, *version, true, m)
            } else {
                (SaveSyncPhase::Finished, fail_action(m))
            }
        },
        (SaveSyncPhase::AwaitingRetryUpload { version }, SaveSyncEvent::UploadDone) => (SaveSyncPhase::Finished, SaveSyncAction::Finish(SaveSyncOutcome::Uploaded { version: *version })),
        (SaveSyncPhase::AwaitingRetryUpload { version }, SaveSyncEvent::UploadFailed(m)) => upload_failed(ctx, *version, false, m),
        _ => (copy_phase(phase), SaveSyncAction::Ignore),
    }
}

// ---------------------------------------------------------------------------
// What the machine promises
// ---------------------------------------------------------------------------

/// A phase that a dry run can be in: no upload, report or download is
/// waited for.
pub open spec fn read_only_phase(p: SaveSyncPhase) -> bool {
    !(p is AwaitingUpload || p is AwaitingRetryUpload || p is AwaitingConflictReport
        || p is AwaitingDownload)
}

/// An action that changes something: an upload, a download or a conflict
/// report.
pub open spec fn writes(act: SaveSyncAction) -> bool {
    act is Upload || act is Download || act is ReportConflict
}

/// A dry run only reads: from a phase a dry run can be in, no step uploads,
/// downloads or reports, and the next phase is again one a dry run can be in.
pub proof fn law_dry_run_only_reads(
    ctx: SaveSyncContext,
    phase: SaveSyncPhase,
    ev: SaveSyncEvent,
    next: SaveSyncPhase,
    act: SaveSyncAction,
)
    requires
        ctx.dry_run,
        read_only_phase(phase),
        save_sync_step(ctx, phase, ev, next, act),
    ensures
        read_only_phase(next),
        !writes(act),
{
}

/// A save whose cloud copy has the same hash is in sync: without a forced
/// upload, the cloud's answer that it holds a save with the local hash ends
/// the save as in sync, with nothing uploaded or downloaded.
pub proof fn law_equal_hash_is_in_sync(
    ctx: SaveSyncContext,
    latest: LatestSaveResponse,
    next: SaveSyncPhase,
    act: SaveSyncAction,
)
    requires
        !ctx.force_upload,
        latest.exists,
        latest.sha256 is Some,
        latest.sha256->0@ == ctx.local_sha256@,
        save_sync_step(ctx, SaveSyncPhase::AwaitingLatest, SaveSyncEvent::Latest(latest), next, act),
    ensures
        next is Finished,
        act == SaveSyncAction::Finish(SaveSyncOutcome::InSync { version: latest.version }),
{
}

/// A save the cloud does not have is uploaded (outside a dry run).
pub proof fn law_missing_cloud_save_is_uploaded(
    ctx: SaveSyncContext,
    latest: LatestSaveResponse,
    next: SaveSyncPhase,
    act: SaveSyncAction,
)
    requires
        !ctx.dry_run,
        !latest.exists,
        save_sync_step(ctx, SaveSyncPhase::AwaitingLatest, SaveSyncEvent::Latest(latest), next, act),
    ensures
        uploads(act, ctx.upload_filename@),
{
}

/// A forced upload uploads the local save whatever the cloud holds (outside
/// a dry run).
pub proof fn law_forced_upload_uploads(
    ctx: SaveSyncContext,
    latest: LatestSaveResponse,
    next: SaveSyncPhase,
    act: SaveSyncAction,
)
    requires
        !ctx.dry_run,
        ctx.force_upload,
        save_sync_step(ctx, SaveSyncPhase::AwaitingLatest, SaveSyncEvent::Latest(latest), next, act),
    ensures
        uploads(act, ctx.upload_filename@),
{
}

/// A finished save stays finished: every event after the end is ignored.
pub proof fn law_finished_is_final(
    ctx: SaveSyncContext,
    ev: SaveSyncEvent,
    next: SaveSyncPhase,
    act: SaveSyncAction,
)
    requires
        save_sync_step(ctx, SaveSyncPhase::Finished, ev, next, act),
    ensures
        next is Finished,
        act is Ignore,
{
}

// ---------------------------------------------------------------------------
// Counting outcomes
// ---------------------------------------------------------------------------

pub open spec fn counts_below_max(r: SyncReport) -> bool {
    &&& r.uploaded < usize::MAX
    &&& r.downloaded < usize::MAX
    &&& r.in_sync < usize::MAX
    &&& r.conflicts < usize::MAX
    &&& r.skipped < usize::MAX
}

/// The report with one more save counted under its outcome.
pub open spec fn counted(r: SyncReport, o: SaveSyncOutcome) -> SyncReport {
    match o {
        SaveSyncOutcome::Uploaded { .. } => SyncReport { uploaded: (r.uploaded + 1) as usize, ..r },
        SaveSyncOutcome::InSync { .. } => SyncReport { in_sync: (r.in_sync + 1) as usize, ..r },
        SaveSyncOutcome::Conflict { .. } => SyncReport { conflicts: (r.conflicts + 1) as usize, ..r },
        SaveSyncOutcome::Downloaded { .. } => SyncReport { downloaded: (r.downloaded + 1) as usize, ..r },
        SaveSyncOutcome::Skipped => SyncReport { skipped: (r.skipped + 1) as usize, ..r },
    }
}

/// Counts one save under its outcome.
pub fn count_outcome(report: &mut SyncReport, outcome: &SaveSyncOutcome)
    requires
        counts_below_max(*old(report)),
    ensures
        *final(report) == counted(*old(report), *outcome),
{
    match outcome {
        SaveSyncOutcome::Uploaded { .. } => {
            report.uploaded = report.uploaded + 1;
        },
        SaveSyncOutcome::InSync { .. } => {
            report.in_sync = report.in_sync + 1;
        },
        SaveSyncOutcome::Conflict { .. } => {
            report.conflicts = report.conflicts + 1;
        },
        SaveSyncOutcome::Downloaded { .. } => {
            report.downloaded = report.downloaded + 1;
        },
        SaveSyncOutcome::Skipped => {
            report.skipped = report.skipped + 1;
        },
    }
}

/// Counts one save whose sync failed.
pub fn count_error(report: &mut SyncReport)
    requires
        old(report).errors < usize::MAX,
    ensures
        *final(report) == (SyncReport { errors: (old(report).errors + 1) as usize, ..*old(report) }),
{
    report.errors = report.errors + 1;
}

/// The cloud hash a conflict report names: the one the conflict check gave,
/// or `unknown`.
pub fn reported_cloud_sha(conflict: &ConflictCheckResponse) -> (r: String)
    ensures
        r@ == match conflict.cloud_sha256 {
            Some(s) => s@,
            None => "unknown"@,
        },
{
    match &conflict.cloud_sha256 {
        Some(s) => s.clone(),
        None => crate::text::owned("unknown"),
    }
}

// ---------------------------------------------------------------------------
// Restoring a save that is gone locally
// ---------------------------------------------------------------------------

/// What decides whether a recorded save that is gone may be restored at all:
/// the source's systems and the save's system, and what the disk shows of
/// the target's folder (see `parent_allowed`).
#[derive(Debug, Clone)]
pub struct RestoreGate {
    pub systems: Vec<String>,
    pub system_slug: String,
    pub create_missing: bool,
    pub parent_exists: bool,
    pub roots: Vec<RootFacts>,
}

/// A missing save is restored only where its source syncs its system and
/// its target folder is there (or may be created).
pub open spec fn gate_open(g: RestoreGate) -> bool {
    &&& allows_system(g.systems@.map_values(|s: String| s@), g.system_slug@)
    &&& parent_allowed(g.create_missing, g.parent_exists, g.roots@)
}

/// Whether a missing save may be restored; see `gate_open`.
pub fn restore_gate_open(g: &RestoreGate) -> (r: bool)
    ensures
        r == gate_open(*g),
{
    source_allows_system(g.systems.as_slice(), g.system_slug.as_str())
        && target_parent_allowed(g.create_missing, g.parent_exists, &g.roots)
}

/// One step of restoring a save that is recorded but gone from disk: a save
/// whose system the source does not sync, or whose folder is missing and may
/// not be created, is skipped before anything is asked; otherwise the latest
/// cloud save of its line is downloaded; a cloud without that save, or with
/// no id for it, or whose payload reference is gone, skips the save; a dry
/// run counts the download and keeps the recorded hash.
pub open spec fn restore_step(
    dry_run: bool,
    gate: RestoreGate,
    phase: SaveSyncPhase,
    ev: SaveSyncEvent,
    next: SaveSyncPhase,
    act: SaveSyncAction,
) -> bool {
    match (phase, ev) {
        (SaveSyncPhase::Start, SaveSyncEvent::Begin) => if gate_open(gate) {
            next is AwaitingLatest && act is RequestLatest
        } else {
            next is Finished && act == SaveSyncAction::Finish(SaveSyncOutcome::Skipped)
        },
        (SaveSyncPhase::AwaitingLatest, SaveSyncEvent::Latest(l)) => {
            if !l.exists || l.id is None {
                next is Finished && act == SaveSyncAction::Finish(SaveSyncOutcome::Skipped)
            } else if dry_run {
                next is Finished && act == SaveSyncAction::Finish(SaveSyncOutcome::Downloaded { version: l.version, sha256: None })
            } else {
                next == (SaveSyncPhase::AwaitingDownload { version: l.version }) && downloads(act, l.id->0@)
            }
        },
        (SaveSyncPhase::AwaitingLatest, SaveSyncEvent::LatestFailed(m)) => {
            if missing_cloud_payload(m@) {
                next is Finished && act == SaveSyncAction::Finish(SaveSyncOutcome::Skipped)
            } else {
                next is Finished && fails(act, m@)
            }
        },
        (SaveSyncPhase::AwaitingDownload { version }, SaveSyncEvent::DownloadDone { sha256 }) => next is Finished && finishes_downloaded(act, version, sha256@),
        (SaveSyncPhase::AwaitingDownload { version }, SaveSyncEvent::DownloadFailed(m)) => next is Finished && fails(act, m@),
        _ => next == phase && act is Ignore,
    }
}

/// One step of restoring a missing save; see `restore_step`.
pub fn next_restore_step(dry_run: bool, gate: &RestoreGate, phase: &SaveSyncPhase, event: &SaveSyncEvent) -> (r: (SaveSyncPhase, SaveSyncAction))
    ensures
        restore_step(dry_run, *gate, *phase, *event, r.0, r.1),
{
    match (phase, event) {
        (SaveSyncPhase::Start, SaveSyncEvent::Begin) => if restore_gate_open(gate) {
            (SaveSyncPhase::AwaitingLatest, SaveSyncAction::RequestLatest)
        } else {
            (SaveSyncPhase::Finished, SaveSyncAction::Finish(SaveSyncOutcome::Skipped))
        },
        (SaveSyncPhase::AwaitingLatest, SaveSyncEvent::Latest(l)) => {
            if !l.exists {
                return (SaveSyncPhase::Finished, SaveSyncAction::Finish(SaveSyncOutcome::Skipped));
            }
            match &l.id {
                None => (SaveSyncPhase::Finished, SaveSyncAction::Finish(SaveSyncOutcome::Skipped)),
                Some(id) => if dry_run {
                    (SaveSyncPhase::Finished, SaveSyncAction::Finish(SaveSyncOutcome::Downloaded { version: l.version, sha256: None }))
                } else {
                    (SaveSyncPhase::AwaitingDownload { version: l.version }, SaveSyncAction::Download { save_id: id.clone() })
                },
            }
        },
        (SaveSyncPhase::AwaitingLatest, SaveSyncEvent::LatestFailed(m)) => {
            if is_missing_cloud_payload_reference(m.as_str()) {
                (SaveSyncPhase::Finished, SaveSyncAction::Finish(SaveSyncOutcome::Skipped))
            } else {
                (SaveSyncPhase::Finished, fail_action(m))
            }
        },
        (SaveSyncPhase::AwaitingDownload { version }, SaveSyncEvent::DownloadDone { sha256 }) => (SaveSyncPhase::Finished, SaveSyncAction::Finish(SaveSyncOutcome::Downloaded { version: *version, sha256: Some(sha256.clone()) })),
        (SaveSyncPhase::AwaitingDownload { version }, SaveSyncEvent::DownloadFailed(m)) => (SaveSyncPhase::Finished, fail_action(m)),
        _ => (copy_phase(phase), SaveSyncAction::Ignore),
    }
}

/// The console sync policy holds for missing saves: where the source does
/// not sync the save's system, or its system folder is missing and may not
/// be created, the restore skips the save at its first step and asks the
/// cloud nothing, downloads nothing and writes nothing.
pub proof fn law_closed_gate_restores_nothing(
    dry_run: bool,
    gate: RestoreGate,
    ev: SaveSyncEvent,
    next: SaveSyncPhase,
    act: SaveSyncAction,
)
    requires
        !gate_open(gate),
        restore_step(dry_run, gate, SaveSyncPhase::Start, ev, next, act),
    ensures
        act == SaveSyncAction::Finish(SaveSyncOutcome::Skipped) || act is Ignore,
        next is Finished || next is Start,
        !writes(act),
{
}

/// A dry run restores nothing: no restore step downloads.
pub proof fn law_dry_restore_only_reads(
    gate: RestoreGate,
    phase: SaveSyncPhase,
    ev: SaveSyncEvent,
    next: SaveSyncPhase,
    act: SaveSyncAction,
)
    requires
        read_only_phase(phase),
        restore_step(true, gate, phase, ev, next, act),
    ensures
        read_only_phase(next),
        !writes(act),
{
}

// ---------------------------------------------------------------------------
// Recording what was synced
// ---------------------------------------------------------------------------

/// The record of a synced save, stamped with the current time.
pub fn synced_entry(
    sha256: String,
    rom_sha1: Option<String>,
    version: Option<i64>,
    system_slug: Option<&str>,
    local_container: Option<SaveContainerFormat>,
    adapter_profile: Option<SaveAdapterProfile>,
    source_kind: Option<&SourceKind>,
    source_name: Option<&str>,
    slot_name: Option<&str>,
) -> (r: SyncedEntry)
    ensures
        r.sha256 == sha256,
        r.rom_sha1 == rom_sha1,
        r.version == version,
        crate::steamdeck::api::opt_str(r.system_slug) == opt_chars(system_slug),
        r.local_container == local_container,
        r.adapter_profile == adapter_profile,
        crate::steamdeck::api::opt_str(r.source_kind) == match source_kind {
            Some(k) => Some(kind_name(*k)),
            None => None,
        },
        crate::steamdeck::api::opt_str(r.source_name) == opt_chars(source_name),
        crate::steamdeck::api::opt_str(r.slot_name) == opt_chars(slot_name),
{
    SyncedEntry {
        sha256,
        rom_sha1,
        version,
        system_slug: match system_slug {
            Some(v) => Some(v.to_string()),
            None => None,
        },
        local_container,
        adapter_profile,
        source_kind: match source_kind {
            Some(k) => Some(k.as_str().to_string()),
            None => None,
        },
        source_name: match source_name {
            Some(v) => Some(v.to_string()),
            None => None,
        },
        slot_name: match slot_name {
            Some(v) => Some(v.to_string()),
            None => None,
        },
        updated_at: now_rfc3339(),
    }
}

/// The hash recorded for an outcome: what came down for a download, else the
/// local hash; nothing for a skipped save.
pub open spec fn recorded_sha(o: SaveSyncOutcome, local_sha: Seq<char>) -> Option<Seq<char>> {
    match o {
        SaveSyncOutcome::Skipped => None,
        SaveSyncOutcome::Downloaded { sha256: Some(s), .. } => Some(s@),
        _ => Some(local_sha),
    }
}

/// The cloud version recorded for an outcome.
pub open spec fn recorded_version(o: SaveSyncOutcome) -> Option<i64> {
    match o {
        SaveSyncOutcome::Uploaded { version } => version,
        SaveSyncOutcome::InSync { version } => version,
        SaveSyncOutcome::Conflict { version } => version,
        SaveSyncOutcome::Downloaded { version, .. } => version,
        SaveSyncOutcome::Skipped => None,
    }
}

/// The record of a save after its outcome; `None` when it was skipped.
pub fn entry_for_outcome(
    outcome: &SaveSyncOutcome,
    local_sha256: &String,
    line: &String,
    system_slug: &str,
    local_container: SaveContainerFormat,
    adapter_profile: SaveAdapterProfile,
    source_kind: &SourceKind,
    source_name: &str,
    slot_name: &str,
) -> (r: Option<SyncedEntry>)
    ensures
        (r is Some) == !(outcome is Skipped),
        r matches Some(e) ==> recorded_sha(*outcome, local_sha256@) == Some(e.sha256@)
            && e.version == recorded_version(*outcome) && e.rom_sha1 == Some(*line)
            && crate::steamdeck::api::opt_str(e.system_slug) == Some(system_slug@)
            && e.local_container == Some(local_container) && e.adapter_profile == Some(adapter_profile)
            && crate::steamdeck::api::opt_str(e.source_kind) == Some(kind_name(*source_kind))
            && crate::steamdeck::api::opt_str(e.source_name) == Some(source_name@)
            && crate::steamdeck::api::opt_str(e.slot_name) == Some(slot_name@),
{
    let (sha, version): (String, Option<i64>) = match outcome {
        SaveSyncOutcome::Skipped => {
            return None;
        },
        SaveSyncOutcome::Uploaded { version } => (local_sha256.clone(), *version),
        SaveSyncOutcome::InSync { version } => (local_sha256.clone(), *version),
        SaveSyncOutcome::Conflict { version } => (local_sha256.clone(), *version),
        SaveSyncOutcome::Downloaded { version, sha256 } => match sha256 {
            Some(s) => (s.clone(), *version),
            None => (local_sha256.clone(), *version),
        },
    };
    Some(
        synced_entry(
            sha,
            Some(line.clone()),
            version,
            Some(system_slug),
            Some(local_container),
            Some(adapter_profile),
            Some(source_kind),
            Some(source_name),
            Some(slot_name),
        ),
    )
}

/// The key a save is recorded under after its outcome: the path it was
/// downloaded to for a download, else its own key.
pub fn state_key_for_outcome(outcome: &SaveSyncOutcome, save_key: &str, download_path: &str) -> (r: String)
    ensures
        r@ == if outcome is Downloaded {
            download_path@
        } else {
            save_key@
        },
{
    match outcome {
        SaveSyncOutcome::Downloaded { .. } => download_path.to_string(),
        _ => save_key.to_string(),
    }
}

/// A record of what one save's sync ended in, under the key it belongs to.
#[derive(Debug, Clone)]
pub struct ProcessedEntry {
    pub state_key: String,
    pub entry: SyncedEntry,
}

pub fn processed_entry(state_key: String, entry: SyncedEntry) -> (r: ProcessedEntry)
    ensures
        r.state_key == state_key,
        r.entry == entry,
{
    ProcessedEntry { state_key, entry }
}

/// The entries after recording a processed save that was read under
/// `save_key`: the record is stored under its key, and when that key is
/// another one, every entry under `save_key` is dropped first.
pub open spec fn recorded(
    es: Seq<(String, SyncedEntry)>,
    save_key: Seq<char>,
    p: ProcessedEntry,
) -> Seq<(String, SyncedEntry)> {
    let base = if p.state_key@ != save_key {
        es.filter(other_key(save_key))
    } else {
        es
    };
    stored(base, p.state_key, p.entry)
}

/// Records a processed save in the sync record.
pub fn record_processed(state: &mut SyncState, save_key: &str, processed: ProcessedEntry)
    ensures
        final(state).entries@ == recorded(old(state).entries@, save_key@, processed),
{
    if !str_eq(processed.state_key.as_str(), save_key) {
        state.remove(save_key);
    }
    state.insert(processed.state_key, processed.entry);
}

} // verus!

verus! {

// ---------------------------------------------------------------------------
// The line a save is synced on
// ---------------------------------------------------------------------------

/// The line of a save whose system has a line of its own: PlayStation
/// saves by system, device and slot; Dreamcast saves likewise; Wii saves by
/// title code and slot; for other systems, none (their line is their ROM's).
pub open spec fn fixed_line(slug: Seq<char>, device_type: Seq<char>, slot: Seq<char>, wii_code: Option<Seq<char>>) -> Option<Seq<char>> {
    if slug == "psx"@ || slug == "ps2"@ {
        Some(crate::mister::syncer::ps_line_key(slug, device_type, slot))
    } else if slug == "dreamcast"@ {
        Some(crate::mister::syncer::dc_line_key(slug, device_type, slot))
    } else if slug == "wii"@ {
        Some(crate::mister::syncer::wii_line(wii_code, slot))
    } else {
        None
    }
}

/// The line of a save of a system with a line of its own; see `fixed_line`.
pub fn fixed_line_key(system_slug: &str, device_type: &str, slot_name: &str, wii_title_code: Option<&str>) -> (r: Option<String>)
    ensures
        opt_chars_of(r) == fixed_line(system_slug@, device_type@, slot_name@, opt_chars(wii_title_code)),
{
    if str_eq(system_slug, "psx") || str_eq(system_slug, "ps2") {
        Some(crate::mister::syncer::playstation_line_key(system_slug, device_type, slot_name))
    } else if str_eq(system_slug, "dreamcast") {
        Some(crate::mister::syncer::dreamcast_line_key(system_slug, device_type, slot_name))
    } else if str_eq(system_slug, "wii") {
        Some(crate::mister::syncer::wii_line_key(wii_title_code, slot_name))
    } else {
        None
    }
}

pub open spec fn opt_chars_of(o: Option<String>) -> Option<Seq<char>> {
    match o {
        Some(s) => Some(s@),
        None => None,
    }
}

/// The ROM hashes a backend lookup gives: its ROM's SHA-1 and MD5, each
/// where it has one; none where the lookup failed or found no ROM.
pub open spec fn lookup_hashes(lookup: Option<crate::steamdeck::api::LookupRomResponse>) -> (Option<String>, Option<String>) {
    match lookup {
        Some(l) => match l.rom {
            Some(r) => (r.sha1, r.md5),
            None => (None, None),
        },
        None => (None, None),
    }
}

/// The ROM hashes of a backend lookup; see `lookup_hashes`.
pub fn line_from_lookup(lookup: &Option<crate::steamdeck::api::LookupRomResponse>) -> (r: (Option<String>, Option<String>))
    ensures
        r == lookup_hashes(*lookup),
{
    match lookup {
        Some(l) => match &l.rom {
            Some(rom) => (rom.sha1.clone(), rom.md5.clone()),
            None => (None, None),
        },
        None => (None, None),
    }
}

/// The line and ROM MD5 a save is synced on, once its fixed line and the
/// backend lookup are known: the fixed line; else the lookup's SHA-1 with
/// its MD5; else the local ROM's hashes, where there is a local ROM; else
/// none, and the save is skipped. `local` is asked for only when needed.
pub open spec fn chosen_line(fixed: Option<String>, lookup: (Option<String>, Option<String>), local: Option<(String, String)>) -> Option<(String, Option<String>)> {
    match fixed {
        Some(f) => Some((f, None)),
        None => match lookup.0 {
            Some(s) => Some((s, lookup.1)),
            None => match local {
                Some((s, m)) => Some((s, Some(m))),
                None => None,
            },
        },
    }
}

/// Whether the local ROM's hashes are needed: only where there is no fixed
/// line and the lookup gave no SHA-1.
pub fn needs_local_rom_hashes(fixed: &Option<String>, lookup: &(Option<String>, Option<String>)) -> (r: bool)
    ensures
        r == (fixed is None && lookup.0 is None),
{
    fixed.is_none() && lookup.0.is_none()
}

/// The line and ROM MD5 of a save; see `chosen_line`.
pub fn choose_line(fixed: Option<String>, lookup: (Option<String>, Option<String>), local: Option<(String, String)>) -> (r: Option<(String, Option<String>)>)
    ensures
        r == chosen_line(fixed, lookup, local),
{
    match fixed {
        Some(f) => Some((f, None)),
        None => match lookup.0 {
            Some(s) => Some((s, lookup.1)),
            None => match local {
                Some((s, m)) => Some((s, Some(m))),
                None => None,
            },
        },
    }
}


/// Whether a recorded entry names the source by its kind and name.
pub open spec fn entry_linked(entry: SyncedEntry, kind: Seq<char>, name: Seq<char>) -> bool {
    &&& entry.source_kind matches Some(k) && k@ == kind
    &&& entry.source_name matches Some(n) && n@ == name
}

/// Whether a recorded save has gone missing for a source and is handed to
/// the restore (which then applies the source's system policy, see
/// `restore_step`): its file no longer exists, and it lies under one of the
/// source's save roots (whole `/`-separated components, see
/// `relative_under`) or was recorded for this source.
pub open spec fn entry_missing(path: Seq<char>, exists: bool, entry: SyncedEntry, source: ResolvedSource) -> bool {
    &&& !exists
    &&& (exists|i: int| 0 <= i < source.save_roots@.len() && relative_under(#[trigger] source.save_roots@[i]@, path) is Some)
        || entry_linked(entry, kind_name(source.kind), source.name@)
}

/// Whether the state entry for `path` is handed to the restore for `source`;
/// see `entry_missing`. `exists` says whether the file is on disk.
pub fn is_missing_entry(path: &str, exists: bool, entry: &SyncedEntry, source: &ResolvedSource) -> (r: bool)
    ensures
        r == entry_missing(path@, exists, *entry, *source),
{
    if exists {
        return false;
    }
    let linked = match &entry.source_kind {
        Some(k) => match &entry.source_name {
            Some(n) => str_eq(k.as_str(), source.kind.as_str()) && str_eq(n.as_str(), source.name.as_str()),
            None => false,
        },
        None => false,
    };
    assert(linked == entry_linked(*entry, kind_name(source.kind), source.name@));
    if linked {
        return true;
    }
    let mut i: usize = 0;
    while i < source.save_roots.len()
        invariant
            i <= source.save_roots@.len(),
            !exists,
            !linked,
            !entry_linked(*entry, kind_name(source.kind), source.name@),
            forall|j: int| 0 <= j < i ==> relative_under(#[trigger] source.save_roots@[j]@, path@) is None,
        decreases source.save_roots@.len() - i,
    {
        if relative_path_under(source.save_roots[i].as_str(), path).is_some() {
            assert(relative_under(source.save_roots@[i as int]@, path@) is Some);
            return true;
        }
        i = i + 1;
    }
    false
}


/// A conflict is reported, never overwritten: outside a dry run, when the
/// conflict check finds that both the local and the cloud save changed, the
/// next step reports the conflict and neither downloads nor uploads; a dry
/// run counts the conflict.
pub proof fn law_conflict_is_reported(
    ctx: SaveSyncContext,
    version: Option<i64>,
    id: Option<String>,
    next: SaveSyncPhase,
    act: SaveSyncAction,
)
    requires
        save_sync_step(ctx, SaveSyncPhase::AwaitingConflictCheck { version, id }, SaveSyncEvent::ConflictCheck { exists: true }, next, act),
    ensures
        !ctx.dry_run ==> next == (SaveSyncPhase::AwaitingConflictReport { version }) && act is ReportConflict,
        ctx.dry_run ==> act == SaveSyncAction::Finish(SaveSyncOutcome::Conflict { version }),
        !(act is Download),
        !(act is Upload),
{
}

/// A download happens only where the conflict check found no conflict: any
/// step that downloads answers a conflict check that found none, and
/// downloads the save the latest cloud answer named.
pub proof fn law_download_only_without_conflict(
    ctx: SaveSyncContext,
    phase: SaveSyncPhase,
    ev: SaveSyncEvent,
    next: SaveSyncPhase,
    act: SaveSyncAction,
)
    requires
        save_sync_step(ctx, phase, ev, next, act),
        act is Download,
    ensures
        ev == (SaveSyncEvent::ConflictCheck { exists: false }),
        phase matches SaveSyncPhase::AwaitingConflictCheck { id: Some(i), .. } && downloads(act, i@),
        !ctx.dry_run,
{
}

} // verus!

//! The decisions of syncing one Windows save with the cloud. The helper looks
//! the save's ROM up, then runs the machine below: it asks the backend what
//! the machine says, hands back the answer, and records the outcome.
use vstd::prelude::*;
use crate::mister::flow::{
    SaveSyncAction, SaveSyncEvent, SaveSyncOutcome, SaveSyncPhase, copy_phase, downloads, fail_action,
    fails, finishes_downloaded, read_only_phase, same_sha, uploads, writes,
};
use crate::mister::state::{SyncedEntry, now_rfc3339};
use crate::steamdeck::api::LookupRomResponse;

pub use crate::mister::syncer::SyncReport;

verus! {

/// How a sync run treats the saves it finds.
#[derive(Debug, Clone)]
pub struct SyncOptions {
    pub force_upload: bool,
    pub dry_run: bool,
    pub slot_name: String,
}

/// What stays fixed while one save is synced: the name it is uploaded under,
/// the run's options and the hash of the local file.
#[derive(Debug, Clone)]
pub struct WindowsSaveContext {
    pub upload_filename: String,
    pub force_upload: bool,
    pub dry_run: bool,
    pub local_sha256: String,
}

/// The line a save is synced on: the SHA-1 of the ROM the backend matched
/// it to. `None` (the save is skipped) where the backend found no ROM, or
/// knows no SHA-1 for the one it found.
pub open spec fn line_of(lookup: LookupRomResponse) -> Option<String> {
    match lookup.rom {
        Some(rom) => rom.sha1,
        None => None,
    }
}

pub fn rom_line(lookup: &LookupRomResponse) -> (r: Option<String>)
    ensures
        r == line_of(*lookup),
{
    match &lookup.rom {
        Some(rom) => match &rom.sha1 {
            Some(s) => Some(s.clone()),
            None => None,
        },
        None => None,
    }
}

/// The upload step: in a dry run the save counts as uploaded with the given
/// version; otherwise the local file is uploaded and the upload awaited.
pub open spec fn upload_step(
    ctx: WindowsSaveContext,
    dry_version: Option<i64>,
    version: Option<i64>,
    next: SaveSyncPhase,
    act: SaveSyncAction,
) -> bool {
    if ctx.dry_run {
        next is Finished && act == SaveSyncAction::Finish(SaveSyncOutcome::Uploaded { version: dry_version })
    } else {
        next == (SaveSyncPhase::AwaitingUpload { version, fallback: false }) && uploads(act, ctx.upload_filename@)
    }
}

/// One step of syncing a Windows save. A cloud without the save gets it
/// uploaded; a cloud copy with the local hash is in sync, forced upload or
/// not; otherwise a forced upload uploads, and else a conflict check decides
/// between reporting a conflict and downloading the cloud copy. Every failed
/// request ends the save with that failure.
pub open spec fn windows_sync_step(
    ctx: WindowsSaveContext,
    phase: SaveSyncPhase,
    ev: SaveSyncEvent,
    next: SaveSyncPhase,
    act: SaveSyncAction,
) -> bool {
    match (phase, ev) {
        (SaveSyncPhase::Start, SaveSyncEvent::Begin) => next is AwaitingLatest && act is RequestLatest,
        (SaveSyncPhase::AwaitingLatest, SaveSyncEvent::Latest(l)) => {
            if !l.exists {
                upload_step(ctx, None, l.version, next, act)
            } else if l.sha256 is Some && l.sha256->0@ == ctx.local_sha256@ {
                next is Finished && act == SaveSyncAction::Finish(SaveSyncOutcome::InSync { version: l.version })
            } else if ctx.force_upload {
                upload_step(ctx, l.version, l.version, next, act)
            } else {
                next == (SaveSyncPhase::AwaitingConflictCheck { version: l.version, id: l.id }) && act is RequestConflictCheck
            }
        },
        (SaveSyncPhase::AwaitingConflictCheck { version, id }, SaveSyncEvent::ConflictCheck { exists }) => {
            if exists {
                if ctx.dry_run {
                    next is Finished && act == SaveSyncAction::Finish(SaveSyncOutcome::Conflict { version })
                } else {
                    next == (SaveSyncPhase::AwaitingConflictReport { version }) && act is ReportConflict
                }
            } else {
                match id {
                    Some(i) => if ctx.dry_run {
                        next is Finished && act == SaveSyncAction::Finish(SaveSyncOutcome::Downloaded { version, sha256: None })
                    } else {
                        next == (SaveSyncPhase::AwaitingDownload { version }) && downloads(act, i@)
                    },
                    None => next is Finished && act == SaveSyncAction::Finish(SaveSyncOutcome::Skipped),
                }
            }
        },
        (SaveSyncPhase::AwaitingConflictReport { version }, SaveSyncEvent::ConflictReportDone) => next is Finished && act == SaveSyncAction::Finish(SaveSyncOutcome::Conflict { version }),
        (SaveSyncPhase::AwaitingDownload { version }, SaveSyncEvent::DownloadDone { sha256 }) => next is Finished && finishes_downloaded(act, version, sha256@),
        (SaveSyncPhase::AwaitingUpload { version, fallback }, SaveSyncEvent::UploadDone) => next is Finished && act == SaveSyncAction::Finish(SaveSyncOutcome::Uploaded { version }),
        (SaveSyncPhase::AwaitingLatest, SaveSyncEvent::LatestFailed(m)) => next is Finished && fails(act, m@),
        (SaveSyncPhase::AwaitingConflictCheck { .. }, SaveSyncEvent::ConflictCheckFailed(m)) => next is Finished && fails(act, m@),
        (SaveSyncPhase::AwaitingConflictReport { .. }, SaveSyncEvent::ConflictReportFailed(m)) => next is Finished && fails(act, m@),
        (SaveSyncPhase::AwaitingDownload { .. }, SaveSyncEvent::DownloadFailed(m)) => next is Finished && fails(act, m@),
        (SaveSyncPhase::AwaitingUpload { .. }, SaveSyncEvent::UploadFailed(m)) => next is Finished && fails(act, m@),
        _ => next == phase && act is Ignore,
    }
}

fn upload(ctx: &WindowsSaveContext, dry_version: Option<i64>, version: Option<i64>) -> (r: (SaveSyncPhase, SaveSyncAction))
    ensures
        upload_step(*ctx, dry_version, version, r.0, r.1),
{
    if ctx.dry_run {
        (SaveSyncPhase::Finished, SaveSyncAction::Finish(SaveSyncOutcome::Uploaded { version: dry_version }))
    } else {
        (SaveSyncPhase::AwaitingUpload { version, fallback: false }, SaveSyncAction::Upload { filename: ctx.upload_filename.clone() })
    }
}

/// One step of syncing a Windows save; see `windows_sync_step`.
#[verifier::rlimit(30)]
pub fn next_windows_sync_step(ctx: &WindowsSaveContext, phase: &SaveSyncPhase, event: &SaveSyncEvent) -> (r: (SaveSyncPhase, SaveSyncAction))
    ensures
        windows_sync_step(*ctx, *phase, *event, r.0, r.1),
{
    match (phase, event) {
        (SaveSyncPhase::Start, SaveSyncEvent::Begin) => (SaveSyncPhase::AwaitingLatest, SaveSyncAction::RequestLatest),
        (SaveSyncPhase::AwaitingLatest, SaveSyncEvent::Latest(l)) => {
            if !l.exists {
                upload(ctx, None, l.version)
            } else if same_sha(&l.sha256, &ctx.local_sha256) {
                (SaveSyncPhase::Finished, SaveSyncAction::Finish(SaveSyncOutcome::InSync { version: l.version }))
            } else if ctx.force_upload {
                upload(ctx, l.version, l.version)
            } else {
                (SaveSyncPhase::AwaitingConflictCheck { version: l.version, id: l.id.clone() }, SaveSyncAction::RequestConflictCheck)
            }
        },
        (SaveSyncPhase::AwaitingConflictCheck { version, id }, SaveSyncEvent::ConflictCheck { exists }) => {
            if *exists {
                if ctx.dry_run {
                    (SaveSyncPhase::Finished, SaveSyncAction::Finish(SaveSyncOutcome::Conflict { version: *version }))
                } else {
                    (SaveSyncPhase::AwaitingConflictReport { version: *version }, SaveSyncAction::ReportConflict)
                }
            } else {
                match id {
                    Some(i) => if ctx.dry_run {
                        (SaveSyncPhase::Finished, SaveSyncAction::Finish(SaveSyncOutcome::Downloaded { version: *version, sha256: None }))
                    } else {
                        (SaveSyncPhase::AwaitingDownload { version: *version }, SaveSyncAction::Download { save_id: i.clone() })
                    },
                    None => (SaveSyncPhase::Finished, SaveSyncAction::Finish(SaveSyncOutcome::Skipped)),
                }
            }
        },
        (SaveSyncPhase::AwaitingConflictReport { version }, SaveSyncEvent::ConflictReportDone) => (SaveSyncPhase::Finished, SaveSyncAction::Finish(SaveSyncOutcome::Conflict { version: *version })),
        (SaveSyncPhase::AwaitingDownload { version }, SaveSyncEvent::DownloadDone { sha256 }) => (SaveSyncPhase::Finished, SaveSyncAction::Finish(SaveSyncOutcome::Downloaded { version: *version, sha256: Some(sha256.clone()) })),
        (SaveSyncPhase::AwaitingUpload { version, fallback }, SaveSyncEvent::UploadDone) => (SaveSyncPhase::Finished, SaveSyncAction::Finish(SaveSyncOutcome::Uploaded { version: *version })),
        (SaveSyncPhase::AwaitingLatest, SaveSyncEvent::LatestFailed(m)) => (SaveSyncPhase::Finished, fail_action(m)),
        (SaveSyncPhase::AwaitingConflictCheck { .. }, SaveSyncEvent::ConflictCheckFailed(m)) => (SaveSyncPhase::Finished, fail_action(m)),
        (SaveSyncPhase::AwaitingConflictReport { .. }, SaveSyncEvent::ConflictReportFailed(m)) => (SaveSyncPhase::Finished, fail_action(m)),
        (SaveSyncPhase::AwaitingDownload { .. }, SaveSyncEvent::DownloadFailed(m)) => (SaveSyncPhase::Finished, fail_action(m)),
        (SaveSyncPhase::AwaitingUpload { .. }, SaveSyncEvent::UploadFailed(m)) => (SaveSyncPhase::Finished, fail_action(m)),
        _ => (copy_phase(phase), SaveSyncAction::Ignore),
    }
}

/// The record of a synced Windows save, stamped with the current time; it
/// says nothing of systems, containers or sources.
pub fn windows_synced_entry(sha256: String, rom_sha1: Option<String>, version: Option<i64>) -> (r: SyncedEntry)
    ensures
        r.sha256 == sha256,
        r.rom_sha1 == rom_sha1,
        r.version == version,
        r.system_slug is None,
        r.local_container is None,
        r.adapter_profile is None,
        r.source_kind is None,
        r.source_name is None,
        r.slot_name is None,
{
    SyncedEntry {
        sha256,
        rom_sha1,
        version,
        system_slug: None,
        local_container: None,
        adapter_profile: None,
        source_kind: None,
        source_name: None,
        slot_name: None,
        updated_at: now_rfc3339(),
    }
}

// ---------------------------------------------------------------------------
// What the machine promises
// ---------------------------------------------------------------------------

/// A Windows dry run only reads: from a phase a dry run can be in, no step
/// uploads, downloads or reports, and the next phase is again one a dry run
/// can be in.
pub proof fn law_windows_dry_run_only_reads(
    ctx: WindowsSaveContext,
    phase: SaveSyncPhase,
    ev: SaveSyncEvent,
    next: SaveSyncPhase,
    act: SaveSyncAction,
)
    requires
        ctx.dry_run,
        read_only_phase(phase),
        windows_sync_step(ctx, phase, ev, next, act),
    ensures
        read_only_phase(next),
        !writes(act),
{
}

/// On Windows a cloud copy with the local hash is in sync even when the
/// upload is forced: nothing is uploaded or downloaded.
pub proof fn law_windows_equal_hash_is_in_sync(
    ctx: WindowsSaveContext,
    latest: crate::steamdeck::api::LatestSaveResponse,
    next: SaveSyncPhase,
    act: SaveSyncAction,
)
    requires
        latest.exists,
        latest.sha256 is Some,
        latest.sha256->0@ == ctx.local_sha256@,
        windows_sync_step(ctx, SaveSyncPhase::AwaitingLatest, SaveSyncEvent::Latest(latest), next, act),
    ensures
        next is Finished,
        act == SaveSyncAction::Finish(SaveSyncOutcome::InSync { version: latest.version }),
{
}

/// A save the cloud does not have, or one whose cloud copy differs while the
/// upload is forced, is uploaded (outside a dry run).
pub proof fn law_windows_upload_when_missing_or_forced(
    ctx: WindowsSaveContext,
    latest: crate::steamdeck::api::LatestSaveResponse,
    next: SaveSyncPhase,
    act: SaveSyncAction,
)
    requires
        !ctx.dry_run,
        !latest.exists || (ctx.force_upload && !(latest.sha256 is Some && latest.sha256->0@ == ctx.local_sha256@)),
        windows_sync_step(ctx, SaveSyncPhase::AwaitingLatest, SaveSyncEvent::Latest(latest), next, act),
    ensures
        uploads(act, ctx.upload_filename@),
{
}

/// A finished Windows save stays finished: every later event is ignored.
pub proof fn law_windows_finished_is_final(
    ctx: WindowsSaveContext,
    ev: SaveSyncEvent,
    next: SaveSyncPhase,
    act: SaveSyncAction,
)
    requires
        windows_sync_step(ctx, SaveSyncPhase::Finished, ev, next, act),
    ensures
        next is Finished,
        act is Ignore,
{
}


/// A conflict is reported, never overwritten: outside a dry run, when the
/// conflict check finds that both the local and the cloud save changed, the
/// next step reports the conflict and neither downloads nor uploads; a dry
/// run counts the conflict.
pub proof fn law_windows_conflict_is_reported(
    ctx: WindowsSaveContext,
    version: Option<i64>,
    id: Option<String>,
    next: SaveSyncPhase,
    act: SaveSyncAction,
)
    requires
        windows_sync_step(ctx, SaveSyncPhase::AwaitingConflictCheck { version, id }, SaveSyncEvent::ConflictCheck { exists: true }, next, act),
    ensures
        !ctx.dry_run ==> next == (SaveSyncPhase::AwaitingConflictReport { version }) && act is ReportConflict,
        ctx.dry_run ==> act == SaveSyncAction::Finish(SaveSyncOutcome::Conflict { version }),
        !(act is Download),
        !(act is Upload),
{
}

/// A download happens only where the conflict check found no conflict: any
/// step that downloads answers a conflict check that found none, and
/// downloads the save the latest cloud answer named.
pub proof fn law_windows_download_only_without_conflict(
    ctx: WindowsSaveContext,
    phase: SaveSyncPhase,
    ev: SaveSyncEvent,
    next: SaveSyncPhase,
    act: SaveSyncAction,
)
    requires
        windows_sync_step(ctx, phase, ev, next, act),
        act is Download,
    ensures
        ev == (SaveSyncEvent::ConflictCheck { exists: false }),
        phase matches SaveSyncPhase::AwaitingConflictCheck { id: Some(i), .. } && downloads(act, i@),
        !ctx.dry_run,
{
}

} // verus!

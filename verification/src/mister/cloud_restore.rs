//! Restoring a save that is only in the cloud: whether the target may be
//! written (a missing system folder only where the source may create it),
//! and the steps between the checks on disk and the download.
use vstd::prelude::*;
use crate::mister::sources::{EmulatorProfile, SourceKind};
use crate::mister::syncer::{is_playstation_projection_unavailable, playstation_projection_unavailable, preferred_path, preferred_save_path};
use crate::steamdeck::api::RuntimeTarget;
use crate::steamdeck::scanner::{SaveContainerFormat, classification, classify_supported_save};
use crate::text::str_eq;

verus! {

// ---------------------------------------------------------------------------
// Where a restore may write
// ---------------------------------------------------------------------------

/// What the disk shows of one save root for a target: whether the root
/// exists; where the target lies under it (`None`: not under it;
/// `Some(None)`: directly in it; `Some(Some(f))`: under its folder `f`, see
/// `first_folder_under`); and whether that folder is a directory.
#[derive(Debug, Clone)]
pub struct RootFacts {
    pub exists: bool,
    pub under: Option<Option<String>>,
    pub folder_is_dir: bool,
}

/// A root lets the target be written when it exists and the target lies
/// directly in it or in one of its existing folders.
pub open spec fn root_allows(f: RootFacts) -> bool {
    f.exists && match f.under {
        None => false,
        Some(None) => true,
        Some(Some(_)) => f.folder_is_dir,
    }
}

/// A target may be written when the source may create missing system
/// folders, when its folder already exists, or when some save root lets it
/// be written.
pub open spec fn parent_allowed(create_missing: bool, parent_exists: bool, roots: Seq<RootFacts>) -> bool {
    create_missing || parent_exists || exists|i: int| 0 <= i < roots.len() && root_allows(#[trigger] roots[i])
}

/// Whether a restore may write its target; see `parent_allowed`.
pub fn target_parent_allowed(create_missing: bool, parent_exists: bool, roots: &Vec<RootFacts>) -> (r: bool)
    ensures
        r == parent_allowed(create_missing, parent_exists, roots@),
{
    if create_missing || parent_exists {
        return true;
    }
    let mut i: usize = 0;
    while i < roots.len()
        invariant
            0 <= i <= roots@.len(),
            forall|k: int| 0 <= k < i ==> !root_allows(#[trigger] roots@[k]),
        decreases roots@.len() - i,
    {
        let f = &roots[i];
        let ok = f.exists && match &f.under {
            None => false,
            Some(None) => true,
            Some(Some(_)) => f.folder_is_dir,
        };
        if ok {
            assert(root_allows(roots@[i as int]));
            return true;
        }
        i = i + 1;
    }
    false
}

/// A save already on disk counts as the restored save when it is read and
/// classified as a save of the system.
pub open spec fn valid_local_save(path: Seq<char>, bytes: Option<Seq<u8>>, slug: Seq<char>) -> bool {
    match bytes {
        Some(b) => match classification(path, None, b) {
            Some((s, _)) => s == slug,
            None => false,
        },
        None => false,
    }
}

/// Whether the file at `path`, read as `bytes` where it exists, is a valid
/// save of the system.
pub fn existing_local_save_is_valid(path: &str, bytes: Option<&[u8]>, system_slug: &str) -> (r: bool)
    ensures
        r == valid_local_save(
            path@,
            match bytes {
                Some(b) => Some(b@),
                None => None,
            },
            system_slug@,
        ),
{
    match bytes {
        Some(b) => match classify_supported_save(path, None, b) {
            Some(c) => str_eq(c.system_slug.as_str(), system_slug),
            None => false,
        },
        None => false,
    }
}

/// The runtime profile a restore asks the backend for: the target's
/// per-system value, else its runtime profile.
pub fn restore_runtime_profile(target: &RuntimeTarget) -> (r: Option<String>)
    ensures
        r == match target.system_profile_value {
            Some(v) => Some(v),
            None => target.runtime_profile,
        },
{
    match &target.system_profile_value {
        Some(v) => Some(v.clone()),
        None => match &target.runtime_profile {
            Some(v) => Some(v.clone()),
            None => None,
        },
    }
}

// ---------------------------------------------------------------------------
// The steps of one restore
// ---------------------------------------------------------------------------

/// What stays fixed while one cloud save is restored: its system, the
/// target first proposed and its native form, the source's kind and
/// profile, whether this is a dry run, and the targets already restored in
/// this run.
#[derive(Debug, Clone)]
pub struct CloudRestoreContext {
    pub system_slug: String,
    pub provisional_path: String,
    pub native_path: String,
    pub source_kind: SourceKind,
    pub source_profile: EmulatorProfile,
    pub dry_run: bool,
    pub restored: Vec<String>,
}

/// Where a restore stands.
#[derive(Debug, Clone)]
pub enum CloudRestorePhase {
    Start,
    AwaitingProvisional,
    AwaitingNative { provisional_allowed: bool },
    AwaitingDownload,
    AwaitingFinal { target: String, container: SaveContainerFormat },
    AwaitingWrite { target: String, container: SaveContainerFormat },
    Finished,
}

/// What the helper reports: the start, what the disk shows of a target
/// (whether a valid save of the system is there, whether it may be
/// written), the download (with the container its bytes go into and their
/// size), or a failure as its message.
#[derive(Debug, Clone)]
pub enum CloudRestoreEvent {
    Begin,
    Target { valid_save: bool, parent_allowed: bool },
    Downloaded { container: SaveContainerFormat, size: u64 },
    DownloadFailed(String),
    Written,
    WriteFailed(String),
}

/// How a restore ended: a valid save was already there, or the target was
/// restored already (nothing is counted); the save is skipped; a dry run
/// would download it; or it was written to `target` in `container`.
#[derive(Debug, Clone)]
pub enum CloudRestoreOutcome {
    AlreadyPresent,
    Skipped,
    WouldDownload,
    Restored { target: String, container: SaveContainerFormat },
}

/// What the helper is to do next.
#[derive(Debug, Clone)]
pub enum CloudRestoreAction {
    Inspect { path: String },
    Download,
    Write { target: String, container: SaveContainerFormat },
    Finish(CloudRestoreOutcome),
    Fail(String),
    Ignore,
}

pub open spec fn seq_has(v: Seq<String>, p: Seq<char>) -> bool {
    exists|i: int| 0 <= i < v.len() && (#[trigger] v[i])@ == p
}

pub open spec fn inspects(a: CloudRestoreAction, p: Seq<char>) -> bool {
    a matches CloudRestoreAction::Inspect { path } && path@ == p
}

pub open spec fn finishes(a: CloudRestoreAction, o: CloudRestoreOutcome) -> bool {
    a matches CloudRestoreAction::Finish(x) && x == o
}

/// The step after the first proposed target is known to hold no valid save
/// and the native target either is the same or holds none: skipped when the
/// target may not be written; already done when either was restored in this
/// run; a dry run counts a download; else the download.
pub open spec fn after_targets(ctx: CloudRestoreContext, allowed: bool, next: CloudRestorePhase, act: CloudRestoreAction) -> bool {
    if !allowed {
        next is Finished && finishes(act, CloudRestoreOutcome::Skipped)
    } else if seq_has(ctx.restored@, ctx.provisional_path@) || seq_has(ctx.restored@, ctx.native_path@) {
        next is Finished && finishes(act, CloudRestoreOutcome::AlreadyPresent)
    } else if ctx.dry_run {
        next is Finished && finishes(act, CloudRestoreOutcome::WouldDownload)
    } else {
        next is AwaitingDownload && act is Download
    }
}

/// The final target of a download: the preferred path of the first
/// proposed target for the container the bytes go into and their size.
pub open spec fn final_target(ctx: CloudRestoreContext, container: SaveContainerFormat, size: u64) -> Seq<char> {
    preferred_path(ctx.provisional_path@, ctx.source_profile, Some(ctx.system_slug@), container, Some(size))
}

/// One step of a restore. The first proposed target is inspected: a valid
/// save there ends the restore. Where the native target differs it is
/// inspected too, and a valid save there ends the restore. Then see
/// `after_targets`. A download that fails because the backend has no
/// PlayStation projection skips the save; another failure fails. A
/// download's final target is inspected: a valid save there ends the
/// restore, a target that may not be written is skipped, one restored in
/// this run is done already; else it is written, and the restore ends with
/// it restored.
pub open spec fn cloud_restore_step(
    ctx: CloudRestoreContext,
    phase: CloudRestorePhase,
    ev: CloudRestoreEvent,
    next: CloudRestorePhase,
    act: CloudRestoreAction,
) -> bool {
    match (phase, ev) {
        (CloudRestorePhase::Start, CloudRestoreEvent::Begin) => next is AwaitingProvisional && inspects(act, ctx.provisional_path@),
        (CloudRestorePhase::AwaitingProvisional, CloudRestoreEvent::Target { valid_save, parent_allowed }) => if valid_save {
            next is Finished && finishes(act, CloudRestoreOutcome::AlreadyPresent)
        } else if ctx.native_path@ != ctx.provisional_path@ {
            next == (CloudRestorePhase::AwaitingNative { provisional_allowed: parent_allowed }) && inspects(act, ctx.native_path@)
        } else {
            after_targets(ctx, parent_allowed, next, act)
        },
        (CloudRestorePhase::AwaitingNative { provisional_allowed }, CloudRestoreEvent::Target { valid_save, .. }) => if valid_save {
            next is Finished && finishes(act, CloudRestoreOutcome::AlreadyPresent)
        } else {
            after_targets(ctx, provisional_allowed, next, act)
        },
        (CloudRestorePhase::AwaitingDownload, CloudRestoreEvent::DownloadFailed(m)) => next is Finished && if playstation_projection_unavailable(
            m@,
            ctx.system_slug@,
        ) {
            finishes(act, CloudRestoreOutcome::Skipped)
        } else {
            act == CloudRestoreAction::Fail(m)
        },
        (CloudRestorePhase::AwaitingDownload, CloudRestoreEvent::Downloaded { container, size }) => {
            let t = final_target(ctx, container, size);
            (next matches CloudRestorePhase::AwaitingFinal { target, container: c } && target@ == t && c == container)
                && inspects(act, t)
        },
        (CloudRestorePhase::AwaitingFinal { target, container }, CloudRestoreEvent::Target { valid_save, parent_allowed }) => if valid_save {
            next is Finished && finishes(act, CloudRestoreOutcome::AlreadyPresent)
        } else if !parent_allowed {
            next is Finished && finishes(act, CloudRestoreOutcome::Skipped)
        } else if seq_has(ctx.restored@, target@) {
            next is Finished && finishes(act, CloudRestoreOutcome::AlreadyPresent)
        } else {
            next == (CloudRestorePhase::AwaitingWrite { target, container }) && act == (CloudRestoreAction::Write {
                target,
                container,
            })
        },
        (CloudRestorePhase::AwaitingWrite { target, container }, CloudRestoreEvent::Written) => next is Finished && finishes(
            act,
            CloudRestoreOutcome::Restored { target, container },
        ),
        (CloudRestorePhase::AwaitingWrite { .. }, CloudRestoreEvent::WriteFailed(m)) => next is Finished && act == CloudRestoreAction::Fail(m),
        _ => next == phase && act is Ignore,
    }
}

fn contains_str(v: &Vec<String>, p: &str) -> (r: bool)
    ensures
        r == seq_has(v@, p@),
{
    let mut i: usize = 0;
    while i < v.len()
        invariant
            0 <= i <= v@.len(),
            forall|k: int| 0 <= k < i ==> (#[trigger] v@[k])@ != p@,
        decreases v@.len() - i,
    {
        if str_eq(v[i].as_str(), p) {
            return true;
        }
        i = i + 1;
    }
    false
}

fn continue_after_targets(ctx: &CloudRestoreContext, allowed: bool) -> (r: (CloudRestorePhase, CloudRestoreAction))
    ensures
        after_targets(*ctx, allowed, r.0, r.1),
{
    if !allowed {
        (CloudRestorePhase::Finished, CloudRestoreAction::Finish(CloudRestoreOutcome::Skipped))
    } else if contains_str(&ctx.restored, ctx.provisional_path.as_str()) || contains_str(&ctx.restored, ctx.native_path.as_str()) {
        (CloudRestorePhase::Finished, CloudRestoreAction::Finish(CloudRestoreOutcome::AlreadyPresent))
    } else if ctx.dry_run {
        (CloudRestorePhase::Finished, CloudRestoreAction::Finish(CloudRestoreOutcome::WouldDownload))
    } else {
        (CloudRestorePhase::AwaitingDownload, CloudRestoreAction::Download)
    }
}

fn copy_phase(p: &CloudRestorePhase) -> (r: CloudRestorePhase)
    ensures
        r == *p,
{
    match p {
        CloudRestorePhase::Start => CloudRestorePhase::Start,
        CloudRestorePhase::AwaitingProvisional => CloudRestorePhase::AwaitingProvisional,
        CloudRestorePhase::AwaitingNative { provisional_allowed } => CloudRestorePhase::AwaitingNative {
            provisional_allowed: *provisional_allowed,
        },
        CloudRestorePhase::AwaitingDownload => CloudRestorePhase::AwaitingDownload,
        CloudRestorePhase::AwaitingFinal { target, container } => CloudRestorePhase::AwaitingFinal {
            target: target.clone(),
            container: *container,
        },
        CloudRestorePhase::AwaitingWrite { target, container } => CloudRestorePhase::AwaitingWrite {
            target: target.clone(),
            container: *container,
        },
        CloudRestorePhase::Finished => CloudRestorePhase::Finished,
    }
}

/// One step of a restore; see `cloud_restore_step`.
pub fn next_cloud_restore_step(ctx: &CloudRestoreContext, phase: &CloudRestorePhase, event: &CloudRestoreEvent) -> (r: (
    CloudRestorePhase,
    CloudRestoreAction,
))
    ensures
        cloud_restore_step(*ctx, *phase, *event, r.0, r.1),
{
    match (phase, event) {
        (CloudRestorePhase::Start, CloudRestoreEvent::Begin) => (
            CloudRestorePhase::AwaitingProvisional,
            CloudRestoreAction::Inspect { path: ctx.provisional_path.clone() },
        ),
        (CloudRestorePhase::AwaitingProvisional, CloudRestoreEvent::Target { valid_save, parent_allowed }) => {
            if *valid_save {
                (CloudRestorePhase::Finished, CloudRestoreAction::Finish(CloudRestoreOutcome::AlreadyPresent))
            } else if !str_eq(ctx.native_path.as_str(), ctx.provisional_path.as_str()) {
                (
                    CloudRestorePhase::AwaitingNative { provisional_allowed: *parent_allowed },
                    CloudRestoreAction::Inspect { path: ctx.native_path.clone() },
                )
            } else {
                continue_after_targets(ctx, *parent_allowed)
            }
        },
        (CloudRestorePhase::AwaitingNative { provisional_allowed }, CloudRestoreEvent::Target { valid_save, .. }) => {
            if *valid_save {
                (CloudRestorePhase::Finished, CloudRestoreAction::Finish(CloudRestoreOutcome::AlreadyPresent))
            } else {
                continue_after_targets(ctx, *provisional_allowed)
            }
        },
        (CloudRestorePhase::AwaitingDownload, CloudRestoreEvent::DownloadFailed(m)) => {
            if is_playstation_projection_unavailable(m.as_str(), ctx.system_slug.as_str()) {
                (CloudRestorePhase::Finished, CloudRestoreAction::Finish(CloudRestoreOutcome::Skipped))
            } else {
                (CloudRestorePhase::Finished, CloudRestoreAction::Fail(m.clone()))
            }
        },
        (CloudRestorePhase::AwaitingDownload, CloudRestoreEvent::Downloaded { container, size }) => {
            let t = preferred_save_path(
                ctx.provisional_path.as_str(),
                &ctx.source_kind,
                &ctx.source_profile,
                Some(ctx.system_slug.as_str()),
                *container,
                Some(*size),
            );
            let path = t.clone();
            (CloudRestorePhase::AwaitingFinal { target: t, container: *container }, CloudRestoreAction::Inspect { path })
        },
        (CloudRestorePhase::AwaitingFinal { target, container }, CloudRestoreEvent::Target { valid_save, parent_allowed }) => {
            if *valid_save {
                (CloudRestorePhase::Finished, CloudRestoreAction::Finish(CloudRestoreOutcome::AlreadyPresent))
            } else if !*parent_allowed {
                (CloudRestorePhase::Finished, CloudRestoreAction::Finish(CloudRestoreOutcome::Skipped))
            } else if contains_str(&ctx.restored, target.as_str()) {
                (CloudRestorePhase::Finished, CloudRestoreAction::Finish(CloudRestoreOutcome::AlreadyPresent))
            } else {
                (
                    CloudRestorePhase::AwaitingWrite { target: target.clone(), container: *container },
                    CloudRestoreAction::Write { target: target.clone(), container: *container },
                )
            }
        },
        (CloudRestorePhase::AwaitingWrite { target, container }, CloudRestoreEvent::Written) => (
            CloudRestorePhase::Finished,
            CloudRestoreAction::Finish(CloudRestoreOutcome::Restored { target: target.clone(), container: *container }),
        ),
        (CloudRestorePhase::AwaitingWrite { .. }, CloudRestoreEvent::WriteFailed(m)) => (
            CloudRestorePhase::Finished,
            CloudRestoreAction::Fail(m.clone()),
        ),
        _ => (copy_phase(phase), CloudRestoreAction::Ignore),
    }
}

/// A restore never writes over a valid save of the system: when the first
/// proposed target holds one, the restore ends there with nothing counted.
pub proof fn law_valid_save_is_never_overwritten(
    ctx: CloudRestoreContext,
    parent_allowed: bool,
    next: CloudRestorePhase,
    act: CloudRestoreAction,
)
    requires
        cloud_restore_step(
            ctx,
            CloudRestorePhase::AwaitingProvisional,
            CloudRestoreEvent::Target { valid_save: true, parent_allowed },
            next,
            act,
        ),
    ensures
        next is Finished,
        finishes(act, CloudRestoreOutcome::AlreadyPresent),
{
}

/// A missing system folder is not created unless the source allows it: a
/// final target that may not be written is skipped, never written.
pub proof fn law_disallowed_target_is_skipped(
    ctx: CloudRestoreContext,
    target: String,
    container: SaveContainerFormat,
    next: CloudRestorePhase,
    act: CloudRestoreAction,
)
    requires
        cloud_restore_step(
            ctx,
            CloudRestorePhase::AwaitingFinal { target, container },
            CloudRestoreEvent::Target { valid_save: false, parent_allowed: false },
            next,
            act,
        ),
    ensures
        finishes(act, CloudRestoreOutcome::Skipped),
        !(act is Write),
{
}

/// A dry run downloads nothing: with no valid save at the targets, it ends
/// before any download.
pub proof fn law_dry_run_restores_nothing(
    ctx: CloudRestoreContext,
    allowed: bool,
    next: CloudRestorePhase,
    act: CloudRestoreAction,
)
    requires
        ctx.dry_run,
        after_targets(ctx, allowed, next, act),
    ensures
        next is Finished,
        !(act is Download),
{
}

} // verus!

//! The helper as a long-running service: what it does on each event (a sync
//! request from the backend, a timer, the end of a sync), how backend events
//! are read from the event stream, and how the service is installed.
use vstd::prelude::*;
use crate::mister::sources::{ResolvedSource, SourceKind};
use crate::steamdeck::scheduler::{first_job_line, without_marker};
use crate::text::{
    contains, eq_lit, insert_sorted_unique, lower, lower_vec, owned, starts_with, str_eq, strictly_sorted, trim,
    trim_str, trim_vec,
};

verus! {

/// How the service runs.
#[derive(Debug, Clone)]
pub struct ServiceRunOptions {
    pub heartbeat_interval_secs: u64,
    pub reconcile_interval_secs: u64,
    pub force_upload: bool,
    pub dry_run: bool,
    pub scan: bool,
    pub deep_scan: bool,
    pub apply_scan: bool,
    pub slot_name: String,
    pub default_source_kind: SourceKind,
    pub max_cycles: Option<u32>,
}

/// How the service is installed on this machine.
#[derive(Debug, Clone, Copy, PartialEq, Eq, Structural)]
pub enum ServiceBackend {
    LinuxSystemdUser,
    LinuxSystemdSystem,
    LinuxCron,
    WindowsTask,
}

/// Whether the service is installed, with what the system reports.
#[derive(Debug, Clone)]
pub struct ServiceStatus {
    pub installed: bool,
    pub details: String,
}

/// Why the service cannot run or be installed.
#[derive(Debug, Clone, Copy, PartialEq, Eq, Structural)]
pub enum ServiceError {
    ZeroHeartbeatInterval,
    ZeroReconcileInterval,
}

impl ServiceError {
    /// The message shown for the error.
    pub fn message(&self) -> (r: String)
        ensures
            r@ == match *self {
                ServiceError::ZeroHeartbeatInterval => "--heartbeat-interval moet >= 1 zijn"@,
                ServiceError::ZeroReconcileInterval => "--reconcile-interval moet >= 1 zijn"@,
            },
    {
        match self {
            ServiceError::ZeroHeartbeatInterval => owned("--heartbeat-interval moet >= 1 zijn"),
            ServiceError::ZeroReconcileInterval => owned("--reconcile-interval moet >= 1 zijn"),
        }
    }
}

/// Both intervals must be at least one second.
pub fn validate_service_intervals(heartbeat_interval_secs: u64, reconcile_interval_secs: u64) -> (r: Result<(), ServiceError>)
    ensures
        heartbeat_interval_secs == 0 ==> r == Err::<(), ServiceError>(ServiceError::ZeroHeartbeatInterval),
        heartbeat_interval_secs > 0 && reconcile_interval_secs == 0 ==> r == Err::<(), ServiceError>(ServiceError::ZeroReconcileInterval),
        heartbeat_interval_secs > 0 && reconcile_interval_secs > 0 ==> r is Ok,
{
    if heartbeat_interval_secs == 0 {
        return Err(ServiceError::ZeroHeartbeatInterval);
    }
    if reconcile_interval_secs == 0 {
        return Err(ServiceError::ZeroReconcileInterval);
    }
    Ok(())
}

/// The command the installed service runs.
pub fn build_service_run_command(
    binary_path: &str,
    config_path: &str,
    heartbeat_interval_secs: u64,
    reconcile_interval_secs: u64,
) -> (r: String)
    ensures
        r@ == "\""@ + binary_path@ + "\" --config \""@ + config_path@
            + "\" service run --quiet --heartbeat-interval "@ + crate::num::decimal_text(
            heartbeat_interval_secs as nat,
        ) + " --reconcile-interval "@ + crate::num::decimal_text(reconcile_interval_secs as nat),
{
    let mut c = owned("\"");
    c.append(binary_path);
    c.append("\" --config \"");
    c.append(config_path);
    c.append("\" service run --quiet --heartbeat-interval ");
    c.append(crate::num::u64_text(heartbeat_interval_secs).as_str());
    c.append(" --reconcile-interval ");
    c.append(crate::num::u64_text(reconcile_interval_secs).as_str());
    c
}

/// The marker the service's crontab entry carries.
pub fn service_marker(service_name: &str) -> (r: String)
    ensures
        r@ == "sgm-helper-service:"@ + service_name@,
{
    let mut m = owned("sgm-helper-service:");
    m.append(service_name);
    m
}

/// The name of a systemd unit for the service: the name trimmed and
/// lower-cased, every character but ASCII letters, digits and `-` made `-`,
/// no `-` at either end, then `.service`.
pub open spec fn unit_name(name: Seq<char>) -> Seq<char> {
    let mapped = lower(trim(name)).map_values(|c: char| if crate::text::is_alnum(c) || c == '-' { c } else { '-' });
    crate::text::strip_trail(crate::text::strip_lead(mapped, '-'), '-') + ".service"@
}

pub fn systemd_unit_name(service_name: &str) -> (r: String)
    ensures
        r@ == unit_name(service_name@),
{
    let l = lower_vec(trim_str(service_name).as_slice());
    let mut out: Vec<char> = Vec::new();
    let mut i: usize = 0;
    while i < l.len()
        invariant
            0 <= i <= l@.len(),
            out@ == l@.subrange(0, i as int).map_values(|c: char| if crate::text::is_alnum(c) || c == '-' { c } else { '-' }),
        decreases l@.len() - i,
    {
        let c = l[i];
        if crate::text::is_alnum_char(c) || c == '-' {
            out.push(c);
        } else {
            out.push('-');
        }
        i = i + 1;
        assert(out@ =~= l@.subrange(0, i as int).map_values(|c: char| if crate::text::is_alnum(c) || c == '-' { c } else { '-' }));
    }
    assert(l@.subrange(0, l@.len() as int) =~= l@);
    let a = crate::text::strip_lead_vec(out.as_slice(), '-');
    let b = crate::text::strip_trail_vec(a.as_slice(), '-');
    let mut s = crate::text::string_of(b.as_slice());
    s.append(".service");
    s
}

/// The target a systemd service is wanted by: `default.target` for a user
/// service, `multi-user.target` for a system one.
pub open spec fn wanted_by(backend: ServiceBackend) -> Seq<char> {
    if backend == ServiceBackend::LinuxSystemdUser {
        "default.target"@
    } else {
        "multi-user.target"@
    }
}

/// The systemd unit file of the service.
pub fn systemd_unit_text(backend: ServiceBackend, service_name: &str, working_dir: &str, command: &str) -> (r: String)
    ensures
        r@ == "[Unit]\nDescription="@ + service_name@
            + "\nAfter=network-online.target\nWants=network-online.target\n\n[Service]\nType=simple\nWorkingDirectory="@
            + working_dir@ + "\nExecStart="@ + command@ + "\nRestart=always\nRestartSec=5\n\n[Install]\nWantedBy="@
            + wanted_by(backend) + "\n"@,
{
    let mut u = owned("[Unit]\nDescription=");
    u.append(service_name);
    u.append("\nAfter=network-online.target\nWants=network-online.target\n\n[Service]\nType=simple\nWorkingDirectory=");
    u.append(working_dir);
    u.append("\nExecStart=");
    u.append(command);
    u.append("\nRestart=always\nRestartSec=5\n\n[Install]\nWantedBy=");
    if backend == ServiceBackend::LinuxSystemdUser {
        u.append("default.target");
    } else {
        u.append("multi-user.target");
    }
    u.append("\n");
    u
}

/// The crontab lines after installing the service as an `@reboot` entry, and
/// the message that reports it.
pub fn plan_service_cron_install(lines: &Vec<String>, service_name: &str, command: &str) -> (r: (Vec<String>, String))
    ensures
        ({
            let marker = "sgm-helper-service:"@ + service_name@;
            let line = "@reboot "@ + command@ + " # "@ + marker;
            r.0.deep_view() == without_marker(lines.deep_view(), marker).push(line)
                && r.1@ == "@reboot service installed: "@ + command@ + " # "@ + marker
        }),
{
    let marker = service_marker(service_name);
    let mut kept = crate::steamdeck::scheduler::lines_without(lines, marker.as_str());
    let mut line = owned("@reboot ");
    line.append(command);
    line.append(" # ");
    line.append(marker.as_str());
    let mut message = owned("@reboot service installed: ");
    message.append(command);
    message.append(" # ");
    message.append(marker.as_str());
    let ghost before = kept.deep_view();
    kept.push(line);
    assert(kept.deep_view() =~= before.push(kept@[kept@.len() - 1]@));
    (kept, message)
}

/// The status of the service's crontab entry.
pub fn service_cron_status(lines: &Vec<String>, service_name: &str, command: &str) -> (r: ServiceStatus)
    ensures
        match first_job_line(lines.deep_view(), "sgm-helper-service:"@ + service_name@, command@, 0) {
            Some(l) => r.installed && r.details@ == l,
            None => !r.installed && r.details@ == "Service cron entry niet gevonden"@,
        },
{
    let marker = service_marker(service_name);
    match crate::steamdeck::scheduler::find_job_line(lines, marker.as_str(), command) {
        Some(l) => ServiceStatus { installed: true, details: l },
        None => ServiceStatus { installed: false, details: owned("Service cron entry niet gevonden") },
    }
}

/// The crontab lines after removing the service's entry, and the message;
/// `None` when there was no entry.
pub fn plan_service_cron_uninstall(lines: &Vec<String>, service_name: &str) -> (r: (Option<Vec<String>>, String))
    ensures
        ({
            let kept = without_marker(lines.deep_view(), "sgm-helper-service:"@ + service_name@);
            if kept.len() == lines@.len() {
                r.0 is None && r.1@ == "Geen service cron entry gevonden om te verwijderen"@
            } else {
                (r.0 matches Some(v) && v.deep_view() == kept) && r.1@ == "Service cron entry verwijderd"@
            }
        }),
{
    let marker = service_marker(service_name);
    let kept = crate::steamdeck::scheduler::lines_without(lines, marker.as_str());
    if kept.len() == lines.len() {
        (None, owned("Geen service cron entry gevonden om te verwijderen"))
    } else {
        (Some(kept), owned("Service cron entry verwijderd"))
    }
}

/// What a finished command printed: its output where its error output is
/// blank, its error output where its output is blank, else both on two
/// lines.
pub fn combined_output(stdout: &str, stderr: &str) -> (r: String)
    ensures
        r@ == if trim(stderr@).len() == 0 {
            stdout@
        } else if trim(stdout@).len() == 0 {
            stderr@
        } else {
            stdout@ + "\n"@ + stderr@
        },
{
    if trim_str(stderr).len() == 0 {
        stdout.to_string()
    } else if trim_str(stdout).len() == 0 {
        stderr.to_string()
    } else {
        let mut o = stdout.to_string();
        o.append("\n");
        o.append(stderr);
        o
    }
}

// ---------------------------------------------------------------------------
// Backend events
// ---------------------------------------------------------------------------

/// What a backend event asks of the service, with the reason it names.
#[derive(Debug, Clone, PartialEq, Eq)]
pub enum ServiceSignal {
    SyncRequested(String),
    ScanRequested(String),
    DeepScanRequested(String),
    ConfigChanged(String),
    SaveChanged(String),
}

/// A field of an event's JSON data: absent, a string, or another value.
#[derive(Debug, Clone)]
pub enum DataField {
    Absent,
    Text(String),
    Other,
}

/// The fields of an event's JSON data that name what is asked.
#[derive(Debug, Clone)]
pub struct SignalData {
    pub action: DataField,
    pub command: DataField,
}

/// The kind of a signal, without its reason.
pub open spec fn signal_kind(s: ServiceSignal) -> int {
    match s {
        ServiceSignal::SyncRequested(_) => 0,
        ServiceSignal::ScanRequested(_) => 1,
        ServiceSignal::DeepScanRequested(_) => 2,
        ServiceSignal::ConfigChanged(_) => 3,
        ServiceSignal::SaveChanged(_) => 4,
    }
}

pub open spec fn signal_reason(s: ServiceSignal) -> Seq<char> {
    match s {
        ServiceSignal::SyncRequested(r) => r@,
        ServiceSignal::ScanRequested(r) => r@,
        ServiceSignal::DeepScanRequested(r) => r@,
        ServiceSignal::ConfigChanged(r) => r@,
        ServiceSignal::SaveChanged(r) => r@,
    }
}

/// What the JSON data of an event asks: its `action` (or, without one, its
/// `command`), trimmed and lower-cased: `sync`, `scan`, `deep_scan` or
/// `deep-scan`, `config.changed` or `reload_config`; nothing else, and
/// nothing when that field is not a string.
pub open spec fn data_signal(d: SignalData) -> Option<(int, Seq<char>)> {
    let field = match d.action {
        DataField::Absent => d.command,
        _ => d.action,
    };
    match field {
        DataField::Text(t) => {
            let a = lower(trim(t@));
            if a == "sync"@ {
                Some((0, "data.action:sync"@))
            } else if a == "scan"@ {
                Some((1, "data.action:scan"@))
            } else if a == "deep_scan"@ || a == "deep-scan"@ {
                Some((2, "data.action:deep_scan"@))
            } else if a == "config.changed"@ || a == "reload_config"@ {
                Some((3, "data.action:config"@))
            } else {
                None
            }
        },
        _ => None,
    }
}

pub fn service_signal_from_json_data(data: &SignalData) -> (r: Option<ServiceSignal>)
    ensures
        match r {
            Some(s) => data_signal(*data) == Some((signal_kind(s), signal_reason(s))),
            None => data_signal(*data) is None,
        },
{
    let field = match &data.action {
        DataField::Absent => &data.command,
        _ => &data.action,
    };
    match field {
        DataField::Text(t) => {
            let a = lower_vec(trim_str(t.as_str()).as_slice());
            let a = a.as_slice();
            if eq_lit(a, "sync") {
                Some(ServiceSignal::SyncRequested(owned("data.action:sync")))
            } else if eq_lit(a, "scan") {
                Some(ServiceSignal::ScanRequested(owned("data.action:scan")))
            } else if eq_lit(a, "deep_scan") || eq_lit(a, "deep-scan") {
                Some(ServiceSignal::DeepScanRequested(owned("data.action:deep_scan")))
            } else if eq_lit(a, "config.changed") || eq_lit(a, "reload_config") {
                Some(ServiceSignal::ConfigChanged(owned("data.action:config")))
            } else {
                None
            }
        },
        _ => None,
    }
}

/// What a named backend event asks, by its name (trimmed, any ASCII case),
/// the reason being the name as it came; an event of another name is read by
/// its data.
pub open spec fn event_signal(name: Seq<char>, data: Option<SignalData>) -> Option<(int, Seq<char>)> {
    let n = lower(trim(name));
    if n == "sync.requested"@ || n == "helper.sync.requested"@ {
        Some((0, name))
    } else if n == "scan.requested"@ || n == "helper.scan.requested"@ {
        Some((1, name))
    } else if n == "deep_scan.requested"@ || n == "deep-scan.requested"@ || n
        == "helper.deep_scan.requested"@ {
        Some((2, name))
    } else if n == "config.changed"@ || n == "helper.config.changed"@ {
        Some((3, name))
    } else if n == "save.changed"@ || n == "save_created"@ || n == "save_parsed"@ || n
        == "save_deleted"@ || n == "conflict_created"@ || n == "conflict_resolved"@ {
        Some((4, name))
    } else {
        match data {
            Some(d) => data_signal(d),
            None => None,
        }
    }
}

/// What a named backend event asks; `data` is its JSON data, `None` where
/// that does not read as a JSON object.
pub fn service_signal_from_event(event_name: &str, data: &Option<SignalData>) -> (r: Option<ServiceSignal>)
    ensures
        match r {
            Some(s) => event_signal(event_name@, *data) == Some((signal_kind(s), signal_reason(s))),
            None => event_signal(event_name@, *data) is None,
        },
{
    let n = lower_vec(trim_str(event_name).as_slice());
    let n = n.as_slice();
    if eq_lit(n, "sync.requested") || eq_lit(n, "helper.sync.requested") {
        Some(ServiceSignal::SyncRequested(event_name.to_string()))
    } else if eq_lit(n, "scan.requested") || eq_lit(n, "helper.scan.requested") {
        Some(ServiceSignal::ScanRequested(event_name.to_string()))
    } else if eq_lit(n, "deep_scan.requested") || eq_lit(n, "deep-scan.requested") || eq_lit(
        n,
        "helper.deep_scan.requested",
    ) {
        Some(ServiceSignal::DeepScanRequested(event_name.to_string()))
    } else if eq_lit(n, "config.changed") || eq_lit(n, "helper.config.changed") {
        Some(ServiceSignal::ConfigChanged(event_name.to_string()))
    } else if eq_lit(n, "save.changed") || eq_lit(n, "save_created") || eq_lit(n, "save_parsed")
        || eq_lit(n, "save_deleted") || eq_lit(n, "conflict_created") || eq_lit(n, "conflict_resolved") {
        Some(ServiceSignal::SaveChanged(event_name.to_string()))
    } else {
        match data {
            Some(d) => service_signal_from_json_data(d),
            None => None,
        }
    }
}

// ---------------------------------------------------------------------------
// The event stream
// ---------------------------------------------------------------------------

/// The event being read from the stream: its name, if one was given, and
/// its data lines so far, joined by newlines.
#[derive(Debug, Clone)]
pub struct SseFrame {
    pub event: Option<String>,
    pub data: String,
}

/// What one line of the stream does: `event:` names the event, `data:` adds
/// a data line (both trimmed), a blank line ends the event (handing it on
/// when it was named) and starts afresh; other lines are passed over.
pub open spec fn sse_line(frame: (Option<Seq<char>>, Seq<char>), line: Seq<char>) -> (
    (Option<Seq<char>>, Seq<char>),
    Option<(Seq<char>, Seq<char>)>,
) {
    let t = trim(line);
    if starts_with(t, "event:"@) {
        ((Some(trim(crate::text::strip_prefix_rep(t, "event:"@))), frame.1), None)
    } else if starts_with(t, "data:"@) {
        let d = trim(crate::text::strip_prefix_rep(t, "data:"@));
        let joined = if frame.1.len() > 0 {
            frame.1 + "\n"@ + d
        } else {
            d
        };
        ((frame.0, joined), None)
    } else if t.len() == 0 {
        match frame.0 {
            Some(name) => ((None, seq![]), Some((name, frame.1))),
            None => ((None, seq![]), None),
        }
    } else {
        (frame, None)
    }
}

pub open spec fn frame_view(f: SseFrame) -> (Option<Seq<char>>, Seq<char>) {
    (crate::steamdeck::api::opt_str(f.event), f.data@)
}

/// Reads one line of the stream; returns the finished event, if the line
/// ended one.
pub fn sse_read_line(frame: &mut SseFrame, line: &str) -> (r: Option<(String, String)>)
    ensures
        ({
            let (next, out) = sse_line(frame_view(*old(frame)), line@);
            &&& frame_view(*final(frame)) == next
            &&& match r {
                Some((n, d)) => out == Some((n@, d@)),
                None => out is None,
            }
        }),
{
    let t = trim_str(line);
    let ts = t.as_slice();
    if crate::text::starts_with_lit(ts, "event:") {
        let rest = crate::text::strip_prefix_rep_vec(ts, "event:");
        let name = trim_vec(rest.as_slice());
        frame.event = Some(crate::text::string_of(name.as_slice()));
        return None;
    }
    if crate::text::starts_with_lit(ts, "data:") {
        let rest = crate::text::strip_prefix_rep_vec(ts, "data:");
        let d = trim_vec(rest.as_slice());
        if crate::text::chars_of(frame.data.as_str()).len() > 0 {
            frame.data.append("\n");
        }
        frame.data.append(crate::text::string_of(d.as_slice()).as_str());
        return None;
    }
    if t.len() == 0 {
        let out = match frame.event.take() {
            Some(name) => Some((name, frame.data.clone())),
            None => None,
        };
        frame.data = String::new();
        return out;
    }
    None
}

// ---------------------------------------------------------------------------
// The service loop
// ---------------------------------------------------------------------------

/// A sync the service runs, with why and what it scans.
#[derive(Debug, Clone)]
pub struct ServiceAction {
    pub reason: String,
    pub scan: bool,
    pub deep_scan: bool,
    pub apply_scan: bool,
}

/// What the service has done so far, as its heartbeats report it.
#[derive(Debug, Clone)]
pub struct ServiceRuntimeState {
    pub started_at: String,
    pub last_sync_started_at: Option<String>,
    pub last_sync_finished_at: Option<String>,
    pub last_sync_ok: Option<bool>,
    pub last_sync: Option<crate::mister::syncer::SyncReport>,
    pub last_error: Option<String>,
    pub last_event: Option<String>,
    pub cycles: u32,
}

impl ServiceRuntimeState {
    pub fn new(started_at: String) -> (r: Self)
        ensures
            r.started_at == started_at,
            r.last_sync_started_at is None,
            r.last_sync_finished_at is None,
            r.last_sync_ok is None,
            r.last_sync is None,
            r.last_error is None,
            r.last_event is None,
            r.cycles == 0,
    {
        ServiceRuntimeState {
            started_at,
            last_sync_started_at: None,
            last_sync_finished_at: None,
            last_sync_ok: None,
            last_sync: None,
            last_error: None,
            last_event: None,
            cycles: 0,
        }
    }
}

/// What happened to the service.
#[derive(Debug, Clone)]
pub enum ServiceEvent {
    Started,
    SyncFinished { report: crate::mister::syncer::SyncReport, finished_at: String },
    SyncFailed { message: String, finished_at: String },
    Tick { reconcile_due: bool, heartbeat_due: bool },
    Signal(ServiceSignal),
}

/// What the service does next: run a sync (after a `syncing` heartbeat), send
/// a heartbeat with a status and, after a sync, start its timers afresh and
/// stop when told; or wait.
#[derive(Debug, Clone)]
pub enum ServiceCommand {
    RunSync(ServiceAction),
    AfterSync { status: &'static str, stop: bool },
    Heartbeat(&'static str),
    Wait,
}

/// The sync a signal asks for: a scan for a scan request; a deep scan (with
/// the service's own choice of applying it) for a deep-scan request; a plain
/// sync otherwise.
pub open spec fn signal_action(s: ServiceSignal, apply_scan: bool) -> (Seq<char>, bool, bool, bool) {
    match s {
        ServiceSignal::ScanRequested(r) => (r@, true, false, false),
        ServiceSignal::DeepScanRequested(r) => (r@, false, true, apply_scan),
        _ => (signal_reason(s), false, false, false),
    }
}

pub open spec fn action_view(a: ServiceAction) -> (Seq<char>, bool, bool, bool) {
    (a.reason@, a.scan, a.deep_scan, a.apply_scan)
}

/// A sync run for the reason and with the scan settings given.
pub open spec fn runs(cmd: ServiceCommand, a: (Seq<char>, bool, bool, bool)) -> bool {
    match cmd {
        ServiceCommand::RunSync(x) => action_view(x) == a,
        _ => false,
    }
}

/// One step of the service. At the start, a sync with the service's own
/// scan settings (reason `startup`). After a sync, the runtime counts one
/// more cycle (saturating) and records the result; the heartbeat says
/// `backoff` after a failure, `idle` otherwise, and the service stops once
/// it has run `max_cycles` syncs. On a timer, a due reconcile runs a plain
/// sync (`periodic.reconcile`), else a due heartbeat says `idle`. A signal
/// runs the sync it asks for.
pub open spec fn service_step(
    options: ServiceRunOptions,
    rt: ServiceRuntimeState,
    ev: ServiceEvent,
    next: ServiceRuntimeState,
    cmd: ServiceCommand,
) -> bool {
    match ev {
        ServiceEvent::Started => next == rt && runs(cmd, ("startup"@, options.scan, options.deep_scan, options.apply_scan)),
        ServiceEvent::SyncFinished { report, finished_at } => {
            let cycles = if rt.cycles == u32::MAX { u32::MAX } else { (rt.cycles + 1) as u32 };
            &&& next.cycles == cycles
            &&& next.last_sync_ok == Some(report.errors == 0)
            &&& next.last_error is None
            &&& next.last_sync == Some(report)
            &&& next.last_sync_finished_at == Some(finished_at)
            &&& next.started_at == rt.started_at && next.last_sync_started_at == rt.last_sync_started_at
                && next.last_event == rt.last_event
            &&& cmd matches ServiceCommand::AfterSync { status, stop } && status@ == "idle"@ && stop == (
                options.max_cycles matches Some(m) && cycles >= m)
        },
        ServiceEvent::SyncFailed { message, finished_at } => {
            let cycles = if rt.cycles == u32::MAX { u32::MAX } else { (rt.cycles + 1) as u32 };
            &&& next.cycles == cycles
            &&& next.last_sync_ok == Some(false)
            &&& next.last_error == Some(message)
            &&& next.last_sync == rt.last_sync
            &&& next.last_sync_finished_at == Some(finished_at)
            &&& next.started_at == rt.started_at && next.last_sync_started_at == rt.last_sync_started_at
                && next.last_event == rt.last_event
            &&& cmd matches ServiceCommand::AfterSync { status, stop } && status@ == "backoff"@ && stop == (
                options.max_cycles matches Some(m) && cycles >= m)
        },
        ServiceEvent::Tick { reconcile_due, heartbeat_due } => next == rt && if reconcile_due {
            cmd matches ServiceCommand::RunSync(a) && action_view(a) == ("periodic.reconcile"@, false, false, false)
        } else if heartbeat_due {
            cmd matches ServiceCommand::Heartbeat(s) && s@ == "idle"@
        } else {
            cmd is Wait
        },
        ServiceEvent::Signal(s) => next == rt && runs(cmd, signal_action(s, options.apply_scan)),
    }
}

fn copy_runtime(rt: &ServiceRuntimeState) -> (r: ServiceRuntimeState)
    ensures
        r == *rt,
{
    ServiceRuntimeState {
        started_at: rt.started_at.clone(),
        last_sync_started_at: match &rt.last_sync_started_at {
            Some(s) => Some(s.clone()),
            None => None,
        },
        last_sync_finished_at: match &rt.last_sync_finished_at {
            Some(s) => Some(s.clone()),
            None => None,
        },
        last_sync_ok: rt.last_sync_ok,
        last_sync: match &rt.last_sync {
            Some(r) => Some(crate::mister::syncer::SyncReport {
                scanned: r.scanned,
                uploaded: r.uploaded,
                downloaded: r.downloaded,
                in_sync: r.in_sync,
                conflicts: r.conflicts,
                skipped: r.skipped,
                errors: r.errors,
            }),
            None => None,
        },
        last_error: match &rt.last_error {
            Some(s) => Some(s.clone()),
            None => None,
        },
        last_event: match &rt.last_event {
            Some(s) => Some(s.clone()),
            None => None,
        },
        cycles: rt.cycles,
    }
}

fn stop_after(options: &ServiceRunOptions, cycles: u32) -> (r: bool)
    ensures
        r == (options.max_cycles matches Some(m) && cycles >= m),
{
    match options.max_cycles {
        Some(m) => cycles >= m,
        None => false,
    }
}

/// One step of the service; see `service_step`.
pub fn next_service_step(options: &ServiceRunOptions, runtime: &ServiceRuntimeState, event: &ServiceEvent) -> (r: (ServiceRuntimeState, ServiceCommand))
    ensures
        service_step(*options, *runtime, *event, r.0, r.1),
{
    match event {
        ServiceEvent::Started => (
            copy_runtime(runtime),
            ServiceCommand::RunSync(ServiceAction {
                reason: owned("startup"),
                scan: options.scan,
                deep_scan: options.deep_scan,
                apply_scan: options.apply_scan,
            }),
        ),
        ServiceEvent::SyncFinished { report, finished_at } => {
            let mut next = copy_runtime(runtime);
            next.cycles = if runtime.cycles == u32::MAX { u32::MAX } else { runtime.cycles + 1 };
            next.last_sync_ok = Some(report.errors == 0);
            next.last_error = None;
            next.last_sync = Some(crate::mister::syncer::SyncReport {
                scanned: report.scanned,
                uploaded: report.uploaded,
                downloaded: report.downloaded,
                in_sync: report.in_sync,
                conflicts: report.conflicts,
                skipped: report.skipped,
                errors: report.errors,
            });
            next.last_sync_finished_at = Some(finished_at.clone());
            let stop = stop_after(options, next.cycles);
            (next, ServiceCommand::AfterSync { status: "idle", stop })
        },
        ServiceEvent::SyncFailed { message, finished_at } => {
            let mut next = copy_runtime(runtime);
            next.cycles = if runtime.cycles == u32::MAX { u32::MAX } else { runtime.cycles + 1 };
            next.last_sync_ok = Some(false);
            next.last_error = Some(message.clone());
            next.last_sync_finished_at = Some(finished_at.clone());
            let stop = stop_after(options, next.cycles);
            (next, ServiceCommand::AfterSync { status: "backoff", stop })
        },
        ServiceEvent::Tick { reconcile_due, heartbeat_due } => {
            let cmd = if *reconcile_due {
                ServiceCommand::RunSync(ServiceAction {
                    reason: owned("periodic.reconcile"),
                    scan: false,
                    deep_scan: false,
                    apply_scan: false,
                })
            } else if *heartbeat_due {
                ServiceCommand::Heartbeat("idle")
            } else {
                ServiceCommand::Wait
            };
            (copy_runtime(runtime), cmd)
        },
        ServiceEvent::Signal(s) => {
            let action = match s {
                ServiceSignal::ScanRequested(r) => ServiceAction { reason: r.clone(), scan: true, deep_scan: false, apply_scan: false },
                ServiceSignal::DeepScanRequested(r) => ServiceAction {
                    reason: r.clone(),
                    scan: false,
                    deep_scan: true,
                    apply_scan: options.apply_scan,
                },
                ServiceSignal::SyncRequested(r) => ServiceAction { reason: r.clone(), scan: false, deep_scan: false, apply_scan: false },
                ServiceSignal::ConfigChanged(r) => ServiceAction { reason: r.clone(), scan: false, deep_scan: false, apply_scan: false },
                ServiceSignal::SaveChanged(r) => ServiceAction { reason: r.clone(), scan: false, deep_scan: false, apply_scan: false },
            };
            (copy_runtime(runtime), ServiceCommand::RunSync(action))
        },
    }
}

/// A service with a cycle limit stops: once it has run that many syncs, the
/// step after the next sync, whether it succeeded or failed, stops it.
pub proof fn law_service_stops_at_max_cycles(
    options: ServiceRunOptions,
    rt: ServiceRuntimeState,
    ev: ServiceEvent,
    next: ServiceRuntimeState,
    cmd: ServiceCommand,
)
    requires
        options.max_cycles matches Some(m) && rt.cycles + 1 >= m,
        ev is SyncFinished || ev is SyncFailed,
        service_step(options, rt, ev, next, cmd),
    ensures
        cmd matches ServiceCommand::AfterSync { stop, .. } && stop,
{
}

/// A due reconcile always runs: a tick at which the reconcile interval has
/// passed starts a plain sync for the reason `periodic.reconcile` (no scan),
/// whether or not a heartbeat is due too, and leaves the runtime as it was.
pub proof fn law_due_reconcile_runs_sync(
    options: ServiceRunOptions,
    rt: ServiceRuntimeState,
    heartbeat_due: bool,
    next: ServiceRuntimeState,
    cmd: ServiceCommand,
)
    requires
        service_step(options, rt, ServiceEvent::Tick { reconcile_due: true, heartbeat_due }, next, cmd),
    ensures
        next == rt,
        cmd matches ServiceCommand::RunSync(a) && a.reason@ == "periodic.reconcile"@ && !a.scan && !a.deep_scan
            && !a.apply_scan,
{
}

/// A tick starts a sync exactly when the reconcile is due; otherwise it
/// sends an `idle` heartbeat when one is due, and else waits.
pub proof fn law_tick_syncs_only_when_due(
    options: ServiceRunOptions,
    rt: ServiceRuntimeState,
    reconcile_due: bool,
    heartbeat_due: bool,
    next: ServiceRuntimeState,
    cmd: ServiceCommand,
)
    requires
        service_step(options, rt, ServiceEvent::Tick { reconcile_due, heartbeat_due }, next, cmd),
    ensures
        (cmd is RunSync) <==> reconcile_due,
        !reconcile_due && heartbeat_due ==> (cmd matches ServiceCommand::Heartbeat(h) && h@ == "idle"@),
        !reconcile_due && !heartbeat_due ==> cmd is Wait,
{
}

/// A failed sync is reported: the heartbeat after it says `backoff` and the
/// runtime records the failure.
pub proof fn law_failed_sync_backs_off(
    options: ServiceRunOptions,
    rt: ServiceRuntimeState,
    message: String,
    finished_at: String,
    next: ServiceRuntimeState,
    cmd: ServiceCommand,
)
    requires
        service_step(options, rt, ServiceEvent::SyncFailed { message, finished_at }, next, cmd),
    ensures
        next.last_sync_ok == Some(false),
        next.last_error == Some(message),
        cmd matches ServiceCommand::AfterSync { status, .. } && status@ == "backoff"@,
{
}

// ---------------------------------------------------------------------------
// What the heartbeat says of the sources
// ---------------------------------------------------------------------------

/// How many sources, save folders and ROM folders there are, and the systems
/// they sync (sorted, each once).
#[derive(Debug, Clone)]
pub struct SourceCounts {
    pub source_count: usize,
    pub save_path_count: usize,
    pub rom_path_count: usize,
    pub configured_systems: Vec<String>,
}

pub open spec fn total_save_roots(s: Seq<ResolvedSource>) -> nat
    decreases s.len(),
{
    if s.len() == 0 {
        0
    } else {
        total_save_roots(s.drop_last()) + s.last().save_roots@.len()
    }
}

pub open spec fn total_rom_roots(s: Seq<ResolvedSource>) -> nat
    decreases s.len(),
{
    if s.len() == 0 {
        0
    } else {
        total_rom_roots(s.drop_last()) + s.last().rom_roots@.len()
    }
}

pub open spec fn system_set(s: Seq<ResolvedSource>) -> Set<Seq<char>>
    decreases s.len(),
{
    if s.len() == 0 {
        Set::empty()
    } else {
        system_set(s.drop_last()).union(s.last().systems.deep_view().to_set())
    }
}

/// Counts the sources for the heartbeat.
pub fn source_counts(sources: &Vec<ResolvedSource>) -> (r: SourceCounts)
    requires
        total_save_roots(sources@) <= usize::MAX,
        total_rom_roots(sources@) <= usize::MAX,
    ensures
        r.source_count == sources@.len(),
        r.save_path_count == total_save_roots(sources@),
        r.rom_path_count == total_rom_roots(sources@),
        strictly_sorted(r.configured_systems.deep_view()),
        r.configured_systems.deep_view().to_set() == system_set(sources@),
{
    let mut saves: usize = 0;
    let mut roms: usize = 0;
    let mut systems: Vec<String> = Vec::new();
    let mut i: usize = 0;
    assert(systems.deep_view().to_set() =~= Set::<Seq<char>>::empty());
    while i < sources.len()
        invariant
            0 <= i <= sources@.len(),
            total_save_roots(sources@) <= usize::MAX,
            total_rom_roots(sources@) <= usize::MAX,
            saves == total_save_roots(sources@.subrange(0, i as int)),
            roms == total_rom_roots(sources@.subrange(0, i as int)),
            strictly_sorted(systems.deep_view()),
            systems.deep_view().to_set() == system_set(sources@.subrange(0, i as int)),
        decreases sources@.len() - i,
    {
        proof {
            assert(sources@.subrange(0, i + 1).drop_last() =~= sources@.subrange(0, i as int));
            assert(sources@.subrange(0, i + 1).last() == sources@[i as int]);
            lemma_totals_grow(sources@, i as int + 1);
        }
        let src = &sources[i];
        saves = saves + src.save_roots.len();
        roms = roms + src.rom_roots.len();
        let ghost base = systems.deep_view().to_set();
        let mut j: usize = 0;
        assert(base.union(src.systems.deep_view().subrange(0, 0).to_set()) =~= base);
        while j < src.systems.len()
            invariant
                0 <= j <= src.systems@.len(),
                strictly_sorted(systems.deep_view()),
                systems.deep_view().to_set() == base.union(src.systems.deep_view().subrange(0, j as int).to_set()),
            decreases src.systems@.len() - j,
        {
            insert_sorted_unique(&mut systems, src.systems[j].clone());
            proof {
                let sub = src.systems.deep_view().subrange(0, j + 1);
                assert(sub =~= src.systems.deep_view().subrange(0, j as int).push(src.systems@[j as int]@));
                src.systems.deep_view().subrange(0, j as int).lemma_push_to_set_commute(src.systems@[j as int]@);
                assert(systems.deep_view().to_set() =~= base.union(sub.to_set()));
            }
            j = j + 1;
        }
        assert(src.systems.deep_view().subrange(0, src.systems@.len() as int) =~= src.systems.deep_view());
        i = i + 1;
    }
    assert(sources@.subrange(0, sources@.len() as int) =~= sources@);
    SourceCounts { source_count: sources.len(), save_path_count: saves, rom_path_count: roms, configured_systems: systems }
}

proof fn lemma_totals_grow(s: Seq<ResolvedSource>, n: int)
    requires
        0 <= n <= s.len(),
    ensures
        total_save_roots(s.subrange(0, n)) <= total_save_roots(s),
        total_rom_roots(s.subrange(0, n)) <= total_rom_roots(s),
    decreases s.len() - n,
{
    if n < s.len() {
        lemma_totals_grow(s, n + 1);
        assert(s.subrange(0, n + 1).drop_last() =~= s.subrange(0, n));
    } else {
        assert(s.subrange(0, n) =~= s);
    }
}

/// The service backend for the machine: a Windows scheduled task on
/// Windows; else a systemd unit where `systemctl` is available (for the
/// whole system when running as root, else for the user); else cron.
pub fn detect_service_backend(on_windows: bool, systemctl_available: bool, is_root: bool) -> (r: ServiceBackend)
    ensures
        r == if on_windows {
            ServiceBackend::WindowsTask
        } else if systemctl_available {
            if is_root {
                ServiceBackend::LinuxSystemdSystem
            } else {
                ServiceBackend::LinuxSystemdUser
            }
        } else {
            ServiceBackend::LinuxCron
        },
{
    if on_windows {
        return ServiceBackend::WindowsTask;
    }
    if systemctl_available {
        if is_root {
            ServiceBackend::LinuxSystemdSystem
        } else {
            ServiceBackend::LinuxSystemdUser
        }
    } else {
        ServiceBackend::LinuxCron
    }
}

} // verus!

verus! {

// ---------------------------------------------------------------------------
// The settings a heartbeat reports
// ---------------------------------------------------------------------------

/// The settings a heartbeat or a configuration snapshot reports: every
/// setting but the app password, of which only whether one is set.
#[derive(Debug, Clone)]
pub struct ReportedConfig {
    pub url: String,
    pub port: u16,
    pub base_url: String,
    pub email: String,
    pub app_password_configured: bool,
    pub root: String,
    pub state_dir: String,
    pub watch: bool,
    pub watch_interval: u64,
    pub force_upload: bool,
    pub dry_run: bool,
    pub route_prefix: String,
}

/// The settings as a heartbeat reports them; the app password itself is
/// not among them.
pub fn reported_config(cfg: &crate::mister::config::AppConfig) -> (r: ReportedConfig)
    ensures
        r.url@ == cfg.url@,
        r.port == cfg.port,
        r.base_url@ == "http://"@ + cfg.url@ + ":"@ + crate::num::decimal_text(cfg.port as nat),
        r.email@ == cfg.email@,
        r.app_password_configured == (trim(cfg.app_password@).len() > 0),
        r.root@ == cfg.root@,
        r.state_dir@ == cfg.state_dir@,
        r.watch == cfg.watch,
        r.watch_interval == cfg.watch_interval,
        r.force_upload == cfg.force_upload,
        r.dry_run == cfg.dry_run,
        r.route_prefix@ == cfg.route_prefix@,
{
    ReportedConfig {
        url: cfg.url.clone(),
        port: cfg.port,
        base_url: cfg.base_url(),
        email: cfg.email.clone(),
        app_password_configured: trim_str(cfg.app_password.as_str()).len() > 0,
        root: cfg.root.clone(),
        state_dir: cfg.state_dir.clone(),
        watch: cfg.watch,
        watch_interval: cfg.watch_interval,
        force_upload: cfg.force_upload,
        dry_run: cfg.dry_run,
        route_prefix: cfg.route_prefix.clone(),
    }
}

/// The app password as `config show` prints it: `***redacted***` where one
/// is set, else empty.
pub fn shown_app_password(app_password: &str) -> (r: String)
    ensures
        r@ == if app_password@.len() == 0 { ""@ } else { "***redacted***"@ },
{
    if crate::text::chars_of(app_password).len() == 0 {
        owned("")
    } else {
        owned("***redacted***")
    }
}

} // verus!

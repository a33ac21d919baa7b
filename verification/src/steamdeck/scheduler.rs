//! Periodic syncs through the system scheduler: the command that is
//! scheduled, and what is written to the crontab or asked of the Windows
//! task scheduler. Running the scheduler programs is left to the caller.
use vstd::prelude::*;
use crate::text::{contains, contains_lit, join_with, lower, lower_str, owned, str_eq};

verus! {

/// The scheduler a periodic sync is installed with.
#[derive(Debug, Clone, Copy, PartialEq, Eq, Structural)]
pub enum SchedulerBackend {
    LinuxCron,
    WindowsTask,
}

/// Whether a scheduled job is installed, with what the scheduler reports.
#[derive(Debug, Clone)]
pub struct ScheduleStatus {
    pub installed: bool,
    pub details: String,
}

/// Why a schedule cannot be installed: an interval of zero minutes, or more
/// than 59 minutes for cron.
#[derive(Debug, Clone, Copy, PartialEq, Eq, Structural)]
pub enum ScheduleError {
    ZeroInterval,
    CronIntervalTooLong,
}

impl ScheduleError {
    /// The message shown for the error.
    pub fn message(&self) -> (r: String)
        ensures
            r@ == match *self {
                ScheduleError::ZeroInterval => "--every-minutes moet >= 1 zijn"@,
                ScheduleError::CronIntervalTooLong => "linux cron ondersteunt in deze helper maximaal 59 minuten interval"@,
            },
    {
        match self {
            ScheduleError::ZeroInterval => owned("--every-minutes moet >= 1 zijn"),
            ScheduleError::CronIntervalTooLong => owned(
                "linux cron ondersteunt in deze helper maximaal 59 minuten interval",
            ),
        }
    }
}

/// The marker a job of this name carries in the crontab.
/// The interval a cron job can run at: one to fifty-nine minutes.
pub fn check_cron_interval(every_minutes: u32) -> (r: Result<(), ScheduleError>)
    ensures
        every_minutes == 0 ==> r == Err::<(), ScheduleError>(ScheduleError::ZeroInterval),
        every_minutes > 59 ==> r == Err::<(), ScheduleError>(ScheduleError::CronIntervalTooLong),
        1 <= every_minutes <= 59 ==> r is Ok,
{
    if every_minutes == 0 {
        Err(ScheduleError::ZeroInterval)
    } else if every_minutes > 59 {
        Err(ScheduleError::CronIntervalTooLong)
    } else {
        Ok(())
    }
}

pub fn cron_marker(task_name: &str) -> (r: String)
    ensures
        r@ == "sgm-helper:"@ + task_name@,
{
    let mut m = owned("sgm-helper:");
    m.append(task_name);
    m
}

/// The command a periodic sync runs.
pub fn build_sync_command(binary_path: &str, config_path: &str) -> (r: String)
    ensures
        r@ == "\""@ + binary_path@ + "\" --config \""@ + config_path@ + "\" sync --quiet"@,
{
    let mut c = owned("\"");
    c.append(binary_path);
    c.append("\" --config \"");
    c.append(config_path);
    c.append("\" sync --quiet");
    c
}

/// The crontab lines that do not hold `marker`, in order.
pub open spec fn without_marker(lines: Seq<Seq<char>>, marker: Seq<char>) -> Seq<Seq<char>>
    decreases lines.len(),
{
    if lines.len() == 0 {
        lines
    } else if contains(lines.last(), marker) {
        without_marker(lines.drop_last(), marker)
    } else {
        without_marker(lines.drop_last(), marker).push(lines.last())
    }
}

/// The crontab lines without those holding `marker`.
pub fn lines_without(lines: &Vec<String>, marker: &str) -> (r: Vec<String>)
    ensures
        r.deep_view() == without_marker(lines.deep_view(), marker@),
{
    let m = crate::text::chars_of(marker);
    let mut out: Vec<String> = Vec::new();
    let mut i: usize = 0;
    while i < lines.len()
        invariant
            0 <= i <= lines@.len(),
            m@ == marker@,
            out.deep_view() == without_marker(lines.deep_view().subrange(0, i as int), marker@),
        decreases lines@.len() - i,
    {
        let ghost sub = lines.deep_view().subrange(0, i + 1);
        assert(sub.drop_last() =~= lines.deep_view().subrange(0, i as int));
        assert(sub.last() == lines@[i as int]@);
        let l = crate::text::chars_of(lines[i].as_str());
        if !crate::text::contains_exec(l.as_slice(), m.as_slice()) {
            let ghost before = out.deep_view();
            out.push(lines[i].clone());
            assert(out.deep_view() =~= before.push(lines@[i as int]@));
        }
        i = i + 1;
    }
    assert(lines.deep_view().subrange(0, lines@.len() as int) =~= lines.deep_view());
    out
}

/// The first crontab line that holds the marker or the command.
pub open spec fn first_job_line(lines: Seq<Seq<char>>, marker: Seq<char>, command: Seq<char>, i: int) -> Option<Seq<char>>
    decreases lines.len() - i,
{
    if i < 0 || i >= lines.len() {
        None
    } else if contains(lines[i], marker) || contains(lines[i], command) {
        Some(lines[i])
    } else {
        first_job_line(lines, marker, command, i + 1)
    }
}

pub fn find_job_line(lines: &Vec<String>, marker: &str, command: &str) -> (r: Option<String>)
    ensures
        match r {
            Some(l) => first_job_line(lines.deep_view(), marker@, command@, 0) == Some(l@),
            None => first_job_line(lines.deep_view(), marker@, command@, 0) is None,
        },
{
    let m = crate::text::chars_of(marker);
    let c = crate::text::chars_of(command);
    let mut i: usize = 0;
    while i < lines.len()
        invariant
            0 <= i <= lines@.len(),
            m@ == marker@,
            c@ == command@,
            first_job_line(lines.deep_view(), marker@, command@, 0) == first_job_line(lines.deep_view(), marker@, command@, i as int),
        decreases lines@.len() - i,
    {
        let l = crate::text::chars_of(lines[i].as_str());
        assert(lines.deep_view()[i as int] == lines@[i as int]@);
        if crate::text::contains_exec(l.as_slice(), m.as_slice()) || crate::text::contains_exec(
            l.as_slice(),
            c.as_slice(),
        ) {
            return Some(lines[i].clone());
        }
        i = i + 1;
    }
    None
}

/// Whether a crontab line holds the job's marker or its command.
pub open spec fn job_line(l: Seq<char>, marker: Seq<char>, command: Seq<char>) -> bool {
    contains(l, marker) || contains(l, command)
}

proof fn lemma_first_job_line_from(lines: Seq<Seq<char>>, marker: Seq<char>, command: Seq<char>, start: int)
    requires
        0 <= start <= lines.len(),
    ensures
        (first_job_line(lines, marker, command, start) is Some)
            <==> exists|i: int| start <= i < lines.len() && job_line(#[trigger] lines[i], marker, command),
        forall|i: int| start <= i < lines.len() && job_line(#[trigger] lines[i], marker, command)
            && (forall|k: int| start <= k < i ==> !job_line(#[trigger] lines[k], marker, command))
            ==> first_job_line(lines, marker, command, start) == Some(lines[i]),
    decreases lines.len() - start,
{
    if start < lines.len() {
        lemma_first_job_line_from(lines, marker, command, start + 1);
        if job_line(lines[start], marker, command) {
            assert forall|i: int| start <= i < lines.len() && job_line(#[trigger] lines[i], marker, command)
                && (forall|k: int| start <= k < i ==> !job_line(#[trigger] lines[k], marker, command))
                implies first_job_line(lines, marker, command, start) == Some(lines[i]) by {
                if i > start {
                    assert(!job_line(lines[start], marker, command));
                }
            }
        } else {
            assert forall|i: int| start <= i < lines.len() && job_line(#[trigger] lines[i], marker, command)
                && (forall|k: int| start <= k < i ==> !job_line(#[trigger] lines[k], marker, command))
                implies first_job_line(lines, marker, command, start) == Some(lines[i]) by {
                assert(i != start);
                assert forall|k: int| start + 1 <= k < i implies !job_line(#[trigger] lines[k], marker, command) by {}
            }
        }
    }
}

/// The job's status reads the crontab only: it is installed exactly when
/// some line holds the marker `sgm-helper:<task>` or the sync command, and
/// its details are then the first such line.
pub proof fn law_status_names_first_job_line(lines: Seq<Seq<char>>, task: Seq<char>, command: Seq<char>)
    ensures
        (first_job_line(lines, "sgm-helper:"@ + task, command, 0) is Some)
            <==> exists|i: int| 0 <= i < lines.len() && job_line(#[trigger] lines[i], "sgm-helper:"@ + task, command),
        forall|i: int| 0 <= i < lines.len() && job_line(#[trigger] lines[i], "sgm-helper:"@ + task, command)
            && (forall|k: int| 0 <= k < i ==> !job_line(#[trigger] lines[k], "sgm-helper:"@ + task, command))
            ==> first_job_line(lines, "sgm-helper:"@ + task, command, 0) == Some(lines[i]),
{
    lemma_first_job_line_from(lines, "sgm-helper:"@ + task, command, 0);
}

/// What is written to `crontab -`: the lines, each ended by a newline.
pub open spec fn crontab_text(lines: Seq<Seq<char>>) -> Seq<char> {
    if lines.len() == 0 {
        seq![]
    } else {
        join_with(lines, "\n"@) + "\n"@
    }
}

pub fn crontab_payload(lines: &Vec<String>) -> (r: String)
    ensures
        r@ == crontab_text(lines.deep_view()),
{
    if lines.len() == 0 {
        return String::new();
    }
    let mut p = crate::text::join_strings(lines, "\n");
    p.append("\n");
    p
}

/// Whether `crontab -l` failed only because there is no crontab yet.
pub open spec fn no_crontab(stderr: Seq<char>) -> bool {
    contains(lower(stderr), "no crontab"@) || contains(lower(stderr), "geen crontab"@)
}

pub fn crontab_missing(stderr: &str) -> (r: bool)
    ensures
        r == no_crontab(stderr@),
{
    let l = lower_str(stderr);
    contains_lit(l.as_slice(), "no crontab") || contains_lit(l.as_slice(), "geen crontab")
}

/// Whether the task scheduler failed because the task does not exist.
pub fn task_not_found(stderr: &str) -> (r: bool)
    ensures
        r == contains(lower(stderr@), "cannot find"@),
{
    let l = lower_str(stderr);
    contains_lit(l.as_slice(), "cannot find")
}

/// The crontab lines after installing a job that runs `command` every
/// `every` minutes, and the message that reports it: other entries of the
/// job are replaced by one line `*/<every> * * * * <command> # <marker>`.
pub open spec fn cron_install_plan(lines: Seq<Seq<char>>, task: Seq<char>, command: Seq<char>, every: nat) -> (
    Seq<Seq<char>>,
    Seq<char>,
) {
    let marker = "sgm-helper:"@ + task;
    let expr = "*/"@ + crate::num::decimal_text(every) + " * * * *"@;
    let line = expr + " "@ + command + " # "@ + marker;
    (without_marker(lines, marker).push(line), "Cron job installed: "@ + line)
}

/// Plans installing a periodic sync in the crontab; refused for an interval
/// of zero or more than 59 minutes.
pub fn plan_cron_install(lines: &Vec<String>, task_name: &str, sync_command: &str, every_minutes: u32) -> (r: Result<(Vec<String>, String), ScheduleError>)
    ensures
        every_minutes == 0 ==> r == Err::<(Vec<String>, String), ScheduleError>(ScheduleError::ZeroInterval),
        every_minutes > 59 ==> r == Err::<(Vec<String>, String), ScheduleError>(ScheduleError::CronIntervalTooLong),
        1 <= every_minutes <= 59 ==> (r matches Ok((new_lines, message)) && (new_lines.deep_view(), message@)
            == cron_install_plan(lines.deep_view(), task_name@, sync_command@, every_minutes as nat)),
{
    if every_minutes == 0 {
        return Err(ScheduleError::ZeroInterval);
    }
    if every_minutes > 59 {
        return Err(ScheduleError::CronIntervalTooLong);
    }
    let marker = cron_marker(task_name);
    let mut kept = lines_without(lines, marker.as_str());
    let mut line = owned("*/");
    line.append(crate::num::u64_text(every_minutes as u64).as_str());
    line.append(" * * * *");
    line.append(" ");
    line.append(sync_command);
    line.append(" # ");
    line.append(marker.as_str());
    let mut message = owned("Cron job installed: ");
    message.append(line.as_str());
    let ghost before = kept.deep_view();
    kept.push(line);
    assert(kept.deep_view() =~= before.push(kept@[kept@.len() - 1]@));
    Ok((kept, message))
}

/// The status of the crontab job: the first line holding its marker or
/// command, or not installed.
pub fn cron_schedule_status(lines: &Vec<String>, task_name: &str, sync_command: &str) -> (r: ScheduleStatus)
    ensures
        match first_job_line(lines.deep_view(), "sgm-helper:"@ + task_name@, sync_command@, 0) {
            Some(l) => r.installed && r.details@ == l,
            None => !r.installed && r.details@ == "Cron job niet gevonden"@,
        },
{
    let marker = cron_marker(task_name);
    match find_job_line(lines, marker.as_str(), sync_command) {
        Some(l) => ScheduleStatus { installed: true, details: l },
        None => ScheduleStatus { installed: false, details: owned("Cron job niet gevonden") },
    }
}

/// The crontab lines after removing the job, and the message: `None` (and
/// nothing written) when no line held its marker.
pub fn plan_cron_uninstall(lines: &Vec<String>, task_name: &str) -> (r: (Option<Vec<String>>, String))
    ensures
        ({
            let kept = without_marker(lines.deep_view(), "sgm-helper:"@ + task_name@);
            if kept.len() == lines@.len() {
                r.0 is None && r.1@ == "Geen cron job gevonden om te verwijderen"@
            } else {
                (r.0 matches Some(v) && v.deep_view() == kept) && r.1@ == "Cron job verwijderd"@
            }
        }),
{
    let marker = cron_marker(task_name);
    let kept = lines_without(lines, marker.as_str());
    if kept.len() == lines.len() {
        (None, owned("Geen cron job gevonden om te verwijderen"))
    } else {
        (Some(kept), owned("Cron job verwijderd"))
    }
}

/// The arguments of `schtasks` that create a task running `command` every
/// `every` minutes.
pub fn schtasks_create_args(task_name: &str, sync_command: &str, every_minutes: u32) -> (r: Vec<String>)
    ensures
        r.deep_view() == seq![
            "/Create"@,
            "/F"@,
            "/SC"@,
            "MINUTE"@,
            "/MO"@,
            crate::num::decimal_text(every_minutes as nat),
            "/TN"@,
            task_name@,
            "/TR"@,
            sync_command@,
        ],
{
    let mut v: Vec<String> = Vec::new();
    v.push(owned("/Create"));
    v.push(owned("/F"));
    v.push(owned("/SC"));
    v.push(owned("MINUTE"));
    v.push(owned("/MO"));
    v.push(crate::num::u64_text(every_minutes as u64));
    v.push(owned("/TN"));
    v.push(task_name.to_string());
    v.push(owned("/TR"));
    v.push(sync_command.to_string());
    assert(v.deep_view() =~= seq![
        "/Create"@,
        "/F"@,
        "/SC"@,
        "MINUTE"@,
        "/MO"@,
        crate::num::decimal_text(every_minutes as nat),
        "/TN"@,
        task_name@,
        "/TR"@,
        sync_command@,
    ]);
    v
}

/// The message after the task scheduler took the task.
pub fn windows_task_installed_message(task_name: &str, every_minutes: u32) -> (r: String)
    ensures
        r@ == "Task Scheduler job installed: "@ + task_name@ + " (every "@ + crate::num::decimal_text(every_minutes as nat) + " minutes)"@,
{
    let mut m = owned("Task Scheduler job installed: ");
    m.append(task_name);
    m.append(" (every ");
    m.append(crate::num::u64_text(every_minutes as u64).as_str());
    m.append(" minutes)");
    m
}

} // verus!

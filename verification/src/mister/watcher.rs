//! Watch mode: syncing again and again, every interval or sooner when the
//! backend announces a change. The helper runs the loop; the decisions of
//! each turn are here.
use vstd::prelude::*;
use crate::mister::sources::SourceKind;
use crate::mister::syncer::SyncOptions;
use crate::text::{eq_lit, starts_with, starts_with_lit, string_of, strip_prefix_rep, strip_prefix_rep_vec, trim, trim_str, trim_vec};

verus! {

/// How watch mode runs.
#[derive(Debug, Clone)]
pub struct WatchOptions {
    pub interval_secs: u64,
    pub force_upload: bool,
    pub dry_run: bool,
    pub scan: bool,
    pub deep_scan: bool,
    pub apply_scan: bool,
    pub slot_name: String,
    pub default_source_kind: SourceKind,
    pub max_cycles: Option<u32>,
}

/// Where watch mode stands: the sync cycles done so far.
#[derive(Debug, Clone, Copy)]
pub struct WatchState {
    pub cycles: u32,
}

/// What the helper reports back: the start, a finished sync, the end of a
/// wait (its time was up, or a change was announced), or a stop request.
#[derive(Debug, Clone, Copy)]
pub enum WatchEvent {
    Begin,
    SyncDone,
    WaitOver,
    StopRequested,
}

/// What the helper is to do next.
#[derive(Debug, Clone)]
pub enum WatchAction {
    Sync(SyncOptions),
    Wait { secs: u64 },
    Stop,
}

/// The sync of a cycle: the watch options, scanning only on the first cycle.
pub open spec fn cycle_sync(o: WatchOptions, first: bool, s: SyncOptions) -> bool {
    &&& s.force_upload == o.force_upload
    &&& s.dry_run == o.dry_run
    &&& s.scan == (first && o.scan)
    &&& s.deep_scan == (first && o.deep_scan)
    &&& s.apply_scan == (first && o.apply_scan)
    &&& s.slot_name@ == o.slot_name@
    &&& s.default_source_kind == o.default_source_kind
}

/// The wait between cycles: the interval, at least a second.
pub open spec fn wait_secs(o: WatchOptions) -> u64 {
    if o.interval_secs < 1 {
        1
    } else {
        o.interval_secs
    }
}

/// One turn of watch mode: a sync starts it and follows every wait; after a
/// sync the cycle is counted, and the loop stops once the cycle limit is
/// reached, else waits; a stop request stops it.
pub open spec fn watch_step(o: WatchOptions, st: WatchState, ev: WatchEvent, next: WatchState, act: WatchAction) -> bool {
    match ev {
        WatchEvent::Begin | WatchEvent::WaitOver => next == st && match act {
            WatchAction::Sync(s) => cycle_sync(o, st.cycles == 0, s),
            _ => false,
        },
        WatchEvent::SyncDone => {
            &&& next.cycles == st.cycles + 1
            &&& if o.max_cycles is Some && next.cycles >= o.max_cycles->0 {
                act is Stop
            } else {
                act == (WatchAction::Wait { secs: wait_secs(o) })
            }
        },
        WatchEvent::StopRequested => next == st && act is Stop,
    }
}

pub fn next_watch_step(options: &WatchOptions, state: WatchState, event: WatchEvent) -> (r: (WatchState, WatchAction))
    requires
        event is SyncDone ==> state.cycles < u32::MAX,
    ensures
        watch_step(*options, state, event, r.0, r.1),
{
    match event {
        WatchEvent::Begin | WatchEvent::WaitOver => {
            let first = state.cycles == 0;
            let s = SyncOptions {
                force_upload: options.force_upload,
                dry_run: options.dry_run,
                scan: first && options.scan,
                deep_scan: first && options.deep_scan,
                apply_scan: first && options.apply_scan,
                slot_name: options.slot_name.clone(),
                default_source_kind: options.default_source_kind,
            };
            (state, WatchAction::Sync(s))
        },
        WatchEvent::SyncDone => {
            let next = WatchState { cycles: state.cycles + 1 };
            let stop = match options.max_cycles {
                Some(m) => next.cycles >= m,
                None => false,
            };
            if stop {
                (next, WatchAction::Stop)
            } else {
                let secs: u64 = if options.interval_secs < 1 {
                    1
                } else {
                    options.interval_secs
                };
                (next, WatchAction::Wait { secs })
            }
        },
        WatchEvent::StopRequested => (state, WatchAction::Stop),
    }
}

/// Watch mode stops at its cycle limit: with a limit, the sync that reaches
/// it is followed by a stop.
pub proof fn law_watch_stops_at_limit(o: WatchOptions, st: WatchState, next: WatchState, act: WatchAction)
    requires
        o.max_cycles == Some((st.cycles + 1) as u32),
        st.cycles < u32::MAX,
        watch_step(o, st, WatchEvent::SyncDone, next, act),
    ensures
        act is Stop,
{
}

/// Only the first cycle scans: every later sync runs without a scan.
pub proof fn law_watch_scans_once(o: WatchOptions, st: WatchState, ev: WatchEvent, next: WatchState, s: SyncOptions)
    requires
        st.cycles > 0,
        watch_step(o, st, ev, next, WatchAction::Sync(s)),
    ensures
        !s.scan && !s.deep_scan && !s.apply_scan,
{
}

/// The backend events that start a sync at once.
pub open spec fn sync_event(name: Seq<char>) -> bool {
    name == "save_created"@ || name == "save_parsed"@ || name == "save_deleted"@ || name == "conflict_created"@
        || name == "conflict_resolved"@
}

pub fn is_sync_event(event_name: &str) -> (r: bool)
    ensures
        r == sync_event(event_name@),
{
    let v = crate::text::chars_of(event_name);
    let v = v.as_slice();
    eq_lit(v, "save_created") || eq_lit(v, "save_parsed") || eq_lit(v, "save_deleted") || eq_lit(v, "conflict_created")
        || eq_lit(v, "conflict_resolved")
}

/// Reading one line of the event stream: an `event:` line names the event;
/// the blank line after it ends the event, which is announced when it is a
/// sync event.
pub open spec fn event_line(current: Option<Seq<char>>, line: Seq<char>) -> (Option<Seq<char>>, Option<Seq<char>>) {
    let t = trim(line);
    if starts_with(t, "event:"@) {
        (Some(trim(strip_prefix_rep(t, "event:"@))), None)
    } else if t.len() == 0 && current is Some {
        (None, if sync_event(current->0) { current } else { None })
    } else {
        (current, None)
    }
}

pub fn read_event_line(current: &mut Option<String>, line: &str) -> (r: Option<String>)
    ensures
        ({
            let (next, out) = event_line(
                match *old(current) {
                    Some(c) => Some(c@),
                    None => None,
                },
                line@,
            );
            &&& next == match *final(current) {
                Some(c) => Some(c@),
                None => None,
            }
            &&& out == match r {
                Some(c) => Some(c@),
                None => None,
            }
        }),
{
    let t = trim_str(line);
    if starts_with_lit(t.as_slice(), "event:") {
        let rest = strip_prefix_rep_vec(t.as_slice(), "event:");
        *current = Some(string_of(trim_vec(rest.as_slice()).as_slice()));
        return None;
    }
    if t.len() == 0 {
        match current.take() {
            Some(name) => {
                if is_sync_event(name.as_str()) {
                    return Some(name);
                }
                return None;
            },
            None => {
                return None;
            },
        }
    }
    None
}

} // verus!

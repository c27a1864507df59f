//! Data model for the activity signals the engine consumes: the focused
//! window snapshot, the rolling input-activity counters, and per-process
//! summaries. The snapshots are produced by platform probes outside this
//! crate and are only read here.

use vstd::prelude::*;

verus! {

/// One snapshot of the currently focused window, taken by the
/// active-window probe. Coordinates are whole screen pixels.
#[derive(Debug, Clone)]
pub struct ActiveWindowInfo {
    /// When the snapshot was taken, in milliseconds since the Unix epoch.
    pub timestamp_ms: u64,
    /// The window's title.
    pub title: String,
    /// Full path of the owning executable.
    pub process_path: String,
    /// The application's name.
    pub app_name: String,
    /// Platform-specific window identifier.
    pub window_id: String,
    /// The owning process id.
    pub process_id: u64,
    /// Left edge of the window, in screen coordinates.
    pub x: i64,
    /// Top edge of the window, in screen coordinates.
    pub y: i64,
    /// Width of the window in pixels.
    pub width: i64,
    /// Height of the window in pixels.
    pub height: i64,
}

/// Cumulative input-activity counters, owned by a process-wide collector
/// and read here as a cloned snapshot. Mouse movement alone is not a
/// meaningful input event.
#[derive(Debug, Clone)]
pub struct InputStats {
    /// Count of key, click and wheel events since monitoring started.
    pub meaningful_input_events: u64,
    /// Timestamp of the last key, click or wheel event, in milliseconds.
    pub last_meaningful_input_timestamp_ms: u64,
    /// Timestamp of the last mouse movement, in milliseconds.
    pub last_mouse_move_timestamp_ms: u64,
    /// When monitoring started, in milliseconds.
    pub start_monitoring_timestamp_ms: u64,
}

impl Default for InputStats {
    /// All counters and timestamps start at zero.
    fn default() -> (r: Self)
        ensures
            r.meaningful_input_events == 0,
            r.last_meaningful_input_timestamp_ms == 0,
            r.last_mouse_move_timestamp_ms == 0,
            r.start_monitoring_timestamp_ms == 0,
    {
        InputStats {
            meaningful_input_events: 0,
            last_meaningful_input_timestamp_ms: 0,
            last_mouse_move_timestamp_ms: 0,
            start_monitoring_timestamp_ms: 0,
        }
    }
}

/// Summary of one running process, as reported by the process probe.
#[derive(Debug, Clone)]
pub struct ProcessSummary {
    /// The process's name.
    pub name: String,
    /// When the process started, in seconds since the Unix epoch.
    pub start_time_unix_s: u64,
}

/// Whether a probed process row is kept in the summary: rows whose start
/// time the platform does not know (reported as zero) are dropped.
pub open spec fn process_kept(p: ProcessSummary) -> bool {
    p.start_time_unix_s > 0
}

/// Keeps exactly the probed processes with a known start time, in order.
pub fn filter_process_summaries(raw: Vec<ProcessSummary>) -> (out: Vec<ProcessSummary>)
    ensures
        out@ == raw@.filter(|p: ProcessSummary| process_kept(p)),
{
    let ghost orig = raw@;
    let mut rest = raw;
    let mut out: Vec<ProcessSummary> = Vec::new();
    let ghost mut taken: int = 0;
    proof {
        reveal(Seq::filter);
        assert(orig.take(0) =~= Seq::<ProcessSummary>::empty());
        assert(rest@ =~= orig.skip(0));
    }
    while rest.len() > 0
        invariant
            0 <= taken <= orig.len(),
            rest@ == orig.skip(taken),
            out@ == orig.take(taken).filter(|p: ProcessSummary| process_kept(p)),
        decreases rest@.len(),
    {
        let p = rest.remove(0);
        proof {
            reveal(Seq::filter);
            assert(p == orig[taken]);
            assert(rest@ =~= orig.skip(taken + 1));
            assert(orig.take(taken + 1).drop_last() =~= orig.take(taken));
            assert(orig.take(taken + 1).last() == orig[taken]);
            taken = taken + 1;
        }
        if p.start_time_unix_s > 0 {
            out.push(p);
        }
    }
    proof {
        assert(orig.take(taken) =~= orig);
    }
    out
}

} // verus!

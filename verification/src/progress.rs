//! Progress monitoring. A delegated job reports one event per unit of
//! work on a one-directional channel; the monitor drains every event in
//! arrival order until the producer closes the channel — closure is the
//! sole termination signal. The monitor records timestamps around the
//! drain to report the elapsed duration, and summarizes the drained
//! events.

use vstd::prelude::*;

verus! {

/// How one unit of delegated work ended.
#[derive(Clone, Copy, Debug, PartialEq, Eq, Structural)]
pub enum ProgressStatus {
    Done,
    Skipped,
    Failed,
}

/// One unit of delegated work, reported on the progress channel.
#[derive(Clone, Debug, PartialEq)]
pub struct ProgressEvent {
    pub path: String,
    pub status: ProgressStatus,
}

#[verifier::external_type_specification]
#[verifier::external_body]
#[verifier::reject_recursive_types(T)]
pub struct ExReceiver<T>(std::sync::mpsc::Receiver<T>);

/// Relies on mpsc::Receiver::recv: it returns `Ok` with the next event in
/// arrival order, and `Err` exactly when the channel is empty and every
/// sender has been dropped. What arrives depends on the producer, so
/// nothing is promised of the value.
#[verifier::external_body]
fn recv_progress_event(rx: &std::sync::mpsc::Receiver<ProgressEvent>) -> Option<ProgressEvent> {
    match rx.recv() {
        Ok(event) => Some(event),
        Err(_) => None,
    }
}

/// Relies on SystemTime::now and duration_since: the milliseconds since
/// the epoch. The clock decides the value, so nothing is promised of it.
#[verifier::external_body]
fn now_ms() -> u64 {
    match std::time::SystemTime::now().duration_since(std::time::SystemTime::UNIX_EPOCH) {
        Ok(d) => d.as_millis() as u64,
        Err(_) => 0,
    }
}

/// How many events of a drained sequence carry the given status.
pub open spec fn spec_count_status(events: Seq<ProgressEvent>, status: ProgressStatus) -> nat
    decreases events.len(),
{
    if events.len() == 0 {
        0
    } else {
        spec_count_status(events.drop_last(), status) + (if events.last().status == status {
            1nat
        } else {
            0nat
        })
    }
}

/// The aggregate of one drained progress channel.
#[derive(Clone, Copy, Debug, PartialEq, Eq, Structural)]
pub struct ProgressSummary {
    pub done: usize,
    pub skipped: usize,
    pub failed: usize,
}

/// Summarizes a drained event sequence: how many units finished, were
/// skipped, and failed.
pub fn summarize(events: &Vec<ProgressEvent>) -> (r: ProgressSummary)
    ensures
        r.done == spec_count_status(events@, ProgressStatus::Done),
        r.skipped == spec_count_status(events@, ProgressStatus::Skipped),
        r.failed == spec_count_status(events@, ProgressStatus::Failed),
{
    let mut done: usize = 0;
    let mut skipped: usize = 0;
    let mut failed: usize = 0;
    let mut i: usize = 0;
    while i < events.len()
        invariant
            i <= events@.len(),
            done == spec_count_status(events@.subrange(0, i as int), ProgressStatus::Done),
            skipped == spec_count_status(events@.subrange(0, i as int), ProgressStatus::Skipped),
            failed == spec_count_status(events@.subrange(0, i as int), ProgressStatus::Failed),
            done <= i && skipped <= i && failed <= i,
        decreases events@.len() - i,
    {
        proof {
            assert(events@.subrange(0, i + 1).drop_last() =~= events@.subrange(0, i as int));
            assert(events@.subrange(0, i + 1).last() == events@[i as int]);
        }
        match events[i].status {
            ProgressStatus::Done => {
                done = done + 1;
            },
            ProgressStatus::Skipped => {
                skipped = skipped + 1;
            },
            ProgressStatus::Failed => {
                failed = failed + 1;
            },
        }
        i = i + 1;
    }
    proof {
        assert(events@.subrange(0, events@.len() as int) =~= events@);
    }
    ProgressSummary { done, skipped, failed }
}

/// What one drain of a progress channel observed.
#[derive(Debug)]
pub struct MonitorReport {
    pub events: Vec<ProgressEvent>,
    pub summary: ProgressSummary,
    pub elapsed_ms: u64,
}

/// Drains the progress channel of a delegated job: receives every event
/// in arrival order until the producer closes the channel (or the event
/// count would no longer fit in memory), then reports the events, their
/// summary, and the elapsed wall-clock duration of the drain. Blocks for
/// as long as the producer keeps the channel open; any timeout policy
/// lives with the caller.
pub fn monitor(rx: &std::sync::mpsc::Receiver<ProgressEvent>) -> (r: MonitorReport)
    ensures
        r.summary.done == spec_count_status(r.events@, ProgressStatus::Done),
        r.summary.skipped == spec_count_status(r.events@, ProgressStatus::Skipped),
        r.summary.failed == spec_count_status(r.events@, ProgressStatus::Failed),
{
    let start = now_ms();
    let mut events: Vec<ProgressEvent> = Vec::new();
    let mut remaining: usize = usize::MAX;
    while remaining > 0
        decreases remaining,
    {
        match recv_progress_event(rx) {
            Some(event) => {
                events.push(event);
            },
            None => {
                break ;
            },
        }
        remaining = remaining - 1;
    }
    let end = now_ms();
    let summary = summarize(&events);
    MonitorReport { events, summary, elapsed_ms: end.saturating_sub(start) }
}

} // verus!

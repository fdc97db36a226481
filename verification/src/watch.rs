//! The event/block watcher: a two-state machine that, for every item the
//! subscription stream yields, emits exactly one output line, in the order
//! the provider delivered the items, and stops when the stream ends.

use vstd::prelude::*;

verus! {

/// The event name the log filter of the watcher subscribes to.
pub const EVENT_NAME: &'static str = "UpkeepSuccessful";

/// The two states of the watcher: freshly subscribed, or draining items.
#[derive(Clone, Copy, Debug)]
pub enum WatchState {
    /// The subscription is open and nothing has been received yet.
    Subscribed,
    /// At least one notification has been handled.
    Draining,
}

/// One notification from the provider stream: a serialized record, or the
/// end of the stream.
#[derive(Clone, Debug)]
pub enum WatchEvent {
    /// A record was received, already serialized to one line of text.
    Item { record: String },
    /// The provider closed the stream.
    Closed,
}

/// What the watcher does in response: emit one output line, or stop.
#[derive(Clone, Debug)]
pub enum WatchAction {
    /// Write this line to standard output.
    Emit { line: String },
    /// The stream has ended; leave the loop.
    Stop,
}

/// One transition of the watcher: every item received is answered with
/// exactly the one line that serializes it, and the end of the stream stops
/// the loop without emitting anything.
pub fn watch_step(state: WatchState, event: &WatchEvent) -> (r: (WatchState, WatchAction))
    ensures
        event matches WatchEvent::Item { record } ==> (r.0 is Draining && (r.1 matches
        WatchAction::Emit { line } && line@ == record@)),
        event is Closed ==> (r.0 == state && r.1 is Stop),
{
    match event {
        WatchEvent::Item { record } => (
            WatchState::Draining,
            WatchAction::Emit { line: record.clone() },
        ),
        WatchEvent::Closed => (state, WatchAction::Stop),
    }
}

/// Runs the watcher over a whole sequence of received records: exactly one
/// output line per record, in the order the records were delivered.
pub fn drain_all(records: &Vec<String>) -> (lines: Vec<String>)
    ensures
        lines@.len() == records@.len(),
        forall|i: int| 0 <= i < records@.len() ==> lines@[i]@ == records@[i]@,
{
    let mut lines: Vec<String> = Vec::new();
    let mut state = WatchState::Subscribed;
    let n = records.len();
    let mut idx: usize = 0;
    while idx < n
        invariant
            n == records@.len(),
            idx <= n,
            lines@.len() == idx,
            forall|i: int| 0 <= i < idx ==> lines@[i]@ == records@[i]@,
        decreases n - idx,
    {
        let event = WatchEvent::Item { record: records[idx].clone() };
        let (next, action) = watch_step(state, &event);
        state = next;
        match action {
            WatchAction::Emit { line } => lines.push(line),
            // an item is always answered with an emit, never a stop
            WatchAction::Stop => {
                proof {
                    assert(false);
                }
            },
        }
        idx += 1;
    }
    lines
}

} // verus!

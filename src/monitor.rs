//! Log of internal command invocations, captured while monitoring is enabled.
use vstd::prelude::*;
pub use crate::clock::current_timestamp;

verus! {

/// A captured command invocation.
#[derive(Debug)]
pub struct IPCEvent {
    /// Milliseconds since the Unix epoch when the command was invoked.
    pub timestamp: u64,
    /// Name of the invoked command.
    pub command: String,
    /// The arguments, as JSON text.
    pub args: String,
    /// The result, as JSON text, where the command returned one.
    pub result: Option<String>,
    /// The error message, where the command failed.
    pub error: Option<String>,
    /// How long the command ran, in microseconds.
    pub duration_us: Option<u64>,
}

fn copy_text(s: &Option<String>) -> (r: Option<String>)
    ensures
        r == *s,
{
    match s {
        Some(t) => Some(t.clone()),
        None => None,
    }
}

impl IPCEvent {
    /// A copy of the event.
    pub fn duplicate(&self) -> (r: IPCEvent)
        ensures
            r == *self,
    {
        IPCEvent {
            timestamp: self.timestamp,
            command: self.command.clone(),
            args: self.args.clone(),
            result: copy_text(&self.result),
            error: copy_text(&self.error),
            duration_us: self.duration_us,
        }
    }
}

/// Abstract state of a monitor: whether it records, and what it has recorded.
pub struct MonitorState {
    pub enabled: bool,
    pub events: Seq<IPCEvent>,
}

/// Records events while enabled. Starting discards the log; stopping keeps it.
pub struct IPCMonitor {
    enabled: bool,
    events: Vec<IPCEvent>,
}

impl View for IPCMonitor {
    type V = MonitorState;

    closed spec fn view(&self) -> MonitorState {
        MonitorState { enabled: self.enabled, events: self.events@ }
    }
}

impl IPCMonitor {
    /// A disabled monitor with an empty log.
    pub fn new() -> (r: Self)
        ensures
            !r@.enabled,
            r@.events == Seq::<IPCEvent>::empty(),
    {
        IPCMonitor { enabled: false, events: Vec::new() }
    }

    /// Whether events are being recorded.
    pub fn is_enabled(&self) -> (r: bool)
        ensures
            r == self@.enabled,
    {
        self.enabled
    }

    /// Enables recording and discards the log, whether or not it was enabled.
    pub fn start(&mut self)
        ensures
            final(self)@ == started(old(self)@),
    {
        self.enabled = true;
        self.events.clear();
        assert(self@.events =~= Seq::<IPCEvent>::empty());
    }

    /// Disables recording; the log is kept.
    pub fn stop(&mut self)
        ensures
            final(self)@ == stopped(old(self)@),
    {
        self.enabled = false;
    }

    /// Appends `event` to the log if recording is enabled, and drops it otherwise.
    pub fn add_event(&mut self, event: IPCEvent)
        ensures
            final(self)@ == recorded(old(self)@, event),
    {
        if self.enabled {
            self.events.push(event);
        }
    }

    /// A copy of the log, oldest first.
    pub fn get_events(&self) -> (r: Vec<IPCEvent>)
        ensures
            r@ == self@.events,
    {
        let mut out: Vec<IPCEvent> = Vec::new();
        let mut i: usize = 0;
        while i < self.events.len()
            invariant
                i <= self.events@.len(),
                out@ == self.events@.subrange(0, i as int),
            decreases self.events@.len() - i,
        {
            out.push(self.events[i].duplicate());
            assert(out@ =~= self.events@.subrange(0, i + 1));
            i = i + 1;
        }
        assert(out@ =~= self.events@);
        out
    }
}

/// Monitor state after `start`.
pub open spec fn started(m: MonitorState) -> MonitorState {
    MonitorState { enabled: true, events: Seq::empty() }
}

/// Monitor state after `stop`.
pub open spec fn stopped(m: MonitorState) -> MonitorState {
    MonitorState { enabled: false, events: m.events }
}

/// Monitor state after `add_event(e)`.
pub open spec fn recorded(m: MonitorState, e: IPCEvent) -> MonitorState {
    MonitorState { enabled: m.enabled, events: if m.enabled { m.events.push(e) } else { m.events } }
}

/// Starting, recording `e1`, stopping and recording `e2` leaves a log of `e1`
/// alone, whatever the monitor held before: events while disabled are dropped.
pub proof fn lemma_disabled_events_dropped(m: MonitorState, e1: IPCEvent, e2: IPCEvent)
    ensures
        recorded(stopped(recorded(started(m), e1)), e2).events == seq![e1],
{
    assert(Seq::<IPCEvent>::empty().push(e1) =~= seq![e1]);
}

/// A second `start` clears the log even without a `stop` in between.
pub proof fn lemma_restart_clears(m: MonitorState, es: Seq<IPCEvent>)
    ensures
        started(record_all(started(m), es)).events == Seq::<IPCEvent>::empty(),
        started(record_all(started(m), es)).enabled,
{
}

/// Monitor state after recording each of `es` in turn.
pub open spec fn record_all(m: MonitorState, es: Seq<IPCEvent>) -> MonitorState
    decreases es.len(),
{
    if es.len() == 0 {
        m
    } else {
        recorded(record_all(m, es.drop_last()), es.last())
    }
}

} // verus!

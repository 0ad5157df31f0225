use vstd::prelude::*;
use vstd::string::*;

use crate::event_queue::EventQueue;
use crate::idle_detector::IdleDetectorError;
use crate::sync_error::prefixed;
use crate::window_tracker::{WindowInfo, WindowTrackerError};

verus! {

/// Time without input after which the user counts as away: five minutes.
pub const IDLE_THRESHOLD_MILLIS: u64 = 300000;

/// Pause while the user is away, before looking again.
pub const IDLE_WAIT_MILLIS: u64 = 5000;

/// Pause between two looks at the foreground window.
pub const POLL_INTERVAL_MILLIS: u64 = 1000;

/// Admission permits of the monitor's queue.
pub const QUEUE_CAPACITY: usize = 10000;

/// What the capture side reports about itself.
#[derive(Debug, Clone)]
pub struct CollectorStatus {
    pub is_running: bool,
    pub events_collected: i64,
    pub last_sync_at: Option<String>,
    pub active_window: Option<String>,
}

/// How a tick of the polling loop begins.
#[derive(Debug, Clone, Copy, PartialEq, Eq)]
pub enum TickStart {
    /// The monitor was stopped: leave the loop.
    Stop,
    /// The user is away: sleep this many milliseconds and start over.
    IdleWait(u64),
    /// Look at the foreground window.
    Probe,
}

/// Whether a probed process differs from the last recorded one (the first
/// observation always does).
pub open spec fn is_change(last: Option<Seq<char>>, name: Seq<char>) -> bool {
    last != Some(name)
}

/// The counter after one more event; it stops at `i64::MAX`.
pub open spec fn bumped(n: i64) -> i64 {
    if n < i64::MAX {
        (n + 1) as i64
    } else {
        n
    }
}

/// The process names recorded for the probed names `names`, starting after
/// `last`: one for each change of process.
pub open spec fn kept_names(last: Option<Seq<char>>, names: Seq<Seq<char>>) -> Seq<Seq<char>>
    decreases names.len(),
{
    if names.len() == 0 {
        Seq::empty()
    } else if is_change(last, names[0]) {
        seq![names[0]] + kept_names(Some(names[0]), names.drop_first())
    } else {
        kept_names(Some(names[0]), names.drop_first())
    }
}

/// The label shown for the active window.
pub open spec fn active_label(w: WindowInfo) -> Seq<char> {
    w.process_name@ + " - "@ + w.window_title@
}

/// The capture side: the running flag, the count of recorded changes, the
/// active window label and the last recorded process.
pub struct Collector {
    event_queue: EventQueue,
    is_running: bool,
    events_collected: i64,
    active_window: Option<String>,
    last_window: Option<String>,
}

impl Collector {
    #[verifier::type_invariant]
    closed spec fn queue_sound(&self) -> bool {
        self.event_queue.wf() && self.event_queue.capacity() == QUEUE_CAPACITY
    }

    pub closed spec fn running(&self) -> bool {
        self.is_running
    }

    pub closed spec fn collected(&self) -> i64 {
        self.events_collected
    }

    pub closed spec fn active(&self) -> Option<Seq<char>> {
        match self.active_window {
            Some(a) => Some(a@),
            None => None,
        }
    }

    /// The process of the last recorded change in this run of the loop.
    pub closed spec fn last_name(&self) -> Option<Seq<char>> {
        match self.last_window {
            Some(l) => Some(l@),
            None => None,
        }
    }

    pub fn new() -> (r: Collector)
        ensures
            !r.running(),
            r.collected() == 0,
            r.active() is None,
            r.last_name() is None,
    {
        Collector {
            event_queue: EventQueue::new(QUEUE_CAPACITY),
            is_running: false,
            events_collected: 0,
            active_window: None,
            last_window: None,
        }
    }

    /// The queue of the capture side, with `QUEUE_CAPACITY` permits.
    pub fn event_queue(&self) -> (r: &EventQueue)
        ensures
            r.wf(),
            r.capacity() == QUEUE_CAPACITY,
    {
        proof {
            use_type_invariant(self);
        }
        &self.event_queue
    }

    /// Sets the running flag. Returns whether a polling loop must be started:
    /// not when one is already running. A new loop starts with no recorded
    /// process.
    pub fn start(&mut self) -> (r: bool)
        ensures
            r == !old(self).running(),
            final(self).running(),
            final(self).collected() == old(self).collected(),
            final(self).active() == old(self).active(),
            old(self).running() ==> final(self).last_name() == old(self).last_name(),
            !old(self).running() ==> final(self).last_name() is None,
    {
        proof {
            use_type_invariant(&*self);
        }
        if self.is_running {
            return false;
        }
        self.is_running = true;
        self.last_window = None;
        true
    }

    /// Clears the running flag, which the loop sees at its next tick, and
    /// the active window label.
    pub fn stop(&mut self)
        ensures
            !final(self).running(),
            final(self).active() is None,
            final(self).collected() == old(self).collected(),
            final(self).last_name() == old(self).last_name(),
    {
        proof {
            use_type_invariant(&*self);
        }
        self.is_running = false;
        self.active_window = None;
    }

    pub fn get_status(&self, last_sync_at: Option<String>) -> (r: CollectorStatus)
        ensures
            r.is_running == self.running(),
            r.events_collected == self.collected(),
            r.last_sync_at == last_sync_at,
            r.active_window matches Some(a) ==> self.active() == Some(a@),
            r.active_window is None <==> self.active() is None,
    {
        let active_window = match &self.active_window {
            Some(a) => Some(a.clone()),
            None => None,
        };
        CollectorStatus {
            is_running: self.is_running,
            events_collected: self.events_collected,
            last_sync_at,
            active_window,
        }
    }

    /// Begins a tick from the idle probe's answer: stop when the flag is
    /// down; wait when the user is away; otherwise look at the window. A
    /// failed idle probe counts as not idle.
    pub fn begin_tick(&self, idle: Result<bool, IdleDetectorError>) -> (r: TickStart)
        ensures
            !self.running() ==> r == TickStart::Stop,
            self.running() && idle == Ok::<bool, IdleDetectorError>(true) ==> r == TickStart::IdleWait(
                IDLE_WAIT_MILLIS,
            ),
            self.running() && idle != Ok::<bool, IdleDetectorError>(true) ==> r == TickStart::Probe,
    {
        if !self.is_running {
            return TickStart::Stop;
        }
        match idle {
            Ok(true) => TickStart::IdleWait(IDLE_WAIT_MILLIS),
            _ => TickStart::Probe,
        }
    }

    /// Takes the window probe's answer. A change of process (by name alone;
    /// a new title in the same process is no change) counts one more event,
    /// updates the active label and returns the observation to be stored. A
    /// failed probe, or the same process again, changes nothing.
    pub fn observe(&mut self, probe: Result<WindowInfo, WindowTrackerError>) -> (r: Option<WindowInfo>)
        ensures
            final(self).running() == old(self).running(),
            match probe {
                Ok(w) => if is_change(old(self).last_name(), w.process_name@) {
                    &&& r == Some(w)
                    &&& final(self).last_name() == Some(w.process_name@)
                    &&& final(self).collected() == bumped(old(self).collected())
                    &&& final(self).active() == Some(active_label(w))
                } else {
                    &&& r is None
                    &&& final(self).last_name() == old(self).last_name()
                    &&& final(self).collected() == old(self).collected()
                    &&& final(self).active() == old(self).active()
                },
                Err(_) => {
                    &&& r is None
                    &&& final(self).last_name() == old(self).last_name()
                    &&& final(self).collected() == old(self).collected()
                    &&& final(self).active() == old(self).active()
                },
            },
    {
        proof {
            use_type_invariant(&*self);
        }
        let w = match probe {
            Ok(w) => w,
            Err(_) => {
                return None;
            },
        };
        let same = match &self.last_window {
            Some(l) => *l == w.process_name,
            None => false,
        };
        if same {
            return None;
        }
        if self.events_collected < i64::MAX {
            self.events_collected = self.events_collected + 1;
        }
        self.last_window = Some(w.process_name.clone());
        let mut label = prefixed(w.process_name.as_str(), " - ");
        label.append(w.window_title.as_str());
        self.active_window = Some(label);
        Some(w)
    }
}

/// A process probed twice in a row is recorded once: repeating a name
/// records nothing more.
pub proof fn lemma_repeats_collapse(last: Option<Seq<char>>, name: Seq<char>, rest: Seq<Seq<char>>)
    ensures
        kept_names(last, seq![name, name] + rest) == kept_names(last, seq![name] + rest),
{
    let twice = seq![name, name] + rest;
    let once = seq![name] + rest;
    assert(twice.drop_first() =~= once);
    assert(once.drop_first() =~= rest);
    assert(twice[0] == name && once[0] == name);
    assert(!is_change(Some(name), name));
    assert(kept_names(Some(name), once) == kept_names(Some(name), rest));
}

} // verus!

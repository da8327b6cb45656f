//! Decisions of the polling loop. The caller waits on the readiness
//! primitive, performs each action and reports each outcome; every choice
//! between those steps is made here.
use vstd::prelude::*;

verus! {

/// The loop as a value.
pub struct LoopView {
    /// A shutdown was observed or a fatal error happened.
    pub stopped: bool,
    /// The device is registered with the readiness primitive.
    pub registered: bool,
    /// Write readiness is part of the registration.
    pub write_interest: bool,
    /// A synchronized update was flushed, and nothing arrived since.
    pub flushed: bool,
}

/// What to do after a wake of the readiness wait.
#[derive(Clone, Copy, Debug, PartialEq, Eq, Structural)]
pub enum WakeStep {
    /// The synchronized-update deadline passed in silence: take the lock,
    /// stop the synchronized update, notify the consumer, wait again.
    FlushSync,
    /// Nothing to do: wait again.
    Idle,
    /// Drain the channel, then handle the events.
    Dispatch,
    /// The loop is over.
    Stop,
}

/// What to do with one readiness event.
#[derive(Clone, Copy, Debug, PartialEq, Eq, Structural)]
pub enum EventAction {
    Read,
    Write,
    ReadThenWrite,
    /// Not the device's, or neither readable nor writable: log it and go on.
    Ignore,
}

/// The loop after a wake, and what it does next.
pub open spec fn spec_wake(v: LoopView, had_events: bool, message_pending: bool, sync_pending: bool) -> (LoopView, WakeStep) {
    if v.stopped {
        (v, WakeStep::Stop)
    } else if !had_events && !message_pending {
        if sync_pending && !v.flushed {
            (LoopView { flushed: true, ..v }, WakeStep::FlushSync)
        } else {
            (v, WakeStep::Idle)
        }
    } else {
        (LoopView { flushed: false, ..v }, WakeStep::Dispatch)
    }
}

/// What the loop does with one readiness event.
pub open spec fn spec_event(v: LoopView, from_device: bool, readable: bool, writable: bool) -> EventAction {
    if v.stopped || !from_device {
        EventAction::Ignore
    } else if readable && writable {
        EventAction::ReadThenWrite
    } else if readable {
        EventAction::Read
    } else if writable {
        EventAction::Write
    } else {
        EventAction::Ignore
    }
}

/// The loop after a shutdown message.
pub open spec fn spec_shutdown(v: LoopView) -> LoopView {
    LoopView { stopped: true, ..v }
}

/// The loop after it ends, and whether the device must be deregistered.
pub open spec fn spec_finish(v: LoopView) -> (LoopView, bool) {
    (LoopView { stopped: true, registered: false, ..v }, v.registered)
}

/// The remaining wait before a deadline, none when there is no deadline.
/// Times are in one unit from one origin; a deadline already passed gives
/// zero.
pub open spec fn spec_wait_timeout(deadline: Option<u64>, now: u64) -> Option<u64> {
    match deadline {
        Some(d) => Some(if d > now { (d - now) as u64 } else { 0 }),
        None => None,
    }
}

/// How long the readiness wait may block: until the synchronized-update
/// deadline if one is pending, else without limit.
pub fn wait_timeout(deadline: Option<u64>, now: u64) -> (r: Option<u64>)
    ensures
        r == spec_wait_timeout(deadline, now),
{
    match deadline {
        Some(d) => Some(d.saturating_sub(now)),
        None => None,
    }
}

/// Whether a synchronized update is pending and its deadline has passed.
pub fn sync_due(deadline: Option<u64>, now: u64) -> (r: bool)
    ensures
        r == (deadline matches Some(d) && d <= now),
{
    match deadline {
        Some(d) => d <= now,
        None => false,
    }
}

/// The loop's own state between waits.
pub struct LoopControl {
    stopped: bool,
    registered: bool,
    write_interest: bool,
    flushed: bool,
}

impl View for LoopControl {
    type V = LoopView;

    closed spec fn view(&self) -> LoopView {
        LoopView {
            stopped: self.stopped,
            registered: self.registered,
            write_interest: self.write_interest,
            flushed: self.flushed,
        }
    }
}

impl LoopControl {
    /// A loop that runs, with nothing registered yet and read interest only.
    pub fn new() -> (r: LoopControl)
        ensures
            r@ == (LoopView { stopped: false, registered: false, write_interest: false, flushed: false }),
    {
        LoopControl { stopped: false, registered: false, write_interest: false, flushed: false }
    }

    pub fn is_stopped(&self) -> (r: bool)
        ensures
            r == self@.stopped,
    {
        self.stopped
    }

    pub fn is_registered(&self) -> (r: bool)
        ensures
            r == self@.registered,
    {
        self.registered
    }

    /// Records the outcome of registering (or re-registering) the device:
    /// a failure is fatal. Returns whether the loop goes on.
    pub fn on_registration(&mut self, ok: bool) -> (r: bool)
        ensures
            r == (ok && !old(self)@.stopped),
            ok ==> final(self)@ == (LoopView { registered: true, ..old(self)@ }),
            !ok ==> final(self)@ == (LoopView { stopped: true, ..old(self)@ }),
    {
        if ok {
            self.registered = true;
            !self.stopped
        } else {
            self.stopped = true;
            false
        }
    }

    /// Records a failed readiness wait: an interrupted wait is retried,
    /// any other failure is fatal. Returns whether the loop goes on.
    pub fn on_wait_error(&mut self, interrupted: bool) -> (r: bool)
        ensures
            r == (interrupted && !old(self)@.stopped),
            final(self)@ == (LoopView { stopped: old(self)@.stopped || !interrupted, ..old(self)@ }),
    {
        if !interrupted {
            self.stopped = true;
        }
        interrupted && !self.stopped
    }

    /// The decision after a wake. With no event and no message waiting, the
    /// wake is the synchronized-update deadline: flush once, and not again
    /// until something arrives.
    pub fn on_wake(&mut self, had_events: bool, message_pending: bool, sync_pending: bool) -> (r: WakeStep)
        ensures
            (final(self)@, r) == spec_wake(old(self)@, had_events, message_pending, sync_pending),
    {
        if self.stopped {
            WakeStep::Stop
        } else if !had_events && !message_pending {
            if sync_pending && !self.flushed {
                self.flushed = true;
                WakeStep::FlushSync
            } else {
                WakeStep::Idle
            }
        } else {
            self.flushed = false;
            WakeStep::Dispatch
        }
    }

    /// A shutdown message was drained: no more I/O.
    pub fn on_shutdown(&mut self)
        ensures
            final(self)@ == spec_shutdown(old(self)@),
    {
        self.stopped = true;
    }

    /// What to do with a readiness event.
    pub fn on_event(&self, from_device: bool, readable: bool, writable: bool) -> (r: EventAction)
        ensures
            r == spec_event(self@, from_device, readable, writable),
    {
        if self.stopped || !from_device {
            EventAction::Ignore
        } else if readable && writable {
            EventAction::ReadThenWrite
        } else if readable {
            EventAction::Read
        } else if writable {
            EventAction::Write
        } else {
            EventAction::Ignore
        }
    }

    /// Records a failed reader path. A hang-up of the remote side is left to
    /// the device-closed notification that follows: the rest of this event is
    /// skipped. Any other error is fatal. Returns whether the loop goes on.
    pub fn on_read_error(&mut self, hang_up: bool) -> (r: bool)
        ensures
            r == (hang_up && !old(self)@.stopped),
            final(self)@ == (LoopView { stopped: old(self)@.stopped || !hang_up, ..old(self)@ }),
    {
        if !hang_up {
            self.stopped = true;
        }
        hang_up && !self.stopped
    }

    /// A failed writer path is fatal.
    pub fn on_write_error(&mut self)
        ensures
            final(self)@ == (LoopView { stopped: true, ..old(self)@ }),
    {
        self.stopped = true;
    }

    /// Write readiness is wanted exactly while bytes are owed to the device.
    /// Returns whether the registration must change.
    pub fn update_write_interest(&mut self, needs_write: bool) -> (r: bool)
        ensures
            r == (needs_write != old(self)@.write_interest),
            final(self)@ == (LoopView { write_interest: needs_write, ..old(self)@ }),
    {
        let changed = needs_write != self.write_interest;
        self.write_interest = needs_write;
        changed
    }

    /// Ends the loop. Returns whether the device is still registered and must
    /// be deregistered before the loop hands its state back.
    pub fn finish(&mut self) -> (r: bool)
        ensures
            (final(self)@, r) == spec_finish(old(self)@),
    {
        let was = self.registered;
        self.stopped = true;
        self.registered = false;
        was
    }
}

/// Single flush per quiet period: when a synchronized update is pending and
/// nothing arrives, the first quiet wake flushes, and no later quiet wake
/// flushes again until events or messages arrive.
pub proof fn law_single_flush_per_quiet_period(v: LoopView, sync_pending: bool)
    requires
        !v.stopped,
    ensures
        sync_pending && !v.flushed ==> spec_wake(v, false, false, sync_pending).1
            == WakeStep::FlushSync,
        spec_wake(v, false, false, sync_pending).1 == WakeStep::FlushSync ==> forall|
            syncs: Seq<bool>,
            n: nat,
        |
            #[trigger] spec_quiet_wakes(spec_wake(v, false, false, sync_pending).0, syncs, n)
                == WakeStep::Idle,
{
    let w = spec_wake(v, false, false, sync_pending).0;
    if spec_wake(v, false, false, sync_pending).1 == WakeStep::FlushSync {
        assert forall|syncs: Seq<bool>, n: nat| #[trigger]
            spec_quiet_wakes(w, syncs, n) == WakeStep::Idle by {
            lemma_quiet_wakes_idle(w, syncs, n);
        }
    }
}

/// The step taken on the `n`-th of a run of quiet wakes, the `i`-th with
/// `syncs[i]` as its synchronized-update flag.
pub open spec fn spec_quiet_wakes(v: LoopView, syncs: Seq<bool>, n: nat) -> WakeStep
    decreases n,
{
    if n == 0 {
        spec_wake(v, false, false, syncs[0]).1
    } else {
        spec_quiet_wakes(spec_wake(v, false, false, syncs[0]).0, syncs.drop_first(), (n - 1) as nat)
    }
}

proof fn lemma_quiet_wakes_idle(v: LoopView, syncs: Seq<bool>, n: nat)
    requires
        v.flushed,
        !v.stopped,
    ensures
        spec_quiet_wakes(v, syncs, n) == WakeStep::Idle,
    decreases n,
{
    if n > 0 {
        lemma_quiet_wakes_idle(spec_wake(v, false, false, syncs[0]).0, syncs.drop_first(), (n - 1) as nat);
    }
}

/// Shutdown drains interests: once a shutdown is observed, every wake
/// stops the loop and no event leads to a read or a write, whatever
/// arrives; ending the loop then deregisters the device exactly when it is
/// registered, and leaves nothing registered.
pub proof fn law_shutdown_stops_io(v: LoopView)
    ensures
        spec_shutdown(v).stopped,
        forall|e: bool, m: bool, s: bool| #[trigger]
            spec_wake(spec_shutdown(v), e, m, s) == (spec_shutdown(v), WakeStep::Stop),
        forall|d: bool, rd: bool, wr: bool| #[trigger]
            spec_event(spec_shutdown(v), d, rd, wr) == EventAction::Ignore,
        spec_finish(spec_shutdown(v)).1 == v.registered,
        !spec_finish(spec_shutdown(v)).0.registered,
{
}

} // verus!

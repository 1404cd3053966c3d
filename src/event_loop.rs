//! The frame scheduler as a state machine. The driver performs each command
//! (poll input, offer an event, read the clock, run an update, render) and
//! reports what happened; the machine decides what comes next.
use crate::clock::{elapsed_between, lag_after, updates_due, ClockView, FrameClock};
use crate::config::GameConfig;
use crate::errors::EngineError;
use crate::input::timeout_nanos;
use crate::time::TimeSpan;
use vstd::prelude::*;

verus! {

/// What the driver must do next.
#[derive(Clone, Copy, Debug, PartialEq, Eq, Structural)]
pub enum Command {
    /// Poll for input for at most `timeout`, drain the queue, report `Polled`.
    Poll { timeout: TimeSpan },
    /// Offer event `index` of the drained batch to the state, report `Handled`.
    Dispatch { index: usize },
    /// Read the clock (time since the loop started), report `Clock`.
    SampleClock,
    /// Advance the state by one timestep `dt`, report `Updated`.
    Update { dt: TimeSpan },
    /// Clear, render and flush a frame, report `Rendered`.
    Render,
    /// Stop: the state asked to exit.
    Exit,
}

/// What the driver reports after performing a command.
#[derive(Clone, Copy, Debug, PartialEq, Eq, Structural)]
pub enum Signal {
    Polled { events: usize },
    Handled { exit: bool },
    Clock { now: TimeSpan },
    Updated,
    Rendered,
}

/// Which report the machine is waiting for.
#[derive(Clone, Copy, Debug, PartialEq, Eq, Structural)]
pub enum Phase {
    AwaitPoll,
    AwaitHandled,
    AwaitClock,
    AwaitUpdate,
    AwaitRender,
    Stopped,
}

/// What an event loop holds.
pub ghost struct LoopView {
    pub phase: Phase,
    /// Events drained by the last poll.
    pub batch: nat,
    /// The event being offered.
    pub next: nat,
    /// Updates still to run in this iteration, the one being run included.
    pub pending: nat,
    pub clock: ClockView,
    /// Poll timeout, in nanoseconds.
    pub timeout: nat,
}

/// Whether the machine, in the state `v`, takes the report `s`.
pub open spec fn accepts(v: LoopView, s: Signal) -> bool {
    match s {
        Signal::Polled { .. } => v.phase == Phase::AwaitPoll,
        Signal::Handled { .. } => v.phase == Phase::AwaitHandled,
        Signal::Clock { .. } => v.phase == Phase::AwaitClock,
        Signal::Updated => v.phase == Phase::AwaitUpdate,
        Signal::Rendered => v.phase == Phase::AwaitRender,
    }
}

/// The command the machine issues in the state `v`.
pub open spec fn command_of(v: LoopView) -> Command {
    match v.phase {
        Phase::AwaitPoll => Command::Poll { timeout: TimeSpan { nanos: v.timeout as u64 } },
        Phase::AwaitHandled => Command::Dispatch { index: v.next as usize },
        Phase::AwaitClock => Command::SampleClock,
        Phase::AwaitUpdate => Command::Update { dt: TimeSpan { nanos: v.clock.frame as u64 } },
        Phase::AwaitRender => Command::Render,
        Phase::Stopped => Command::Exit,
    }
}

/// The state after the report `s`, which the state `v` accepts.
pub open spec fn stepped(v: LoopView, s: Signal) -> LoopView {
    match s {
        Signal::Polled { events } => if events > 0 {
            LoopView { phase: Phase::AwaitHandled, batch: events as nat, next: 0, ..v }
        } else {
            LoopView { phase: Phase::AwaitClock, batch: 0, next: 0, ..v }
        },
        Signal::Handled { exit } => if exit {
            LoopView { phase: Phase::Stopped, ..v }
        } else if v.next + 1 < v.batch {
            LoopView { next: v.next + 1, ..v }
        } else {
            LoopView { phase: Phase::AwaitClock, ..v }
        },
        Signal::Clock { now } => {
            let e = elapsed_between(v.clock.previous, now.nanos as nat);
            let due = updates_due(v.clock.lag, e, v.clock.max_frame_time, v.clock.frame);
            let clock = ClockView {
                previous: now.nanos as nat,
                lag: lag_after(v.clock.lag, e, v.clock.max_frame_time, v.clock.frame),
                ..v.clock
            };
            if due > 0 {
                LoopView { phase: Phase::AwaitUpdate, pending: due, clock, ..v }
            } else {
                LoopView { phase: Phase::AwaitRender, pending: 0, clock, ..v }
            }
        },
        Signal::Updated => if v.pending > 1 {
            LoopView { pending: (v.pending - 1) as nat, ..v }
        } else {
            LoopView { phase: Phase::AwaitRender, pending: 0, ..v }
        },
        Signal::Rendered => LoopView { phase: Phase::AwaitPoll, ..v },
    }
}

/// The scheduler of one run: a frame clock, the poll timeout, and where the
/// current iteration stands.
pub struct EventLoop {
    clock: FrameClock,
    timeout: TimeSpan,
    phase: Phase,
    batch: usize,
    next: usize,
    pending: u64,
}

impl View for EventLoop {
    type V = LoopView;

    closed spec fn view(&self) -> LoopView {
        LoopView {
            phase: self.phase,
            batch: self.batch as nat,
            next: self.next as nat,
            pending: self.pending as nat,
            clock: self.clock@,
            timeout: self.timeout.nanos as nat,
        }
    }
}

impl EventLoop {
    /// The machine's own consistency: a frame lasts at least a nanosecond, the
    /// event being offered lies in the batch, and an update is pending while
    /// updates are being run.
    pub closed spec fn wf(&self) -> bool {
        &&& self.clock@.frame > 0
        &&& self.clock@.lag < self.clock@.frame
        &&& (self.phase == Phase::AwaitHandled ==> self.next < self.batch)
        &&& (self.phase == Phase::AwaitUpdate ==> self.pending > 0)
    }

    /// Validates the configuration and, only if it is valid, builds a loop
    /// that starts by polling for input with no lag.
    pub fn new(config: &GameConfig) -> (r: Result<EventLoop, EngineError>)
        ensures
            r is Ok <==> config.is_valid(),
            r is Err ==> r->Err_0 is Config,
            r is Ok ==> r->Ok_0.wf() && r->Ok_0@ == (LoopView {
                phase: Phase::AwaitPoll,
                batch: 0,
                next: 0,
                pending: 0,
                clock: ClockView {
                    previous: 0,
                    lag: 0,
                    frame: config.frame_nanos(),
                    max_frame_time: config.max_frame_time.nanos as nat,
                },
                timeout: timeout_nanos(config.input_strategy),
            }),
    {
        match config.validate() {
            Ok(()) => {},
            Err(e) => return Err(e),
        }
        let clock = FrameClock::from_config(config);
        Ok(EventLoop {
            clock,
            timeout: config.input_strategy.timeout(),
            phase: Phase::AwaitPoll,
            batch: 0,
            next: 0,
            pending: 0,
        })
    }

    /// Whether the machine takes the report `s` now.
    pub fn accepts(&self, s: Signal) -> (r: bool)
        ensures
            r == accepts(self@, s),
    {
        match s {
            Signal::Polled { .. } => self.phase == Phase::AwaitPoll,
            Signal::Handled { .. } => self.phase == Phase::AwaitHandled,
            Signal::Clock { .. } => self.phase == Phase::AwaitClock,
            Signal::Updated => self.phase == Phase::AwaitUpdate,
            Signal::Rendered => self.phase == Phase::AwaitRender,
        }
    }

    /// The command to perform now.
    pub fn command(&self) -> (r: Command)
        requires
            self.wf(),
        ensures
            r == command_of(self@),
    {
        match self.phase {
            Phase::AwaitPoll => Command::Poll { timeout: self.timeout },
            Phase::AwaitHandled => Command::Dispatch { index: self.next },
            Phase::AwaitClock => Command::SampleClock,
            Phase::AwaitUpdate => Command::Update { dt: self.clock.frame() },
            Phase::AwaitRender => Command::Render,
            Phase::Stopped => Command::Exit,
        }
    }

    /// Takes the report of the command just performed and returns the next
    /// command.
    pub fn step(&mut self, s: Signal) -> (r: Command)
        requires
            old(self).wf(),
            accepts(old(self)@, s),
        ensures
            final(self).wf(),
            final(self)@ == stepped(old(self)@, s),
            r == command_of(final(self)@),
    {
        match s {
            Signal::Polled { events } => {
                self.batch = events;
                self.next = 0;
                if events > 0 {
                    self.phase = Phase::AwaitHandled;
                } else {
                    self.phase = Phase::AwaitClock;
                }
            },
            Signal::Handled { exit } => {
                if exit {
                    self.phase = Phase::Stopped;
                } else if self.next + 1 < self.batch {
                    self.next = self.next + 1;
                } else {
                    self.phase = Phase::AwaitClock;
                }
            },
            Signal::Clock { now } => {
                let due = self.clock.tick(now);
                self.pending = due;
                if due > 0 {
                    self.phase = Phase::AwaitUpdate;
                } else {
                    self.phase = Phase::AwaitRender;
                }
            },
            Signal::Updated => {
                if self.pending > 1 {
                    self.pending = self.pending - 1;
                } else {
                    self.pending = 0;
                    self.phase = Phase::AwaitRender;
                }
            },
            Signal::Rendered => {
                self.phase = Phase::AwaitPoll;
            },
        }
        self.command()
    }
}

/// The state after the reports `rs` for successive offered events.
pub open spec fn after_handled(v: LoopView, rs: Seq<bool>) -> LoopView
    decreases rs.len(),
{
    if rs.len() == 0 {
        v
    } else {
        stepped(after_handled(v, rs.drop_last()), Signal::Handled { exit: rs.last() })
    }
}

/// The state after `n` reports of a finished update.
pub open spec fn after_updates(v: LoopView, n: nat) -> LoopView
    decreases n,
{
    if n == 0 {
        v
    } else {
        stepped(after_updates(v, (n - 1) as nat), Signal::Updated)
    }
}

proof fn lemma_declined_prefix(v: LoopView, rs: Seq<bool>, i: nat)
    requires
        v.phase == Phase::AwaitHandled,
        i <= rs.len(),
        v.next + i < v.batch,
        forall|j: int| 0 <= j < i ==> !rs[j],
    ensures
        after_handled(v, rs.take(i as int)) == (LoopView { next: v.next + i, ..v }),
    decreases i,
{
    if i > 0 {
        lemma_declined_prefix(v, rs, (i - 1) as nat);
        assert(rs.take(i as int).drop_last() =~= rs.take(i - 1));
    }
}

/// Events drained by one poll are offered one at a time, in the order they
/// arrived. While the state declines to exit, the next event is offered; once
/// the whole batch is declined, the loop goes on to read the clock; the first
/// event on which the state asks to exit stops the loop, and a stopped loop
/// takes no further report, so no later event is offered.
pub proof fn events_offered_in_order(v: LoopView, rs: Seq<bool>)
    requires
        v.phase == Phase::AwaitHandled,
        v.next == 0,
        0 < rs.len() <= v.batch,
        forall|j: int| 0 <= j < rs.len() - 1 ==> !rs[j],
    ensures
        forall|i: int|
            0 <= i < rs.len() ==> accepts(after_handled(v, rs.take(i)), Signal::Handled { exit: rs[i] })
                && command_of(#[trigger] after_handled(v, rs.take(i))) == (Command::Dispatch { index: i as usize }),
        rs.last() ==> after_handled(v, rs).phase == Phase::Stopped && command_of(after_handled(v, rs))
            == Command::Exit && forall|s: Signal| !accepts(after_handled(v, rs), s),
        !rs.last() && rs.len() < v.batch ==> command_of(after_handled(v, rs)) == (Command::Dispatch {
            index: rs.len() as usize,
        }),
        !rs.last() && rs.len() == v.batch ==> after_handled(v, rs).phase == Phase::AwaitClock,
{
    assert forall|i: int|
        0 <= i < rs.len() implies accepts(after_handled(v, rs.take(i)), Signal::Handled { exit: rs[i] })
            && command_of(#[trigger] after_handled(v, rs.take(i))) == (Command::Dispatch { index: i as usize }) by {
        lemma_declined_prefix(v, rs, i as nat);
    }
    let n = (rs.len() - 1) as nat;
    lemma_declined_prefix(v, rs, n);
    assert(rs.take(n as int) =~= rs.drop_last());
}

proof fn lemma_updates_prefix(v: LoopView, i: nat)
    requires
        v.phase == Phase::AwaitUpdate,
        i < v.pending,
    ensures
        after_updates(v, i) == (LoopView { pending: (v.pending - i) as nat, ..v }),
    decreases i,
{
    if i > 0 {
        lemma_updates_prefix(v, (i - 1) as nat);
    }
}

/// Once the clock is read, the loop issues one update per whole timestep of
/// accumulated lag, each of one timestep, and then renders.
pub proof fn one_update_per_timestep(v: LoopView, now: TimeSpan)
    requires
        v.phase == Phase::AwaitClock,
        v.clock.frame > 0,
    ensures
        ({
            let w = stepped(v, Signal::Clock { now });
            let n = updates_due(
                v.clock.lag,
                elapsed_between(v.clock.previous, now.nanos as nat),
                v.clock.max_frame_time,
                v.clock.frame,
            );
            &&& forall|i: nat|
                i < n ==> accepts(#[trigger] after_updates(w, i), Signal::Updated) && command_of(
                    after_updates(w, i),
                ) == (Command::Update { dt: TimeSpan { nanos: v.clock.frame as u64 } })
            &&& after_updates(w, n).phase == Phase::AwaitRender
        }),
{
    let w = stepped(v, Signal::Clock { now });
    let n = updates_due(
        v.clock.lag,
        elapsed_between(v.clock.previous, now.nanos as nat),
        v.clock.max_frame_time,
        v.clock.frame,
    );
    assert forall|i: nat|
        i < n implies accepts(#[trigger] after_updates(w, i), Signal::Updated) && command_of(after_updates(w, i))
            == (Command::Update { dt: TimeSpan { nanos: v.clock.frame as u64 } }) by {
        lemma_updates_prefix(w, i);
    }
    if n > 0 {
        lemma_updates_prefix(w, (n - 1) as nat);
    }
}

} // verus!

use crate::app_config::AppConfig;
use crate::event::{Event, LifecycleEvent, Tick};
use crate::guest::GuestCall;
use vstd::prelude::*;

verus! {

/// Where a run stands. While the run is under way the phase is also the
/// scheduler's request to the host: what the host is to do next, and which
/// event it is to report.
#[derive(Clone, Copy, Debug, PartialEq, Eq)]
pub enum Phase {
    /// The run has not begun; the host reports `Event::Start`.
    Created,
    /// The host asks the guest's `cancel_poll` and reports `Event::Cancel`.
    Polling,
    /// The host pulls the next tick of the render and update source and
    /// reports `Event::Tick`.
    Draining,
    /// Within an update tick: the host receives from the lifecycle channel
    /// without waiting and reports `Event::Polled`.
    Receiving,
    /// The focus is lost: the host blocks on the lifecycle channel and reports
    /// `Event::Received`.
    Paused,
    /// The frame budget is used up; the run has returned.
    Done,
    /// The guest asked to stop; the run has returned.
    Cancelled,
    /// The lifecycle channel closed during a pause; the run has failed.
    Failed,
}

/// The scheduler as a mathematical value: the model of an `AppContainer`.
pub struct Scheduler {
    /// The policy that the run follows.
    pub config: AppConfig,
    /// The drawable size last committed; `(0, 0)` while none is.
    pub window_size: (usize, usize),
    /// Whether a drawable size is committed: none is until the first render
    /// tick has reached a drain.
    pub size_committed: bool,
    /// Whether the drain under way has met a render tick.
    pub rendered: bool,
    /// How many frames of the budget are completed.
    pub frames_done: nat,
    /// Where the run stands.
    pub phase: Phase,
}

impl Scheduler {
    /// The scheduler before its run, for the policy `config`.
    pub open spec fn init(config: AppConfig) -> Scheduler {
        Scheduler {
            config,
            window_size: (0, 0),
            size_committed: false,
            rendered: false,
            frames_done: 0,
            phase: Phase::Created,
        }
    }

    /// The run is under way: begun and not yet ended.
    pub open spec fn running(self) -> bool {
        self.phase is Polling || self.phase is Draining || self.phase is Receiving
            || self.phase is Paused
    }

    /// The run has ended, by its budget, by the guest's wish or by failure.
    pub open spec fn ended(self) -> bool {
        self.phase is Done || self.phase is Cancelled || self.phase is Failed
    }

    /// A drain is under way, or was when the run failed.
    pub open spec fn in_drain(self) -> bool {
        self.phase is Draining || self.phase is Receiving || self.phase is Paused
            || self.phase is Failed
    }

    /// The reported size answers the committed one: it differs from it, or
    /// none is committed yet. A render tick of such a size is announced to the
    /// guest in place of a draw.
    pub open spec fn resized(self, width: usize, height: usize) -> bool {
        !self.size_committed || (width, height) != self.window_size
    }

    /// The frame count agrees with the budget: it is zero before the run,
    /// never exceeds the budget, stays below it while the run is under way,
    /// and stays zero without a budget. While no size is committed the size
    /// on record is `(0, 0)`.
    pub open spec fn wf(self) -> bool {
        &&& !self.size_committed ==> self.window_size == (0usize, 0usize)
        &&& self.phase is Created ==> self.frames_done == 0
        &&& match self.config.num_frames {
            Some(n) => self.frames_done <= n && (self.running() ==> self.frames_done < n),
            None => self.frames_done == 0,
        }
    }

    /// The scheduler after a drain has ended. A drain that rendered completes
    /// one frame of the budget, and the last frame ends the run; without a
    /// budget nothing is counted.
    pub open spec fn drained(self) -> Scheduler {
        match self.config.num_frames {
            Some(n) if self.rendered => Scheduler {
                rendered: false,
                frames_done: self.frames_done + 1,
                phase: if self.frames_done + 1 >= n { Phase::Done } else { Phase::Polling },
                ..self
            },
            _ => Scheduler { rendered: false, phase: Phase::Polling, ..self },
        }
    }

    /// The scheduler after the host has reported `event`. An event that does
    /// not answer the phase changes nothing.
    pub open spec fn step<M, E>(self, event: Event<M, E>) -> Scheduler {
        match (self.phase, event) {
            (Phase::Created, Event::Start) => Scheduler {
                phase: if self.config.num_frames == Some(0usize) { Phase::Done } else { Phase::Polling },
                ..self
            },
            (Phase::Polling, Event::Cancel(true)) => Scheduler { phase: Phase::Cancelled, ..self },
            (Phase::Polling, Event::Cancel(false)) => Scheduler {
                rendered: false,
                phase: Phase::Draining,
                ..self
            },
            (Phase::Draining, Event::Tick(Some(Tick::Render { width, height }))) => Scheduler {
                window_size: (width, height),
                size_committed: true,
                rendered: true,
                ..self
            },
            (Phase::Draining, Event::Tick(Some(Tick::Update))) => Scheduler {
                phase: Phase::Receiving,
                ..self
            },
            (Phase::Draining, Event::Tick(None)) => self.drained(),
            (Phase::Receiving, Event::Polled(Some(LifecycleEvent::LostFocus))) => Scheduler {
                phase: Phase::Paused,
                ..self
            },
            (Phase::Receiving, Event::Polled(None)) => Scheduler { phase: Phase::Draining, ..self },
            (Phase::Paused, Event::Received(Ok(LifecycleEvent::GainedFocus))) => Scheduler {
                phase: Phase::Draining,
                ..self
            },
            (Phase::Paused, Event::Received(Err(_))) => Scheduler { phase: Phase::Failed, ..self },
            _ => self,
        }
    }

    /// The calls owed to the guest, in order, when the host reports `event`.
    pub open spec fn calls<M, E>(self, event: Event<M, E>) -> Seq<GuestCall<M, E>> {
        match (self.phase, event) {
            (Phase::Created, Event::Start) => if self.config.reset_on_start {
                seq![GuestCall::ResetOnStart]
            } else {
                Seq::empty()
            },
            (Phase::Draining, Event::Tick(Some(Tick::Render { width, height }))) => if self.resized(
                width,
                height,
            ) {
                seq![GuestCall::OnSizeChange { new_size: (width, height), old_size: self.window_size }]
            } else {
                seq![GuestCall::Draw]
            },
            (Phase::Receiving, Event::Polled(Some(LifecycleEvent::Motion(motion)))) => seq![
                GuestCall::Motion(motion),
            ],
            (Phase::Receiving, Event::Polled(Some(LifecycleEvent::LostFocus))) => seq![
                GuestCall::SignalPauseChange,
            ],
            (Phase::Receiving, Event::Polled(Some(other))) => seq![GuestCall::Handle(other)],
            (Phase::Receiving, Event::Polled(None)) => seq![GuestCall::Update],
            (Phase::Paused, Event::Received(Ok(LifecycleEvent::GainedFocus))) => seq![
                GuestCall::SignalPauseChange,
                GuestCall::Refresh,
                GuestCall::Update,
            ],
            _ => Seq::empty(),
        }
    }

    /// The scheduler after the host has reported all of `events` in turn.
    pub open spec fn after<M, E>(self, events: Seq<Event<M, E>>) -> Scheduler
        decreases events.len(),
    {
        if events.len() == 0 {
            self
        } else {
            self.after(events.drop_last()).step(events.last())
        }
    }

    /// Every call owed to the guest while the host reports `events`, in order.
    pub open spec fn trace<M, E>(self, events: Seq<Event<M, E>>) -> Seq<GuestCall<M, E>>
        decreases events.len(),
    {
        if events.len() == 0 {
            Seq::empty()
        } else {
            self.trace(events.drop_last()) + self.after(events.drop_last()).calls(events.last())
        }
    }

    /// How many render ticks of `events` came to a drain that had met a render
    /// tick before.
    pub open spec fn surplus_renders<M, E>(self, events: Seq<Event<M, E>>) -> nat
        decreases events.len(),
    {
        if events.len() == 0 {
            0
        } else {
            let before = self.after(events.drop_last());
            self.surplus_renders(events.drop_last()) + if before.phase is Draining
                && before.rendered && events.last().is_render() {
                1nat
            } else {
                0nat
            }
        }
    }

    /// How many times the guest, asked by `cancel_poll`, let the run go on.
    pub open spec fn polls_refused<M, E>(self, events: Seq<Event<M, E>>) -> nat
        decreases events.len(),
    {
        if events.len() == 0 {
            0
        } else {
            let before = self.after(events.drop_last());
            self.polls_refused(events.drop_last()) + if before.phase is Polling && events.last()
                == Event::<M, E>::Cancel(false) {
                1nat
            } else {
                0nat
            }
        }
    }

    /// How many drains came to their end.
    pub open spec fn drains_ended<M, E>(self, events: Seq<Event<M, E>>) -> nat
        decreases events.len(),
    {
        if events.len() == 0 {
            0
        } else {
            let before = self.after(events.drop_last());
            self.drains_ended(events.drop_last()) + if before.phase is Draining && events.last()
                == Event::<M, E>::Tick(None) {
                1nat
            } else {
                0nat
            }
        }
    }
}

} // verus!

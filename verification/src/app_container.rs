use crate::app_config::AppConfig;
use crate::event::{Disconnected, Event, LifecycleEvent, Tick};
use crate::guest::GuestCall;
use crate::scheduler::{Phase, Scheduler};
use vstd::prelude::*;

verus! {

/// The frame scheduler of one run.
///
/// It holds no window, no channel and no guest: the host reports what
/// happens, one `Event` at a time, and gets back the calls that it owes to the
/// guest. The container's phase tells the host what to do next.
pub struct AppContainer {
    config: AppConfig,
    window_size: (usize, usize),
    size_committed: bool,
    rendered: bool,
    frames_done: usize,
    phase: Phase,
}

impl View for AppContainer {
    type V = Scheduler;

    closed spec fn view(&self) -> Scheduler {
        Scheduler {
            config: self.config,
            window_size: self.window_size,
            size_committed: self.size_committed,
            rendered: self.rendered,
            frames_done: self.frames_done as nat,
            phase: self.phase,
        }
    }
}

impl AppContainer {
    #[verifier::type_invariant]
    spec fn valid(self) -> bool {
        self@.wf()
    }

    /// A scheduler for the policy `config`, before its run: no drawable size
    /// is committed yet, so the first render tick is a change of size from
    /// `(0, 0)`, whatever size it reports.
    pub fn init(config: AppConfig) -> (container: Self)
        ensures
            container@ == Scheduler::init(config),
            container@.wf(),
    {
        AppContainer {
            config,
            window_size: (0, 0),
            size_committed: false,
            rendered: false,
            frames_done: 0,
            phase: Phase::Created,
        }
    }

    /// Where the run stands, and with it what the host is to do next.
    pub fn phase(&self) -> (phase: Phase)
        ensures
            phase == self@.phase,
    {
        self.phase
    }

    /// The drawable size last committed, and `(0, 0)` while none is.
    pub fn window_size(&self) -> (size: (usize, usize))
        ensures
            size == self@.window_size,
    {
        self.window_size
    }

    /// How many frames of the budget are completed.
    pub fn frames_done(&self) -> (frames: usize)
        ensures
            frames == self@.frames_done,
    {
        self.frames_done
    }

    /// Takes the run one step on: the host reports `event`, the scheduler
    /// moves as `Scheduler::step` says and returns the calls that the host now
    /// owes to the guest, in order. An event that does not answer the phase is
    /// passed over: nothing changes and no call is owed.
    pub fn run<M, E>(&mut self, event: Event<M, E>) -> (calls: Vec<GuestCall<M, E>>)
        ensures
            final(self)@ == old(self)@.step(event),
            calls@ == old(self)@.calls(event),
            final(self)@.wf(),
    {
        let calls = match event {
            Event::Start => self.start(),
            Event::Cancel(cancel) => self.cancel_polled(cancel),
            Event::Tick(tick) => self.poll_event_loop(tick),
            Event::Polled(polled) => self.poll_android_events(polled),
            Event::Received(received) => self.wait_until_gain_focus(received),
        };
        proof {
            use_type_invariant(&*self);
        }
        calls
    }

    /// The beginning of the run: the reset that the policy asks for, and an
    /// end at once where the budget is zero frames.
    fn start<M, E>(&mut self) -> (calls: Vec<GuestCall<M, E>>)
        ensures
            final(self)@ == old(self)@.step(Event::<M, E>::Start),
            calls@ == old(self)@.calls(Event::<M, E>::Start),
    {
        proof {
            use_type_invariant(&*self);
        }
        let mut calls = Vec::new();
        match self.phase {
            Phase::Created => {
                if self.config.reset_on_start {
                    calls.push(GuestCall::ResetOnStart);
                }
                match self.config.num_frames {
                    Some(0) => {
                        self.phase = Phase::Done;
                    },
                    _ => {
                        self.phase = Phase::Polling;
                    },
                }
            },
            _ => {},
        }
        calls
    }

    /// The guest's answer to `cancel_poll`: a wish to stop ends the run, and
    /// anything else opens a drain of the render and update source.
    fn cancel_polled<M, E>(&mut self, cancel: bool) -> (calls: Vec<GuestCall<M, E>>)
        ensures
            final(self)@ == old(self)@.step(Event::<M, E>::Cancel(cancel)),
            calls@ == old(self)@.calls(Event::<M, E>::Cancel(cancel)),
    {
        proof {
            use_type_invariant(&*self);
        }
        match self.phase {
            Phase::Polling => {
                if cancel {
                    self.phase = Phase::Cancelled;
                } else {
                    self.rendered = false;
                    self.phase = Phase::Draining;
                }
            },
            _ => {},
        }
        Vec::new()
    }

    /// One tick of a drain: a render tick is drawn, an update tick opens the
    /// round of lifecycle events, and the end of the source ends the drain.
    fn poll_event_loop<M, E>(&mut self, tick: Option<Tick>) -> (calls: Vec<GuestCall<M, E>>)
        ensures
            final(self)@ == old(self)@.step(Event::<M, E>::Tick(tick)),
            calls@ == old(self)@.calls(Event::<M, E>::Tick(tick)),
    {
        proof {
            use_type_invariant(&*self);
        }
        let mut calls = Vec::new();
        match self.phase {
            Phase::Draining => match tick {
                Some(Tick::Render { width, height }) => {
                    let call = self.draw(width, height);
                    self.rendered = true;
                    calls.push(call);
                },
                Some(Tick::Update) => {
                    self.phase = Phase::Receiving;
                },
                Some(Tick::Other) => {},
                None => {
                    self.end_drain();
                },
            },
            _ => {},
        }
        calls
    }

    /// The draw step for a drawable of `width` by `height`: the first size,
    /// and any size other than the committed one, is announced and committed
    /// in place of a draw.
    fn draw<M, E>(&mut self, width: usize, height: usize) -> (call: GuestCall<M, E>)
        ensures
            final(self)@ == (Scheduler {
                window_size: (width, height),
                size_committed: true,
                ..old(self)@
            }),
            call == if old(self)@.resized(width, height) {
                GuestCall::<M, E>::OnSizeChange {
                    new_size: (width, height),
                    old_size: old(self)@.window_size,
                }
            } else {
                GuestCall::<M, E>::Draw
            },
    {
        proof {
            use_type_invariant(&*self);
        }
        let old_size = self.window_size;
        if !self.size_committed || old_size.0 != width || old_size.1 != height {
            self.size_committed = true;
            self.window_size = (width, height);
            GuestCall::OnSizeChange { new_size: (width, height), old_size }
        } else {
            GuestCall::Draw
        }
    }

    /// The end of a drain: a drain that rendered completes one frame of the
    /// budget, and the last frame ends the run.
    fn end_drain(&mut self)
        requires
            old(self)@.phase is Draining,
        ensures
            final(self)@ == old(self)@.drained(),
    {
        proof {
            use_type_invariant(&*self);
        }
        let rendered = self.rendered;
        self.rendered = false;
        match self.config.num_frames {
            Some(budget) => {
                if rendered {
                    if self.frames_done + 1 >= budget {
                        self.phase = Phase::Done;
                        self.frames_done = self.frames_done + 1;
                    } else {
                        self.frames_done = self.frames_done + 1;
                        self.phase = Phase::Polling;
                    }
                } else {
                    self.phase = Phase::Polling;
                }
            },
            None => {
                self.phase = Phase::Polling;
            },
        }
    }

    /// One lifecycle event of an update tick, received without waiting: a
    /// motion and any other notification go to the guest, a loss of focus
    /// opens the pause, and an empty channel lets the guest update.
    fn poll_android_events<M, E>(&mut self, polled: Option<LifecycleEvent<M, E>>) -> (calls: Vec<
        GuestCall<M, E>,
    >)
        ensures
            final(self)@ == old(self)@.step(Event::Polled(polled)),
            calls@ == old(self)@.calls(Event::Polled(polled)),
    {
        proof {
            use_type_invariant(&*self);
        }
        let mut calls = Vec::new();
        match self.phase {
            Phase::Receiving => match polled {
                Some(LifecycleEvent::Motion(motion)) => {
                    calls.push(GuestCall::Motion(motion));
                },
                Some(LifecycleEvent::LostFocus) => {
                    self.phase = Phase::Paused;
                    calls.push(GuestCall::SignalPauseChange);
                },
                Some(other) => {
                    calls.push(GuestCall::Handle(other));
                },
                None => {
                    self.phase = Phase::Draining;
                    calls.push(GuestCall::Update);
                },
            },
            _ => {},
        }
        calls
    }

    /// One lifecycle event of a pause, received by waiting: the return of the
    /// focus ends the pause and lets the guest update, a closed channel fails
    /// the run, and anything else is dropped.
    fn wait_until_gain_focus<M, E>(
        &mut self,
        received: Result<LifecycleEvent<M, E>, Disconnected>,
    ) -> (calls: Vec<GuestCall<M, E>>)
        ensures
            final(self)@ == old(self)@.step(Event::Received(received)),
            calls@ == old(self)@.calls(Event::Received(received)),
    {
        proof {
            use_type_invariant(&*self);
        }
        let mut calls = Vec::new();
        match self.phase {
            Phase::Paused => match received {
                Ok(LifecycleEvent::GainedFocus) => {
                    self.phase = Phase::Draining;
                    calls.push(GuestCall::SignalPauseChange);
                    calls.push(GuestCall::Refresh);
                    calls.push(GuestCall::Update);
                },
                Ok(_) => {},
                Err(_) => {
                    self.phase = Phase::Failed;
                },
            },
            _ => {},
        }
        calls
    }
}

} // verus!

use vstd::prelude::*;

verus! {

/// A notification of the platform about the application's lifecycle or input.
///
/// `M` is what a motion carries and `E` what any other notification carries;
/// the scheduler hands both on to the guest unread.
#[derive(Debug, PartialEq, Eq)]
pub enum LifecycleEvent<M, E> {
    /// The application has the focus again.
    GainedFocus,
    /// The application has lost the focus.
    LostFocus,
    /// A pointer moved.
    Motion(M),
    /// Any other notification.
    Other(E),
}

/// The producing end of the lifecycle channel is closed: no notification will
/// ever arrive again.
#[derive(Clone, Copy, Debug, PartialEq, Eq)]
pub struct Disconnected;

/// One event of the platform's render and update source.
#[derive(Clone, Copy, Debug, PartialEq, Eq)]
pub enum Tick {
    /// A frame is to be rendered on a drawable of this size.
    Render { width: usize, height: usize },
    /// The guest's state is to be advanced.
    Update,
    /// Anything else the source yields.
    Other,
}

/// What the host reports to the scheduler: its answer to the request that the
/// scheduler's phase stands for.
#[derive(Debug, PartialEq, Eq)]
pub enum Event<M, E> {
    /// The run is to begin.
    Start,
    /// What the guest's `cancel_poll` returned.
    Cancel(bool),
    /// What the render and update source yielded; `None` when it has nothing
    /// more for this drain.
    Tick(Option<Tick>),
    /// What a receive without waiting found on the lifecycle channel; `None`
    /// when nothing is queued, be the channel open or closed.
    Polled(Option<LifecycleEvent<M, E>>),
    /// What a blocking receive on the lifecycle channel returned.
    Received(Result<LifecycleEvent<M, E>, Disconnected>),
}

impl<M, E> Event<M, E> {
    /// The event is a render tick.
    pub open spec fn is_render(self) -> bool {
        self matches Event::Tick(Some(Tick::Render { .. }))
    }

    /// The event ends a pause: the focus has returned, or the lifecycle
    /// channel is closed.
    pub open spec fn ends_pause(self) -> bool {
        match self {
            Event::Received(Ok(LifecycleEvent::GainedFocus)) => true,
            Event::Received(Err(_)) => true,
            _ => false,
        }
    }

    /// The event is no render tick, or one for a drawable of `size`.
    pub open spec fn reports(self, size: (usize, usize)) -> bool {
        match self {
            Event::Tick(Some(Tick::Render { width, height })) => (width, height) == size,
            _ => true,
        }
    }
}

} // verus!

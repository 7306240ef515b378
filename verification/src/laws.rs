use crate::app_config::AppConfig;
use crate::event::{Event, LifecycleEvent, Tick};
use crate::guest::{
    announced, draws, lemma_announced_add, lemma_counts_none, lemma_draws_add, lemma_resizes_add,
    resizes, GuestCall,
};
use crate::scheduler::{Phase, Scheduler};
use vstd::prelude::*;

verus! {

/// A step keeps the policy, and keeps a well-formed scheduler well-formed.
pub proof fn law_step_keeps_wf<M, E>(m: Scheduler, event: Event<M, E>)
    requires
        m.wf(),
    ensures
        m.step(event).wf(),
        m.step(event).config == m.config,
{
}

/// Any number of steps keeps the policy, and keeps a well-formed scheduler
/// well-formed.
pub proof fn law_run_keeps_wf<M, E>(m: Scheduler, events: Seq<Event<M, E>>)
    requires
        m.wf(),
    ensures
        m.after(events).wf(),
        m.after(events).config == m.config,
    decreases events.len(),
{
    if events.len() > 0 {
        law_run_keeps_wf(m, events.drop_last());
        law_step_keeps_wf(m.after(events.drop_last()), events.last());
    }
}

/// What one step owes the guest in draws and in resize notices: a render tick
/// that reaches a drain is answered by exactly one of the two, a resize
/// notice where no size is committed yet or the size differs from the
/// committed one, and a draw where it does not; no other step owes either.
/// The committed size changes with a resize notice and with nothing else.
pub proof fn law_draw_or_resize<M, E>(m: Scheduler, event: Event<M, E>)
    ensures
        draws(m.calls(event)) == if m.phase is Draining && event.is_render() && m.size_committed
            && event.reports(m.window_size) {
            1nat
        } else {
            0nat
        },
        resizes(m.calls(event)) == if m.phase is Draining && event.is_render() && !(
        m.size_committed && event.reports(m.window_size)) {
            1nat
        } else {
            0nat
        },
        resizes(m.calls(event)) == 1 <==> m.step(event).window_size != m.window_size || m.step(
            event,
        ).size_committed != m.size_committed,
        resizes(m.calls(event)) == 1 ==> m.step(event).size_committed && m.calls(event) == seq![
            GuestCall::<M, E>::OnSizeChange {
                new_size: m.step(event).window_size,
                old_size: m.window_size,
            },
        ],
{
    reveal_with_fuel(draws, 4);
    reveal_with_fuel(resizes, 4);
}

/// A run that has ended stays as it is: whatever the host reports, the
/// scheduler does not move and owes the guest nothing.
pub proof fn law_ended_is_final<M, E>(m: Scheduler, events: Seq<Event<M, E>>)
    requires
        m.ended(),
    ensures
        m.after(events) == m,
        m.trace(events) == Seq::<GuestCall<M, E>>::empty(),
    decreases events.len(),
{
    if events.len() > 0 {
        law_ended_is_final(m, events.drop_last());
    }
}

/// The start-reset hook is called only where the policy asks for it, then
/// exactly once, and before any other call: it is the first call of the run.
pub proof fn law_reset_on_start<M, E>(config: AppConfig, events: Seq<Event<M, E>>)
    ensures
        ({
            let end = Scheduler::init(config).after(events);
            let trace = Scheduler::init(config).trace(events);
            &&& end.phase is Created ==> trace.len() == 0
            &&& !(end.phase is Created) && config.reset_on_start ==> trace.len() >= 1
                && trace[0] is ResetOnStart
            &&& forall|i: int|
                0 <= i < trace.len() && #[trigger] trace[i] is ResetOnStart ==> i == 0
                    && config.reset_on_start
        }),
    decreases events.len(),
{
    let start = Scheduler::init(config);
    if events.len() > 0 {
        law_reset_on_start(config, events.drop_last());
        law_run_keeps_wf(start, events.drop_last());
    }
}

/// Two render ticks in a row for a drawable of one size: whatever the first
/// is answered by, the size is committed after it, and the second is answered
/// by a draw and changes nothing.
pub proof fn law_resize_idempotent<M, E>(m: Scheduler, width: usize, height: usize)
    requires
        m.phase is Draining,
    ensures
        ({
            let tick = Event::<M, E>::Tick(Some(Tick::Render { width, height }));
            let first = m.step(tick);
            &&& first.size_committed
            &&& first.window_size == (width, height)
            &&& first.calls(tick) == seq![GuestCall::<M, E>::Draw]
            &&& first.step(tick) == first
        }),
{
}

/// The first render tick of a run is a change of size, whatever size it
/// reports: while no size is committed, a render tick that reaches a drain is
/// answered by a resize notice from `(0, 0)` and never by a draw.
pub proof fn law_first_frame_is_a_resize<M, E>(
    config: AppConfig,
    events: Seq<Event<M, E>>,
    width: usize,
    height: usize,
)
    requires
        !Scheduler::init(config).after(events).size_committed,
        Scheduler::init(config).after(events).phase is Draining,
    ensures
        draws(Scheduler::init(config).trace(events)) == 0,
        resizes(Scheduler::init(config).trace(events)) == 0,
        Scheduler::init(config).after(events).calls(
            Event::<M, E>::Tick(Some(Tick::Render { width, height })),
        ) == seq![
            GuestCall::<M, E>::OnSizeChange { new_size: (width, height), old_size: (0, 0) },
        ],
{
    law_run_keeps_wf(Scheduler::init(config), events);
    law_size_is_last_announced(config, events);
}

/// The committed size is the size last announced to the guest, and none is
/// committed while none was announced. A draw answers a render tick of the
/// committed size only, so the guest never draws before it was told of a
/// size, nor on another size than the one it was told of last.
pub proof fn law_size_is_last_announced<M, E>(config: AppConfig, events: Seq<Event<M, E>>)
    ensures
        ({
            let end = Scheduler::init(config).after(events);
            let trace = Scheduler::init(config).trace(events);
            &&& announced(trace) == if end.size_committed {
                Some(end.window_size)
            } else {
                None
            }
            &&& !end.size_committed ==> draws(trace) == 0 && resizes(trace) == 0
        }),
    decreases events.len(),
{
    let start = Scheduler::init(config);
    if events.len() > 0 {
        let front = events.drop_last();
        let before = start.after(front);
        let calls = before.calls(events.last());
        law_size_is_last_announced(config, front);
        law_draw_or_resize(before, events.last());
        lemma_announced_add(start.trace(front), calls);
        lemma_draws_add(start.trace(front), calls);
        lemma_resizes_add(start.trace(front), calls);
        reveal_with_fuel(announced, 2);
    }
}

/// Where every render tick of a run reports one and the same size, the guest
/// is told of a change of size exactly once, by the first render tick that
/// reaches a drain: from `(0, 0)` to that size, and before it draws for the
/// first time.
pub proof fn law_one_size_one_resize<M, E>(
    config: AppConfig,
    size: (usize, usize),
    events: Seq<Event<M, E>>,
)
    requires
        forall|i: int| 0 <= i < events.len() ==> (#[trigger] events[i]).reports(size),
    ensures
        ({
            let end = Scheduler::init(config).after(events);
            let trace = Scheduler::init(config).trace(events);
            &&& resizes(trace) == if end.size_committed { 1nat } else { 0nat }
            &&& end.size_committed ==> end.window_size == size
            &&& !end.size_committed ==> draws(trace) == 0
            &&& forall|i: int|
                0 <= i < trace.len() && #[trigger] trace[i] is OnSizeChange ==> trace[i]
                    == (GuestCall::<M, E>::OnSizeChange { new_size: size, old_size: (0, 0) })
            &&& forall|i: int, j: int|
                0 <= i < trace.len() && 0 <= j < trace.len() && #[trigger] trace[i] is OnSizeChange
                    && #[trigger] trace[j] is Draw ==> i < j
        }),
    decreases events.len(),
{
    let start = Scheduler::init(config);
    if events.len() > 0 {
        let front = events.drop_last();
        let before = start.after(front);
        let calls = before.calls(events.last());
        assert forall|i: int| 0 <= i < front.len() implies (#[trigger] front[i]).reports(size) by {
            assert(front[i] == events[i]);
        }
        law_one_size_one_resize(config, size, front);
        law_run_keeps_wf(start, front);
        law_draw_or_resize(before, events.last());
        lemma_draws_add(start.trace(front), calls);
        lemma_resizes_add(start.trace(front), calls);
        assert(events.last().reports(size));
        lemma_counts_none(start.trace(front));
    }
}

/// The frame budget counts drains that rendered. Under a budget of `n` frames
/// the count never passes `n`, and the run ends by its budget exactly when
/// `n` drains have rendered. Every render tick is answered by a draw or by a
/// resize notice, so the two together number the rendered drains and the
/// render ticks that came to a drain which had rendered before.
pub proof fn law_budget<M, E>(config: AppConfig, n: usize, events: Seq<Event<M, E>>)
    requires
        config.num_frames == Some(n),
    ensures
        ({
            let start = Scheduler::init(config);
            let end = start.after(events);
            let trace = start.trace(events);
            &&& end.frames_done <= n
            &&& end.phase is Done <==> end.frames_done == n && !(end.phase is Created)
            &&& end.rendered ==> end.in_drain()
            &&& draws(trace) + resizes(trace) == end.frames_done + start.surplus_renders(events)
                + if end.rendered { 1nat } else { 0nat }
            &&& end.phase is Done ==> draws(trace) + resizes(trace) == n + start.surplus_renders(
                events,
            )
        }),
    decreases events.len(),
{
    let start = Scheduler::init(config);
    if events.len() > 0 {
        let front = events.drop_last();
        let before = start.after(front);
        let calls = before.calls(events.last());
        law_budget(config, n, front);
        law_run_keeps_wf(start, front);
        law_draw_or_resize(before, events.last());
        lemma_draws_add(start.trace(front), calls);
        lemma_resizes_add(start.trace(front), calls);
    }
}

/// A run under a budget of `n` frames, whose guest never asks to stop, has
/// drawn exactly `n` times when it returns, provided that as many render
/// ticks came to a drain that had rendered before as were answered by a
/// resize notice; so it is where the first drain meets two render ticks and
/// every later drain one, all of one size.
pub proof fn law_budget_draws<M, E>(config: AppConfig, n: usize, events: Seq<Event<M, E>>)
    requires
        config.num_frames == Some(n),
        forall|i: int| 0 <= i < events.len() ==> #[trigger] events[i] != Event::<M, E>::Cancel(true),
        Scheduler::init(config).after(events).phase is Done || Scheduler::init(config).after(
            events,
        ).phase is Cancelled,
        Scheduler::init(config).surplus_renders(events) == resizes(
            Scheduler::init(config).trace(events),
        ),
    ensures
        Scheduler::init(config).after(events).phase is Done,
        draws(Scheduler::init(config).trace(events)) == n,
{
    if Scheduler::init(config).after(events).phase is Cancelled {
        law_cancelled_by_guest(Scheduler::init(config), events);
    }
    law_budget(config, n, events);
}

/// Once the guest answers `cancel_poll` with a wish to stop, the run is over
/// at once: the scheduler owes the guest nothing for that answer, nor for
/// anything that the host reports after it.
pub proof fn law_cancel_ends_run<M, E>(m: Scheduler, events: Seq<Event<M, E>>, i: int)
    requires
        0 <= i < events.len(),
        events[i] == Event::<M, E>::Cancel(true),
        m.after(events.take(i)).phase is Polling,
    ensures
        m.after(events) == (Scheduler { phase: Phase::Cancelled, ..m.after(events.take(i)) }),
        m.trace(events) == m.trace(events.take(i)),
    decreases events.len(),
{
    let front = events.drop_last();
    if i == events.len() - 1 {
        assert(front =~= events.take(i));
    } else {
        assert(front.take(i) =~= events.take(i));
        law_cancel_ends_run(m, front, i);
    }
    assert(m.trace(events) =~= m.trace(front));
}

/// A run is cancelled only by the guest: where it stands cancelled, some
/// `cancel_poll` of the run was answered with a wish to stop.
pub proof fn law_cancelled_by_guest<M, E>(m: Scheduler, events: Seq<Event<M, E>>)
    requires
        !(m.phase is Cancelled),
        m.after(events).phase is Cancelled,
    ensures
        exists|i: int|
            0 <= i < events.len() && #[trigger] events[i] == Event::<M, E>::Cancel(true)
                && m.after(events.take(i)).phase is Polling,
    decreases events.len(),
{
    let front = events.drop_last();
    if m.after(front).phase is Cancelled {
        law_cancelled_by_guest(m, front);
        let i = choose|i: int|
            0 <= i < front.len() && #[trigger] front[i] == Event::<M, E>::Cancel(true) && m.after(
                front.take(i),
            ).phase is Polling;
        assert(front.take(i) =~= events.take(i));
        assert(events[i] == Event::<M, E>::Cancel(true));
    } else {
        let i = events.len() - 1;
        assert(front =~= events.take(i));
        assert(events[i] == Event::<M, E>::Cancel(true));
    }
}

/// A pause is silent: until the focus returns or the lifecycle channel
/// closes, whatever the host reports is dropped, the scheduler stays paused
/// and owes the guest nothing.
pub proof fn law_pause_discards<M, E>(m: Scheduler, events: Seq<Event<M, E>>)
    requires
        m.phase is Paused,
        forall|i: int| 0 <= i < events.len() ==> !(#[trigger] events[i]).ends_pause(),
    ensures
        m.after(events) == m,
        m.trace(events) == Seq::<GuestCall<M, E>>::empty(),
    decreases events.len(),
{
    if events.len() > 0 {
        let front = events.drop_last();
        assert forall|i: int| 0 <= i < front.len() implies !(#[trigger] front[i]).ends_pause() by {
            assert(front[i] == events[i]);
        }
        law_pause_discards(m, front);
        assert(!events[events.len() - 1].ends_pause());
    }
}

/// The guest is handed for handling only what the scheduler does not act on
/// itself: never a motion, which has a call of its own, and never a loss of
/// focus.
pub proof fn law_handle_carries_the_rest<M, E>(m: Scheduler, event: Event<M, E>, i: int)
    requires
        0 <= i < m.calls(event).len(),
        m.calls(event)[i] is Handle,
    ensures
        event == Event::Polled(Some(m.calls(event)[i]->Handle_0)),
        m.calls(event)[i]->Handle_0 is GainedFocus || m.calls(event)[i]->Handle_0 is Other,
{
}

/// Without a frame budget the run never ends by itself: it is never done, and
/// it goes on until the guest asks to stop or the lifecycle channel fails.
pub proof fn law_unbounded_runs_on<M, E>(config: AppConfig, events: Seq<Event<M, E>>)
    requires
        config.num_frames is None,
    ensures
        !(Scheduler::init(config).after(events).phase is Done),
        Scheduler::init(config).after(events).frames_done == 0,
    decreases events.len(),
{
    if events.len() > 0 {
        law_unbounded_runs_on(config, events.drop_last());
        law_run_keeps_wf(Scheduler::init(config), events.drop_last());
    }
}

/// Every drain is opened by a `cancel_poll` of its own that let the run go on:
/// the drains that have ended, and the one under way, number the polls so
/// answered. So once the guest wishes to stop, no drain follows the one under
/// way.
pub proof fn law_one_poll_per_drain<M, E>(config: AppConfig, events: Seq<Event<M, E>>)
    ensures
        ({
            let start = Scheduler::init(config);
            start.polls_refused(events) == start.drains_ended(events) + if start.after(
                events,
            ).in_drain() {
                1nat
            } else {
                0nat
            }
        }),
    decreases events.len(),
{
    if events.len() > 0 {
        law_one_poll_per_drain(config, events.drop_last());
    }
}

} // verus!

use android_base::{
    AppConfig, AppContainer, Disconnected, Event, GuestCall, LifecycleEvent, Phase, Tick,
};
use std::collections::VecDeque;

type Notice = LifecycleEvent<&'static str, &'static str>;
type Call = GuestCall<&'static str, &'static str>;

/// A platform and a guest played from a script.
struct Script {
    /// What the render and update source yields, drain by drain.
    drains: VecDeque<Vec<Tick>>,
    /// The drain under way.
    drain: VecDeque<Tick>,
    /// What is queued on the lifecycle channel.
    channel: VecDeque<Notice>,
    /// The number of `cancel_poll` calls answered with `false` before the
    /// guest asks to stop; `None` where it never does.
    patience: Option<usize>,
}

/// What a scripted run came to.
struct Outcome {
    calls: Vec<Call>,
    phase: Phase,
    polls: usize,
    drains: usize,
    frames: usize,
}

/// Runs a host loop over the script: it does what the phase asks for and
/// reports the result, until the run has ended or the script has no more
/// drains.
fn host(config: AppConfig, mut script: Script) -> Outcome {
    let mut container = AppContainer::init(config);
    let mut calls: Vec<Call> = Vec::new();
    let mut polls = 0;
    let mut drains = 0;
    loop {
        let event = match container.phase() {
            Phase::Created => Event::Start,
            Phase::Polling => {
                let cancel = match script.patience {
                    Some(patience) => polls >= patience,
                    None => false,
                };
                polls += 1;
                if !cancel {
                    match script.drains.pop_front() {
                        Some(ticks) => script.drain = ticks.into_iter().collect(),
                        None => break,
                    }
                    drains += 1;
                }
                Event::Cancel(cancel)
            }
            Phase::Draining => Event::Tick(script.drain.pop_front()),
            Phase::Receiving => Event::Polled(script.channel.pop_front()),
            Phase::Paused => Event::Received(script.channel.pop_front().ok_or(Disconnected)),
            Phase::Done | Phase::Cancelled | Phase::Failed => break,
        };
        calls.extend(container.run(event));
    }
    Outcome {
        calls,
        phase: container.phase(),
        polls,
        drains,
        frames: container.frames_done(),
    }
}

fn script(drains: Vec<Vec<Tick>>, channel: Vec<Notice>, patience: Option<usize>) -> Script {
    Script {
        drains: drains.into_iter().collect(),
        drain: VecDeque::new(),
        channel: channel.into_iter().collect(),
        patience,
    }
}

fn count(calls: &[Call], wanted: &Call) -> usize {
    calls.iter().filter(|call| *call == wanted).count()
}

fn frame(width: usize, height: usize) -> Tick {
    Tick::Render { width, height }
}

#[test]
fn focus_protocol_scenario() {
    let outcome = host(
        AppConfig::new().reset_when_run(false),
        script(
            vec![vec![Tick::Update, Tick::Update]],
            vec![
                LifecycleEvent::Motion("a"),
                LifecycleEvent::LostFocus,
                LifecycleEvent::Other("b"),
                LifecycleEvent::GainedFocus,
                LifecycleEvent::Motion("c"),
            ],
            None,
        ),
    );
    assert_eq!(
        outcome.calls,
        vec![
            GuestCall::Motion("a"),
            GuestCall::SignalPauseChange,
            GuestCall::SignalPauseChange,
            GuestCall::Refresh,
            GuestCall::Update,
            GuestCall::Motion("c"),
            GuestCall::Update,
        ]
    );
    assert_eq!(count(&outcome.calls, &GuestCall::Handle(LifecycleEvent::Other("b"))), 0);
}

#[test]
fn focus_protocol_blocks_between_the_two_pause_signals() {
    let mut container = AppContainer::init(AppConfig::new().reset_when_run(false));
    let _start: Vec<Call> = container.run(Event::Start);
    let _poll: Vec<Call> = container.run(Event::Cancel(false));
    let _tick: Vec<Call> = container.run(Event::Tick(Some(Tick::Update)));
    let entering: Vec<Call> = container.run(Event::Polled(Some(LifecycleEvent::LostFocus)));
    assert_eq!(entering, vec![GuestCall::SignalPauseChange]);
    assert_eq!(container.phase(), Phase::Paused);
    let dropped: Vec<Call> = container.run(Event::Received(Ok(LifecycleEvent::Other("b"))));
    assert_eq!(dropped, vec![]);
    assert_eq!(container.phase(), Phase::Paused);
    let leaving: Vec<Call> = container.run(Event::Received(Ok(LifecycleEvent::GainedFocus)));
    assert_eq!(
        leaving,
        vec![GuestCall::SignalPauseChange, GuestCall::Refresh, GuestCall::Update]
    );
    assert_eq!(container.phase(), Phase::Draining);
}

#[test]
fn fatal_disconnect_scenario() {
    let outcome = host(
        AppConfig::new(),
        script(
            vec![vec![Tick::Update, frame(4, 3)], vec![frame(4, 3)]],
            vec![LifecycleEvent::LostFocus, LifecycleEvent::Motion("late")],
            None,
        ),
    );
    assert_eq!(outcome.phase, Phase::Failed);
    assert_eq!(
        outcome.calls,
        vec![GuestCall::ResetOnStart, GuestCall::SignalPauseChange]
    );
    assert_eq!(outcome.drains, 1);
}

#[test]
fn a_closed_channel_outside_a_pause_is_no_failure() {
    let mut container = AppContainer::init(AppConfig::new().reset_when_run(false));
    let _start: Vec<Call> = container.run(Event::Start);
    let _poll: Vec<Call> = container.run(Event::Cancel(false));
    let _tick: Vec<Call> = container.run(Event::Tick(Some(Tick::Update)));
    let calls: Vec<Call> = container.run(Event::Polled(None));
    assert_eq!(calls, vec![GuestCall::Update]);
    assert_eq!(container.phase(), Phase::Draining);
}

#[test]
fn a_budget_of_n_frames_draws_n_times() {
    // The first drain meets two render ticks: one goes to the resize notice,
    // the other is drawn. Every later drain meets one.
    for n in 0..6 {
        let mut drains = vec![vec![Tick::Update, frame(640, 480), frame(640, 480), Tick::Other]];
        drains.extend((0..n + 2).map(|_| vec![Tick::Update, frame(640, 480), Tick::Other]));
        let outcome = host(
            AppConfig::new().frames(Some(n)).reset_when_run(false),
            script(drains, vec![], None),
        );
        assert_eq!(outcome.phase, Phase::Done);
        assert_eq!(count(&outcome.calls, &GuestCall::Draw), n);
        assert_eq!(outcome.frames, n);
        assert_eq!(outcome.drains, n);
    }
}

#[test]
fn a_first_frame_of_size_zero_is_announced_and_not_drawn() {
    let outcome = host(
        AppConfig::new().frames(Some(3)).reset_when_run(false),
        script(vec![vec![frame(0, 0)]; 5], vec![], None),
    );
    assert_eq!(outcome.phase, Phase::Done);
    assert_eq!(
        outcome.calls,
        vec![
            GuestCall::OnSizeChange { new_size: (0, 0), old_size: (0, 0) },
            GuestCall::Draw,
            GuestCall::Draw,
        ]
    );
}

#[test]
fn a_budget_of_one_frame_may_end_without_a_draw() {
    let outcome = host(
        AppConfig::new().frames(Some(1)).reset_when_run(false),
        script(vec![vec![frame(640, 480)]; 3], vec![], None),
    );
    assert_eq!(outcome.phase, Phase::Done);
    assert_eq!(outcome.frames, 1);
    assert_eq!(
        outcome.calls,
        vec![GuestCall::OnSizeChange { new_size: (640, 480), old_size: (0, 0) }]
    );
}

#[test]
fn a_budget_counts_the_frame_of_a_resize() {
    let outcome = host(
        AppConfig::new().frames(Some(3)).reset_when_run(false),
        script(vec![vec![frame(640, 480)]; 5], vec![], None),
    );
    assert_eq!(outcome.phase, Phase::Done);
    assert_eq!(outcome.frames, 3);
    assert_eq!(
        outcome.calls,
        vec![
            GuestCall::OnSizeChange { new_size: (640, 480), old_size: (0, 0) },
            GuestCall::Draw,
            GuestCall::Draw,
        ]
    );
}

#[test]
fn a_budget_counts_drains_and_not_render_ticks() {
    let outcome = host(
        AppConfig::new().frames(Some(2)).reset_when_run(false),
        script(
            vec![vec![frame(640, 480), frame(640, 480), frame(640, 480)], vec![frame(640, 480)], vec![frame(640, 480)]],
            vec![],
            None,
        ),
    );
    assert_eq!(outcome.phase, Phase::Done);
    assert_eq!(outcome.frames, 2);
    assert_eq!(outcome.drains, 2);
    assert_eq!(outcome.calls[0], GuestCall::OnSizeChange { new_size: (640, 480), old_size: (0, 0) });
    assert_eq!(count(&outcome.calls, &GuestCall::Draw), 3);
    assert_eq!(outcome.calls.len(), 4);
}

#[test]
fn a_budgeted_frame_waits_through_drains_without_a_render() {
    let outcome = host(
        AppConfig::new().frames(Some(1)).reset_when_run(false),
        script(
            vec![vec![Tick::Update], vec![], vec![Tick::Other, Tick::Update], vec![frame(640, 480)], vec![frame(640, 480)]],
            vec![],
            None,
        ),
    );
    assert_eq!(outcome.phase, Phase::Done);
    assert_eq!(outcome.drains, 4);
    assert_eq!(outcome.polls, 4);
    assert_eq!(
        outcome.calls,
        vec![
            GuestCall::Update,
            GuestCall::Update,
            GuestCall::OnSizeChange { new_size: (640, 480), old_size: (0, 0) },
        ]
    );
}

#[test]
fn a_wish_to_stop_ends_a_budgeted_run_early() {
    let outcome = host(
        AppConfig::new().frames(Some(10)).reset_when_run(false),
        script(vec![vec![frame(640, 480)]; 10], vec![], Some(4)),
    );
    assert_eq!(outcome.phase, Phase::Cancelled);
    assert_eq!(outcome.frames, 4);
    assert_eq!(outcome.calls[0], GuestCall::OnSizeChange { new_size: (640, 480), old_size: (0, 0) });
    assert_eq!(count(&outcome.calls, &GuestCall::Draw), 3);
    assert_eq!(outcome.polls, 5);
}

#[test]
fn an_unbounded_run_goes_on_until_the_guest_asks_to_stop() {
    let outcome = host(
        AppConfig::new().reset_when_run(false),
        script(vec![vec![frame(640, 480), Tick::Update]; 50], vec![], Some(37)),
    );
    assert_eq!(outcome.phase, Phase::Cancelled);
    assert_eq!(outcome.drains, 37);
    assert_eq!(outcome.polls, 38);
    assert_eq!(outcome.frames, 0);
    assert_eq!(outcome.calls[0], GuestCall::OnSizeChange { new_size: (640, 480), old_size: (0, 0) });
    assert_eq!(count(&outcome.calls, &GuestCall::Draw), 36);
    assert_eq!(count(&outcome.calls, &GuestCall::Update), 37);
}

#[test]
fn an_unbounded_run_is_not_ended_by_its_renders() {
    let outcome = host(
        AppConfig::new().reset_when_run(false),
        script(vec![vec![frame(640, 480)]; 100], vec![], None),
    );
    assert_eq!(outcome.phase, Phase::Polling);
    assert_eq!(outcome.drains, 100);
    assert_eq!(outcome.calls[0], GuestCall::OnSizeChange { new_size: (640, 480), old_size: (0, 0) });
    assert_eq!(count(&outcome.calls, &GuestCall::Draw), 99);
}

#[test]
fn a_wish_to_stop_at_the_first_poll_runs_no_drain() {
    let outcome = host(
        AppConfig::new(),
        script(vec![vec![frame(640, 480)]; 3], vec![], Some(0)),
    );
    assert_eq!(outcome.phase, Phase::Cancelled);
    assert_eq!(outcome.calls, vec![GuestCall::ResetOnStart]);
    assert_eq!(outcome.drains, 0);
    assert_eq!(outcome.polls, 1);
}

#[test]
fn a_wish_to_stop_lets_only_the_drain_under_way_finish() {
    let mut container = AppContainer::init(AppConfig::new().reset_when_run(false));
    let _start: Vec<Call> = container.run(Event::Start);
    let _poll: Vec<Call> = container.run(Event::Cancel(false));
    // The guest comes to wish to stop during this update.
    let _tick: Vec<Call> = container.run(Event::Tick(Some(Tick::Update)));
    let update: Vec<Call> = container.run(Event::Polled(None));
    assert_eq!(update, vec![GuestCall::Update]);
    // The drain under way goes on to its end.
    let resize: Vec<Call> = container.run(Event::Tick(Some(frame(640, 480))));
    assert_eq!(resize, vec![GuestCall::OnSizeChange { new_size: (640, 480), old_size: (0, 0) }]);
    let draw: Vec<Call> = container.run(Event::Tick(Some(frame(640, 480))));
    assert_eq!(draw, vec![GuestCall::Draw]);
    let end: Vec<Call> = container.run(Event::Tick(None));
    assert_eq!(end, vec![]);
    assert_eq!(container.phase(), Phase::Polling);
    // The next poll ends the run; nothing more is owed.
    let stop: Vec<Call> = container.run(Event::Cancel(true));
    assert_eq!(stop, vec![]);
    assert_eq!(container.phase(), Phase::Cancelled);
    let after: Vec<Call> = container.run(Event::Tick(Some(frame(640, 480))));
    assert_eq!(after, vec![]);
}

#[test]
fn a_steady_size_is_announced_once_and_then_drawn() {
    let outcome = host(
        AppConfig::new().reset_when_run(false),
        script(vec![vec![frame(1080, 1920), Tick::Update, frame(1080, 1920)]; 4], vec![], Some(4)),
    );
    let resize = GuestCall::OnSizeChange { new_size: (1080, 1920), old_size: (0, 0) };
    assert_eq!(outcome.calls[0], resize);
    assert_eq!(count(&outcome.calls, &resize), 1);
    assert_eq!(count(&outcome.calls, &GuestCall::Draw), 7);
    assert!(outcome.calls.iter().all(|call| match call {
        GuestCall::OnSizeChange { .. } => *call == resize,
        _ => true,
    }));
}

#[test]
fn a_rotation_is_announced_before_it_is_drawn() {
    let outcome = host(
        AppConfig::new().reset_when_run(false),
        script(
            vec![vec![frame(1080, 1920), frame(1080, 1920), frame(1920, 1080), frame(1920, 1080)]],
            vec![],
            Some(1),
        ),
    );
    assert_eq!(
        outcome.calls,
        vec![
            GuestCall::OnSizeChange { new_size: (1080, 1920), old_size: (0, 0) },
            GuestCall::Draw,
            GuestCall::OnSizeChange { new_size: (1920, 1080), old_size: (1080, 1920) },
            GuestCall::Draw,
        ]
    );
}

#[test]
fn the_reset_comes_once_and_first() {
    let outcome = host(
        AppConfig::new().frames(Some(2)),
        script(
            vec![vec![Tick::Update, frame(640, 480)]; 3],
            vec![LifecycleEvent::Motion("m")],
            None,
        ),
    );
    assert_eq!(outcome.calls[0], GuestCall::ResetOnStart);
    assert_eq!(count(&outcome.calls, &GuestCall::ResetOnStart), 1);
    assert_eq!(
        outcome.calls,
        vec![
            GuestCall::ResetOnStart,
            GuestCall::Motion("m"),
            GuestCall::Update,
            GuestCall::OnSizeChange { new_size: (640, 480), old_size: (0, 0) },
            GuestCall::Update,
            GuestCall::Draw,
        ]
    );
}

#[test]
fn no_reset_comes_where_the_policy_does_not_ask() {
    let outcome = host(
        AppConfig::new().frames(Some(2)).reset_when_run(false),
        script(vec![vec![Tick::Update, frame(640, 480)]; 3], vec![], None),
    );
    assert_eq!(count(&outcome.calls, &GuestCall::ResetOnStart), 0);
    assert_eq!(outcome.phase, Phase::Done);
}

#[test]
fn notifications_reach_the_guest_in_the_order_of_their_arrival() {
    let outcome = host(
        AppConfig::new().reset_when_run(false),
        script(
            vec![vec![Tick::Update]],
            vec![
                LifecycleEvent::Other("start"),
                LifecycleEvent::Motion("down"),
                LifecycleEvent::GainedFocus,
                LifecycleEvent::Motion("up"),
                LifecycleEvent::Other("resume"),
            ],
            Some(1),
        ),
    );
    assert_eq!(
        outcome.calls,
        vec![
            GuestCall::Handle(LifecycleEvent::Other("start")),
            GuestCall::Motion("down"),
            GuestCall::Handle(LifecycleEvent::GainedFocus),
            GuestCall::Motion("up"),
            GuestCall::Handle(LifecycleEvent::Other("resume")),
            GuestCall::Update,
        ]
    );
}

#[test]
fn what_follows_the_return_of_the_focus_waits_for_the_next_update() {
    let outcome = host(
        AppConfig::new().reset_when_run(false),
        script(
            vec![vec![Tick::Update, frame(640, 480)], vec![Tick::Update]],
            vec![
                LifecycleEvent::LostFocus,
                LifecycleEvent::Motion("dropped"),
                LifecycleEvent::LostFocus,
                LifecycleEvent::GainedFocus,
                LifecycleEvent::Motion("kept"),
            ],
            Some(2),
        ),
    );
    assert_eq!(
        outcome.calls,
        vec![
            GuestCall::SignalPauseChange,
            GuestCall::SignalPauseChange,
            GuestCall::Refresh,
            GuestCall::Update,
            GuestCall::OnSizeChange { new_size: (640, 480), old_size: (0, 0) },
            GuestCall::Motion("kept"),
            GuestCall::Update,
        ]
    );
    assert_eq!(outcome.phase, Phase::Cancelled);
}

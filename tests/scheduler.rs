use coil_engine::{Command, EventLoop, FrameClock, GameConfig, Signal, TimeSpan};

fn ms(n: u64) -> TimeSpan {
    TimeSpan::from_millis(n)
}

#[test]
fn updates_follow_lag_and_elapsed() {
    let mut clock = FrameClock::new(ms(10), ms(50));
    assert_eq!(clock.advance(ms(25)), 2);
    assert_eq!(clock.lag(), ms(5));
    assert_eq!(clock.advance(ms(7)), 1);
    assert_eq!(clock.lag(), ms(2));
    assert_eq!(clock.advance(ms(3)), 0);
    assert_eq!(clock.lag(), ms(5));
    assert_eq!(clock.frame(), ms(10));
}

#[test]
fn elapsed_beyond_ceiling_counts_as_ceiling() {
    let frame = GameConfig::new().frame_duration();
    let mut long_pause = FrameClock::new(frame, ms(50));
    let mut at_ceiling = FrameClock::new(frame, ms(50));
    let a = long_pause.advance(ms(200));
    let b = at_ceiling.advance(ms(50));
    assert_eq!(a, b);
    assert_eq!(a, 3);
    assert_eq!(long_pause.lag(), at_ceiling.lag());
}

#[test]
fn elapsed_equal_to_ceiling_is_not_clamped() {
    let mut clock = FrameClock::new(ms(10), ms(50));
    assert_eq!(clock.advance(ms(50)), 5);
    assert_eq!(clock.lag(), TimeSpan::zero());
    let mut clock = FrameClock::new(ms(10), ms(50));
    assert_eq!(clock.advance(ms(51)), 5);
    assert_eq!(clock.lag(), TimeSpan::zero());
}

#[test]
fn fifty_ms_at_sixty_fps_fires_three_updates() {
    let config = GameConfig::new();
    let mut clock = FrameClock::from_config(&config);
    assert_eq!(clock.advance(ms(50)), 3);
    assert!(clock.lag().as_nanos() < 1_000);
}

#[test]
fn tick_measures_from_previous_reading() {
    let mut clock = FrameClock::new(ms(10), ms(50));
    assert_eq!(clock.tick(ms(30)), 3);
    assert_eq!(clock.tick(ms(45)), 1);
    assert_eq!(clock.lag(), ms(5));
    // A reading earlier than the previous one counts as no time.
    assert_eq!(clock.tick(ms(40)), 0);
    assert_eq!(clock.lag(), ms(5));
    assert_eq!(clock.tick(ms(45)), 1);
    assert_eq!(clock.lag(), ms(0));
}

#[test]
fn exit_on_second_event_stops_before_the_third() {
    let config = GameConfig::new();
    let mut lp = EventLoop::new(&config).unwrap();
    assert_eq!(lp.command(), Command::Poll { timeout: ms(1) });
    assert_eq!(lp.step(Signal::Polled { events: 3 }), Command::Dispatch { index: 0 });
    assert_eq!(lp.step(Signal::Handled { exit: false }), Command::Dispatch { index: 1 });
    assert_eq!(lp.step(Signal::Handled { exit: true }), Command::Exit);
    assert!(!lp.accepts(Signal::Handled { exit: false }));
    assert!(!lp.accepts(Signal::Clock { now: ms(1) }));
    assert_eq!(lp.command(), Command::Exit);
}

#[test]
fn declined_batch_then_time_step_then_render() {
    let config = GameConfig::new().with_target_fps(100);
    let mut lp = EventLoop::new(&config).unwrap();
    assert_eq!(lp.step(Signal::Polled { events: 2 }), Command::Dispatch { index: 0 });
    assert_eq!(lp.step(Signal::Handled { exit: false }), Command::Dispatch { index: 1 });
    assert_eq!(lp.step(Signal::Handled { exit: false }), Command::SampleClock);
    assert_eq!(lp.step(Signal::Clock { now: ms(25) }), Command::Update { dt: ms(10) });
    assert_eq!(lp.step(Signal::Updated), Command::Update { dt: ms(10) });
    assert_eq!(lp.step(Signal::Updated), Command::Render);
    assert_eq!(lp.step(Signal::Rendered), Command::Poll { timeout: ms(1) });
    assert_eq!(lp.step(Signal::Polled { events: 0 }), Command::SampleClock);
    assert_eq!(lp.step(Signal::Clock { now: ms(30) }), Command::Update { dt: ms(10) });
    assert_eq!(lp.step(Signal::Updated), Command::Render);
}

#[test]
fn long_stall_is_capped_in_the_loop() {
    let config = GameConfig::new().with_target_fps(100);
    let mut lp = EventLoop::new(&config).unwrap();
    assert_eq!(lp.step(Signal::Polled { events: 0 }), Command::SampleClock);
    let mut updates = 0;
    let mut cmd = lp.step(Signal::Clock { now: ms(10_000) });
    while cmd != Command::Render {
        assert_eq!(cmd, Command::Update { dt: ms(10) });
        updates += 1;
        cmd = lp.step(Signal::Updated);
    }
    assert_eq!(updates, 5);
}

#[test]
fn signal_out_of_turn_is_not_accepted() {
    let lp = EventLoop::new(&GameConfig::new()).unwrap();
    assert!(lp.accepts(Signal::Polled { events: 0 }));
    assert!(!lp.accepts(Signal::Updated));
    assert!(!lp.accepts(Signal::Rendered));
}

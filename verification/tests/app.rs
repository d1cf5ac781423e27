use pomodoro_timer::app::{App, Mode, PomodoroInfo, Screen, Session, SessionKind, Step};
use pomodoro_timer::event::{
    Event, KeyCode, KeyEvent, KeyEventKind, KeyModifiers, TerminalEvent, TerminalRead,
};
use pomodoro_timer::pomodoro::{PomodoroSession, PomodoroState};
use pomodoro_timer::relay::{
    join_handle, Hub, LinkCommand, LinkEvent, Offer, PeerAddr, TimerMessage,
};
use pomodoro_timer::timer::{TimerAction, TimerSession, TimerStatus};
use std::time::{Duration, Instant};

const NONE: KeyModifiers = KeyModifiers {
    shift: false,
    control: false,
    alt: false,
    other: false,
};

const CONTROL: KeyModifiers = KeyModifiers {
    shift: false,
    control: true,
    alt: false,
    other: false,
};

fn key(c: char, modifiers: KeyModifiers) -> Event {
    Event::Terminal(TerminalEvent::Key(KeyEvent {
        code: KeyCode::Char(c),
        modifiers,
        kind: KeyEventKind::Press,
    }))
}

fn addr(port: u16) -> PeerAddr {
    PeerAddr::V4 {
        octets: 0x7f00_0001,
        port,
    }
}

fn short_cycle_at(now: Instant) -> App {
    App::new_pomodoro_at(
        1,
        Duration::from_secs(3),
        Duration::from_secs(3),
        Duration::from_secs(3),
        Duration::from_millis(250),
        now,
    )
}

fn short_cycle() -> App {
    App::new_pomodoro(
        1,
        Duration::from_secs(3),
        Duration::from_secs(3),
        Duration::from_secs(3),
        Duration::from_millis(250),
    )
}

#[test]
fn keys_stand_for_actions() {
    let app = short_cycle();
    assert_eq!(
        app.key_to_action(KeyCode::Char('q'), NONE),
        Some(TimerAction::Quit)
    );
    assert_eq!(
        app.key_to_action(KeyCode::Char('p'), NONE),
        Some(TimerAction::Pause)
    );
    assert_eq!(
        app.key_to_action(KeyCode::Char('c'), CONTROL),
        Some(TimerAction::Quit)
    );
    assert_eq!(
        app.key_to_action(KeyCode::Char('C'), CONTROL),
        Some(TimerAction::Quit)
    );
    assert_eq!(app.key_to_action(KeyCode::Char('c'), NONE), None);
    assert_eq!(
        app.key_to_action(
            KeyCode::Char('c'),
            KeyModifiers {
                shift: true,
                ..CONTROL
            }
        ),
        None
    );
    assert_eq!(
        app.key_to_action(KeyCode::Char('q'), CONTROL),
        Some(TimerAction::Quit)
    );
    assert_eq!(app.key_to_action(KeyCode::Char('Q'), NONE), None);
    assert_eq!(app.key_to_action(KeyCode::Char('P'), NONE), None);
    assert_eq!(app.key_to_action(KeyCode::Char('x'), NONE), None);
    assert_eq!(app.key_to_action(KeyCode::Other, CONTROL), None);
}

#[test]
fn only_pressed_keys_are_events() {
    let press = KeyEvent {
        code: KeyCode::Char('p'),
        modifiers: NONE,
        kind: KeyEventKind::Press,
    };
    assert_eq!(
        Event::from_terminal(TerminalRead::Event(TerminalEvent::Key(press))),
        Some(Event::Terminal(TerminalEvent::Key(press)))
    );
    for kind in [KeyEventKind::Repeat, KeyEventKind::Release] {
        let other = KeyEvent { kind, ..press };
        assert_eq!(
            Event::from_terminal(TerminalRead::Event(TerminalEvent::Key(other))),
            None
        );
    }
    assert_eq!(
        Event::from_terminal(TerminalRead::Event(TerminalEvent::Other)),
        Some(Event::Terminal(TerminalEvent::Other))
    );
    assert_eq!(
        Event::from_terminal(TerminalRead::Failed),
        Some(Event::Error)
    );
    assert!(CONTROL.is_only_control());
    assert!(!NONE.is_only_control());
    assert!(!KeyModifiers {
        other: true,
        ..CONTROL
    }
    .is_only_control());
}

#[test]
fn a_single_countdown_ends_when_its_time_is_up() {
    let t0 = Instant::now();
    let mut app = App::new_timer_at(
        Duration::from_secs(5),
        "Tea".to_string(),
        Duration::from_millis(250),
        t0,
    );
    assert_eq!(app.get_tick_rate(), Duration::from_millis(250));
    assert!(!app.should_quit());
    assert_eq!(
        app.step_at(Event::Tick, addr(0), t0 + Duration::from_secs(4)),
        Step::Idle
    );
    assert!(!app.should_quit());
    assert_eq!(
        app.step_at(Event::Tick, addr(0), t0 + Duration::from_secs(5)),
        Step::Idle
    );
    assert!(app.should_quit());
    assert_eq!(app.get_timer().unwrap().get_status(), TimerStatus::Exit);
}

#[test]
fn what_the_display_needs() {
    let t0 = Instant::now();
    let mut app = App::new_timer_at(
        Duration::from_secs(5),
        "Tea".to_string(),
        Duration::from_millis(250),
        t0,
    );
    let info = app.get_session_info_at(t0);
    assert_eq!(info.timer.remaining, Duration::from_secs(5));
    let info = app.get_session_info_at(t0 + Duration::from_millis(1500));
    assert_eq!(info.timer.name, "Tea");
    assert_eq!(info.timer.remaining, Duration::from_secs(4));
    assert_eq!(info.pomodoro, None);
    assert_eq!(app.get_pomodoro_info(), None);
    let copy = info.clone();
    assert_eq!(copy.timer.name, "Tea");
    assert_eq!(copy.timer.remaining, Duration::from_secs(4));

    let mut app = short_cycle_at(t0);
    let t1 = t0 + Duration::from_secs(3);
    app.step_at(Event::Tick, addr(0), t1);
    let info = app.get_session_info_at(t1 + Duration::from_millis(100));
    assert_eq!(info.timer.name, "Break");
    assert_eq!(info.timer.remaining, Duration::from_secs(3));
    assert_eq!(
        info.pomodoro,
        Some(PomodoroInfo {
            total_sessions: 1,
            current_session: 1
        })
    );
    assert_eq!(
        app.get_timer_info_at(t1 + Duration::from_secs(3)).remaining,
        Duration::ZERO
    );
    let mut by_clock = short_cycle();
    let info = by_clock.get_session_info();
    assert_eq!(info.timer.name, "Focus");
    assert!(info.timer.remaining <= Duration::from_secs(3));
    assert_eq!(Mode::Pomodoro, Mode::Pomodoro);
}

#[test]
fn what_the_display_is_to_show() {
    let t0 = Instant::now();
    let mut app = App::new_timer_at(
        Duration::from_secs(90),
        "Tea".to_string(),
        Duration::from_millis(250),
        t0,
    );
    match app.screen_at(t0 + Duration::from_millis(29_500)) {
        Screen::Progress {
            name,
            label,
            elapsed,
            total,
        } => {
            assert_eq!(name, "Tea");
            assert_eq!(label, "1m 1s");
            assert_eq!(elapsed, Duration::from_millis(29_500));
            assert_eq!(total, Duration::from_secs(90));
        }
        other => panic!("unexpected: {:?}", other),
    }
    match app.screen_at(t0) {
        Screen::Progress { label, .. } => assert_eq!(label, "1m 30s"),
        other => panic!("unexpected: {:?}", other),
    }
    assert!(matches!(app.screen(), Screen::Progress { .. }));
    app.get_timer().unwrap().set_status(TimerStatus::Done);
    assert!(matches!(app.screen(), Screen::Done));
    assert!(matches!(
        app.screen_at(t0 + Duration::from_secs(1)),
        Screen::Done
    ));
    app.get_timer().unwrap().set_status(TimerStatus::Exit);
    assert!(matches!(app.screen(), Screen::Progress { .. }));

    let mut cycle = short_cycle_at(t0);
    for beat in 1..=3 {
        cycle.step_at(Event::Tick, addr(0), t0 + Duration::from_secs(3 * beat));
    }
    assert!(matches!(cycle.screen(), Screen::Idle));
    assert!(matches!(
        cycle.screen_at(t0 + Duration::from_secs(10)),
        Screen::Idle
    ));
}

#[test]
fn render_asks_for_a_drawing_and_changes_nothing() {
    let mut app = short_cycle();
    assert_eq!(app.step(Event::Render, addr(0)), Step::Draw);
    assert_eq!(app.step(Event::Error, addr(0)), Step::Idle);
    assert_eq!(
        app.step(Event::Terminal(TerminalEvent::Other), addr(0)),
        Step::Idle
    );
    assert_eq!(app.step(key('x', NONE), addr(0)), Step::Idle);
    assert!(!app.should_quit());
    assert_eq!(
        app.get_timer().unwrap().get_status(),
        TimerStatus::Running
    );
}

#[test]
fn pause_toggles_the_current_timer() {
    let t0 = Instant::now();
    let mut app = short_cycle_at(t0);
    assert_eq!(
        app.step_at(key('p', NONE), addr(0), t0 + Duration::from_secs(1)),
        Step::Applied(TimerAction::Pause)
    );
    assert_eq!(app.get_timer().unwrap().get_status(), TimerStatus::Paused);
    assert_eq!(
        app.get_timer().unwrap().elapsed_time(),
        Duration::from_secs(1)
    );
    // A heartbeat during the pause changes nothing.
    app.step_at(Event::Tick, addr(0), t0 + Duration::from_secs(100));
    assert_eq!(app.get_timer().unwrap().get_name(), "Focus");
    let resumed = t0 + Duration::from_secs(200);
    assert_eq!(
        app.step_at(key('p', NONE), addr(0), resumed),
        Step::Applied(TimerAction::Pause)
    );
    assert_eq!(
        app.get_timer().unwrap().get_status(),
        TimerStatus::Running
    );
    // The pause is not counted: a second after the resume two are counted.
    app.handle_action_at(TimerAction::Pause, resumed + Duration::from_secs(1));
    assert_eq!(
        app.get_timer().unwrap().elapsed_time(),
        Duration::from_secs(2)
    );
    app.handle_action(TimerAction::Pause);
    assert_eq!(
        app.get_timer().unwrap().get_status(),
        TimerStatus::Running
    );
    app.step(key('p', NONE), addr(0));
    assert_eq!(app.get_timer().unwrap().get_status(), TimerStatus::Paused);
}

#[test]
fn quit_ends_the_session_in_any_phase() {
    for ticks in 0..3 {
        let t0 = Instant::now();
        let mut app = short_cycle_at(t0);
        for beat in 1..=ticks {
            app.step_at(Event::Tick, addr(0), t0 + Duration::from_secs(3 * beat));
        }
        assert!(!app.should_quit());
        assert!(app.get_timer().is_some());
        assert_eq!(
            app.step(key('q', NONE), addr(0)),
            Step::Applied(TimerAction::Quit)
        );
        assert!(app.should_quit());
        // A completed cycle has no timer.
        assert!(app.get_timer().is_none());
        app.step(Event::Tick, addr(0));
        assert!(app.should_quit());
        assert!(app.get_timer().is_none());
    }
    let mut single = App::new_timer(
        Duration::from_secs(5),
        "Tea".to_string(),
        Duration::from_millis(250),
    );
    assert_eq!(
        single.step(key('c', CONTROL), addr(0)),
        Step::Applied(TimerAction::Quit)
    );
    assert!(single.should_quit());
    assert_eq!(single.get_timer().unwrap().get_status(), TimerStatus::Exit);
}

#[test]
fn actions_on_a_session_without_a_timer() {
    let t0 = Instant::now();
    let mut app = short_cycle_at(t0);
    for beat in 1..=3 {
        app.step_at(Event::Tick, addr(0), t0 + Duration::from_secs(3 * beat));
    }
    assert!(app.should_quit());
    assert!(app.get_timer().is_none());
    app.handle_action(TimerAction::Pause);
    app.handle_action(TimerAction::Quit);
    assert!(app.should_quit());
    assert!(app.get_timer().is_none());
}

#[test]
fn a_session_of_either_kind() {
    let t0 = Instant::now();
    let mut single = SessionKind::Single(TimerSession::new_at(
        Duration::from_secs(2),
        "Tea".to_string(),
        t0,
    ));
    assert!(single.get_pomodoro().is_none());
    assert_eq!(single.get_timer().unwrap().get_name(), "Tea");
    single.toggle_pause_at(t0 + Duration::from_secs(1));
    assert_eq!(
        single.get_timer().unwrap().get_status(),
        TimerStatus::Paused
    );
    single.toggle_pause_at(t0 + Duration::from_secs(10));
    single.tick_at(t0 + Duration::from_millis(10_999));
    assert!(!single.is_finished());
    single.tick_at(t0 + Duration::from_secs(11));
    assert!(single.is_finished());

    let mut timer = TimerSession::new(Duration::from_secs(2), "Tea".to_string());
    timer.tick();
    assert!(!timer.is_finished());
    timer.toggle_pause();
    timer.toggle_pause();
    assert!(!timer.is_finished());

    let mut cycle = SessionKind::Cycle(PomodoroSession::new_at(
        2,
        Duration::from_secs(2),
        Duration::from_secs(1),
        Duration::from_secs(1),
        t0,
    ));
    cycle.tick_at(t0 + Duration::from_secs(2));
    assert_eq!(
        cycle.get_pomodoro().unwrap().get_state(),
        PomodoroState::Break(1)
    );
    cycle.tick();
    assert!(!cycle.is_finished());
}

#[test]
fn a_short_cycle_runs_nine_seconds_by_the_clock() {
    let start = Instant::now();
    let mut app = short_cycle();
    while !app.should_quit() {
        assert_eq!(app.step(Event::Tick, addr(0)), Step::Idle);
        std::hint::spin_loop();
    }
    assert!(start.elapsed() >= Duration::from_secs(9));
    assert_eq!(
        app.get_pomodoro_info(),
        Some(PomodoroInfo {
            total_sessions: 1,
            current_session: 1
        })
    );
    assert!(app.get_timer().is_none());
}

#[test]
fn a_shared_session_sends_its_own_actions_on() {
    let (to_relay, relay_rx) = flume::unbounded();
    let mut app = App::new_shared_pomodoro(
        4,
        Duration::from_secs(25),
        Duration::from_secs(5),
        Duration::from_secs(15),
        Duration::from_millis(250),
        to_relay,
    );
    let sent = TimerMessage {
        action: TimerAction::Pause,
        sender: addr(4000),
    };
    assert_eq!(
        app.step(key('p', NONE), addr(4000)),
        Step::Sent {
            message: sent,
            accepted: true
        }
    );
    assert_eq!(relay_rx.try_recv().unwrap(), sent);
    assert_eq!(app.get_timer().unwrap().get_status(), TimerStatus::Paused);
    // What arrives from the relay is applied and goes no further.
    assert_eq!(
        app.step(Event::Remote(sent), addr(4000)),
        Step::Applied(TimerAction::Pause)
    );
    assert!(relay_rx.try_recv().is_err());
    assert_eq!(
        app.get_timer().unwrap().get_status(),
        TimerStatus::Running
    );
    assert_eq!(app.step(Event::Tick, addr(4000)), Step::Idle);
    assert_eq!(app.step(Event::Render, addr(4000)), Step::Draw);
    assert!(relay_rx.try_recv().is_err());
    // With the relay gone the action is applied all the same.
    drop(relay_rx);
    let quit = TimerMessage {
        action: TimerAction::Quit,
        sender: addr(4000),
    };
    assert_eq!(
        app.step(key('q', NONE), addr(4000)),
        Step::Sent {
            message: quit,
            accepted: false
        }
    );
    assert!(app.should_quit());
}

#[test]
fn a_pause_on_the_joining_side_pauses_the_host_and_is_not_echoed() {
    let host_addr = addr(8080);
    let join_addr = addr(51234);

    // The host: its controller, its relay, and the channels between them.
    let (host_to_relay, host_relay_rx) = flume::unbounded();
    let (relay_to_host, host_inbox) = flume::unbounded();
    let mut host = App::new_shared_pomodoro(
        4,
        Duration::from_secs(25),
        Duration::from_secs(5),
        Duration::from_secs(15),
        Duration::from_millis(250),
        host_to_relay,
    );
    let mut hub = Hub::new(relay_to_host);

    // The participant that joins, and its connection at the host.
    let (join_to_relay, join_relay_rx) = flume::unbounded();
    let (relay_to_join, join_inbox) = flume::unbounded();
    let mut join = App::new_shared_pomodoro(
        4,
        Duration::from_secs(25),
        Duration::from_secs(5),
        Duration::from_secs(15),
        Duration::from_millis(250),
        join_to_relay,
    );
    let (staging, staged) = flume::unbounded();
    hub.connect(join_addr, staging);

    // Pause is pressed where the session was joined.
    let pause = TimerMessage {
        action: TimerAction::Pause,
        sender: join_addr,
    };
    assert_eq!(
        join.step(key('p', NONE), join_addr),
        Step::Sent {
            message: pause,
            accepted: true
        }
    );
    assert_eq!(join.get_timer().unwrap().get_status(), TimerStatus::Paused);

    // The joining side puts it on the wire.
    let outgoing = join_relay_rx.try_recv().unwrap();
    let routed = join_handle(&relay_to_join, LinkEvent::Local(outgoing));
    assert_eq!(routed.command, LinkCommand::Write(pause));

    // The host takes it off the wire: its application gets it, the sender
    // does not get it back.
    let routed = hub.handle(join_addr, LinkEvent::Received(pause));
    assert_eq!(
        routed.to_app,
        Some(Offer {
            message: pause,
            accepted: true
        })
    );
    assert!(routed.report.is_empty());
    assert!(staged.try_recv().is_err());

    let arrived = host_inbox.try_recv().unwrap();
    assert_eq!(
        host.step(Event::Remote(arrived), host_addr),
        Step::Applied(TimerAction::Pause)
    );
    assert_eq!(host.get_timer().unwrap().get_status(), TimerStatus::Paused);

    // Nothing travels on: not from the host's controller, not to the
    // joining side.
    assert!(host_relay_rx.try_recv().is_err());
    assert!(host_inbox.try_recv().is_err());
    assert!(staged.try_recv().is_err());
    assert!(join_inbox.try_recv().is_err());
    assert!(join_relay_rx.try_recv().is_err());
    assert_eq!(join.get_timer().unwrap().get_status(), TimerStatus::Paused);
}

#[test]
fn a_pause_at_the_host_reaches_the_joining_side() {
    let host_addr = addr(8080);
    let join_addr = addr(51234);
    let (host_to_relay, host_relay_rx) = flume::unbounded();
    let (relay_to_host, host_inbox) = flume::unbounded();
    let mut host = App::new_shared_pomodoro(
        4,
        Duration::from_secs(25),
        Duration::from_secs(5),
        Duration::from_secs(15),
        Duration::from_millis(250),
        host_to_relay,
    );
    let mut hub = Hub::new(relay_to_host);
    let (join_to_relay, join_relay_rx) = flume::unbounded();
    let (relay_to_join, join_inbox) = flume::unbounded();
    let mut join = App::new_shared_pomodoro(
        4,
        Duration::from_secs(25),
        Duration::from_secs(5),
        Duration::from_secs(15),
        Duration::from_millis(250),
        join_to_relay,
    );
    let (staging, staged) = flume::unbounded();
    hub.connect(join_addr, staging);

    host.step(key('p', NONE), host_addr);
    let outgoing = host_relay_rx.try_recv().unwrap();
    let routed = hub.handle(join_addr, LinkEvent::Local(outgoing));
    assert_eq!(routed.report.len(), 1);
    let for_join = staged.try_recv().unwrap();
    let routed = hub.handle(join_addr, LinkEvent::Staged(for_join));
    assert_eq!(routed.command, LinkCommand::Write(for_join));
    let routed = join_handle(&relay_to_join, LinkEvent::Received(for_join));
    assert_eq!(
        routed.to_app,
        Some(Offer {
            message: for_join,
            accepted: true
        })
    );
    let arrived = join_inbox.try_recv().unwrap();
    assert_eq!(
        join.step(Event::Remote(arrived), join_addr),
        Step::Applied(TimerAction::Pause)
    );
    assert_eq!(join.get_timer().unwrap().get_status(), TimerStatus::Paused);
    assert!(join_relay_rx.try_recv().is_err());
    assert!(host_inbox.try_recv().is_err());
}

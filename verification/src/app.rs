//! The session controller: it owns the running session, turns keys and
//! remote messages into actions, applies them, and in a shared session sends
//! its own actions on to the relay.

use crate::clock::duration_nanos;
use crate::event::{Event, KeyCode, KeyModifiers, TerminalEvent};
use crate::pomodoro::{first_phase, Pomodoro, PomodoroSession, PomodoroState, PomodoroView};
use crate::relay::{offer, PeerAddr, TimerMessage};
use crate::text::clock_text;
use crate::timer::{
    whole_seconds, Timer, TimerAction, TimerSession, TimerStatus, TimerView,
};
use flume::Sender;
use std::time::{Duration, Instant};
use vstd::prelude::*;
use vstd::string::*;

verus! {

/// A session as contracts see it: a single countdown, or a cycle of phases.
pub enum SessionView {
    Single(TimerView),
    Cycle(PomodoroView),
}

impl SessionView {
    /// The timer that is counting now, if there is one.
    pub open spec fn timer(self) -> Option<TimerView> {
        match self {
            SessionView::Single(t) => Some(t),
            SessionView::Cycle(p) => p.timer,
        }
    }

    /// The session with `timer` in the place of its current timer.
    pub open spec fn with_timer(self, timer: TimerView) -> SessionView {
        match self {
            SessionView::Single(_) => SessionView::Single(timer),
            SessionView::Cycle(p) => SessionView::Cycle(p.with_timer(Some(timer))),
        }
    }

    /// A single countdown is over when it has been left, a cycle when it is
    /// completed.
    pub open spec fn finished(self) -> bool {
        match self {
            SessionView::Single(t) => t.status == TimerStatus::Exit,
            SessionView::Cycle(p) => p.state == PomodoroState::Completed,
        }
    }

    /// The session after one heartbeat when the clock reads `now`.
    pub open spec fn ticked_at(self, now: Instant) -> SessionView {
        match self {
            SessionView::Single(t) => SessionView::Single(t.ticked_at(now)),
            SessionView::Cycle(p) => SessionView::Cycle(p.ticked_at(now)),
        }
    }

    /// The session with its current timer paused or resumed when the clock
    /// reads `now`.
    pub open spec fn toggled_at(self, now: Instant) -> SessionView {
        match self {
            SessionView::Single(t) => SessionView::Single(t.toggled_at(now)),
            SessionView::Cycle(p) => SessionView::Cycle(p.toggled_at(now)),
        }
    }

    /// The session left: a single countdown is marked so, and a cycle is
    /// completed at once and has no timer any more.
    pub open spec fn quit(self) -> SessionView {
        match self {
            SessionView::Single(t) => SessionView::Single(t.with_status(TimerStatus::Exit)),
            SessionView::Cycle(p) => SessionView::Cycle(p.quit()),
        }
    }

    /// The session after an action: left, or with its timer paused or resumed.
    pub open spec fn applied_at(self, action: TimerAction, now: Instant) -> SessionView {
        match action {
            TimerAction::Quit => self.quit(),
            TimerAction::Pause => self.toggled_at(now),
        }
    }
}

/// What a controller asks of the session it runs, whether that is a single
/// countdown or a cycle.
pub trait Session: Send {
    /// The session as contracts see it.
    spec fn model(&self) -> SessionView;

    /// One heartbeat when the clock reads `now`.
    fn tick_at(&mut self, now: Instant)
        ensures
            final(self).model() == old(self).model().ticked_at(now),
    ;

    /// One heartbeat, by the clock.
    fn tick(&mut self)
        ensures
            exists|now: Instant| final(self).model() == #[trigger] old(self).model().ticked_at(now),
    {
        self.tick_at(Instant::now());
    }

    /// Whether the session is over.
    fn is_finished(&self) -> (finished: bool)
        ensures
            finished == self.model().finished(),
    ;

    /// Pauses or resumes the current timer when the clock reads `now`.
    fn toggle_pause_at(&mut self, now: Instant)
        ensures
            final(self).model() == old(self).model().toggled_at(now),
    ;

    /// Pauses or resumes the current timer, by the clock.
    fn toggle_pause(&mut self)
        ensures
            exists|now: Instant|
                final(self).model() == #[trigger] old(self).model().toggled_at(now),
    {
        self.toggle_pause_at(Instant::now());
    }

    /// The current timer, if there is one. What is done to it is done to the
    /// session.
    fn get_timer(&mut self) -> (timer: Option<&mut Timer>)
        ensures
            match old(self).model().timer() {
                Some(t) => {
                    &&& timer is Some
                    &&& timer.unwrap()@ == t
                    &&& final(self).model() == old(self).model().with_timer(
                        final(timer.unwrap())@,
                    )
                },
                None => timer is None && final(self).model() == old(self).model(),
            },
    ;

    /// The cycle, if the session is one. What is done to it is done to the
    /// session.
    fn get_pomodoro(&mut self) -> (pomodoro: Option<&mut Pomodoro>)
        ensures
            match old(self).model() {
                SessionView::Cycle(p) => {
                    &&& pomodoro is Some
                    &&& pomodoro.unwrap()@ == p
                    &&& final(self).model() == SessionView::Cycle(final(pomodoro.unwrap())@)
                },
                SessionView::Single(_) => {
                    &&& pomodoro is None
                    &&& final(self).model() == old(self).model()
                },
            },
    ;
}

/// The session that a controller runs.
pub enum SessionKind {
    Single(TimerSession),
    Cycle(PomodoroSession),
}

impl Session for SessionKind {
    open spec fn model(&self) -> SessionView {
        match self {
            SessionKind::Single(s) => s.model(),
            SessionKind::Cycle(s) => s.model(),
        }
    }

    fn tick_at(&mut self, now: Instant) {
        match self {
            SessionKind::Single(s) => s.tick_at(now),
            SessionKind::Cycle(s) => s.tick_at(now),
        }
    }

    fn is_finished(&self) -> (finished: bool) {
        match self {
            SessionKind::Single(s) => s.is_finished(),
            SessionKind::Cycle(s) => s.is_finished(),
        }
    }

    fn toggle_pause_at(&mut self, now: Instant) {
        match self {
            SessionKind::Single(s) => s.toggle_pause_at(now),
            SessionKind::Cycle(s) => s.toggle_pause_at(now),
        }
    }

    fn get_timer(&mut self) -> (timer: Option<&mut Timer>) {
        match self {
            SessionKind::Single(s) => s.get_timer(),
            SessionKind::Cycle(s) => s.get_timer(),
        }
    }

    fn get_pomodoro(&mut self) -> (pomodoro: Option<&mut Pomodoro>) {
        match self {
            SessionKind::Single(s) => s.get_pomodoro(),
            SessionKind::Cycle(s) => s.get_pomodoro(),
        }
    }
}

/// What a controller shows: a single countdown, or a cycle with its progress.
#[derive(Clone, Copy, Debug, PartialEq, Eq, Structural)]
pub enum Mode {
    Timer,
    Pomodoro,
}

/// The name of a timer and what it shows as left.
#[derive(Debug)]
pub struct TimerInfo {
    pub name: String,
    pub remaining: Duration,
}

/// How far a cycle has come.
#[derive(Clone, Copy, Debug, PartialEq, Eq, Structural)]
pub struct PomodoroInfo {
    pub total_sessions: usize,
    pub current_session: usize,
}

/// What the display needs of a session.
#[derive(Debug)]
pub struct SessionInfo {
    pub timer: TimerInfo,
    pub pomodoro: Option<PomodoroInfo>,
}

impl Clone for TimerInfo {
    fn clone(&self) -> (copy: Self)
        ensures
            copy.name@ == self.name@,
            copy.remaining == self.remaining,
    {
        TimerInfo { name: self.name.clone(), remaining: self.remaining }
    }
}

impl Clone for SessionInfo {
    fn clone(&self) -> (copy: Self)
        ensures
            copy.timer.name@ == self.timer.name@,
            copy.timer.remaining == self.timer.remaining,
            copy.pomodoro == self.pomodoro,
    {
        SessionInfo { timer: self.timer.clone(), pomodoro: self.pomodoro }
    }
}

/// What the display is to show of a session.
#[derive(Debug)]
pub enum Screen {
    /// The countdown has run out.
    Done,
    /// A timer is counting: its name, what it shows as left in words, the
    /// time it has counted and its length.
    Progress { name: String, label: String, elapsed: Duration, total: Duration },
    /// There is no timer.
    Idle,
}

/// Where a controller's own actions go besides its session.
enum SessionType {
    SingleUser,
    /// To the relay, through this channel.
    Shared(Sender<TimerMessage>),
}

/// The controller of one session.
pub struct App {
    session: SessionKind,
    tick_rate: Duration,
    mode: Mode,
    session_type: SessionType,
}

/// A controller as contracts see it: its session, the period of its
/// heartbeat in nanoseconds, what it shows, and the channel to the relay if
/// the session is shared.
pub struct AppView {
    pub session: SessionView,
    pub tick_rate: nat,
    pub mode: Mode,
    pub relay: Option<Sender<TimerMessage>>,
}

/// What a step of the controller did besides changing the session.
#[derive(Clone, Copy, Debug, PartialEq, Eq, Structural)]
pub enum Step {
    /// Nothing to do for the caller.
    Idle,
    /// The display is to be drawn.
    Draw,
    /// An action was applied to the session and went no further.
    Applied(TimerAction),
    /// An action of this participant was offered to the relay, which took it
    /// or not, and was applied to the session.
    Sent { message: TimerMessage, accepted: bool },
}

/// The action that a key stands for: control and `c` alone, or `q`, leaves;
/// `p` pauses and resumes.
pub open spec fn key_action(code: KeyCode, modifiers: KeyModifiers) -> Option<TimerAction> {
    match code {
        KeyCode::Char(c) => if (c == 'c' || c == 'C') && modifiers.only_control() {
            Some(TimerAction::Quit)
        } else if c == 'q' {
            Some(TimerAction::Quit)
        } else if c == 'p' {
            Some(TimerAction::Pause)
        } else {
            None
        },
        KeyCode::Other => None,
    }
}

/// The action that an event asks for, and whether it was taken here.
pub open spec fn event_action(event: Event) -> Option<(TimerAction, bool)> {
    match event {
        Event::Terminal(TerminalEvent::Key(key)) => match key_action(key.code, key.modifiers) {
            Some(action) => Some((action, true)),
            None => None,
        },
        Event::Remote(message) => Some((message.action, false)),
        _ => None,
    }
}

impl AppView {
    /// Whether the session is shared with other participants.
    pub open spec fn shared(self) -> bool {
        self.relay is Some
    }

    /// A controller that has just been made for `session`.
    pub open spec fn made(
        session: SessionView,
        tick_rate: nat,
        relay: Option<Sender<TimerMessage>>,
    ) -> AppView {
        AppView {
            session,
            tick_rate,
            mode: match session {
                SessionView::Single(_) => Mode::Timer,
                SessionView::Cycle(_) => Mode::Pomodoro,
            },
            relay,
        }
    }

    /// The controller with another session, all else the same.
    pub open spec fn with_session(self, session: SessionView) -> AppView {
        AppView { session, ..self }
    }

    /// The progress of the cycle, if the session is one.
    pub open spec fn cycle_info(self) -> Option<PomodoroInfo> {
        match self.session {
            SessionView::Cycle(p) => Some(
                PomodoroInfo {
                    total_sessions: p.total_sessions,
                    current_session: p.current_session(),
                },
            ),
            SessionView::Single(_) => None,
        }
    }

    /// The controller after an event, when the clock reads `now`: a
    /// heartbeat ticks the session, an action is applied to it, and nothing
    /// else changes it.
    pub open spec fn stepped_at(self, event: Event, now: Instant) -> AppView {
        self.with_session(
            match event {
                Event::Tick => self.session.ticked_at(now),
                _ => match event_action(event) {
                    Some((action, _)) => self.session.applied_at(action, now),
                    None => self.session,
                },
            },
        )
    }

    /// Whether `step` is what the controller reports of an event: only an
    /// action taken here, in a shared session, is sent on, under the local
    /// address.
    pub open spec fn reports(self, event: Event, local_addr: PeerAddr, step: Step) -> bool {
        match event {
            Event::Render => step == Step::Draw,
            _ => match event_action(event) {
                Some((action, true)) => if self.shared() {
                    step matches Step::Sent { message, .. } && message == (TimerMessage {
                        action,
                        sender: local_addr,
                    })
                } else {
                    step == Step::Applied(action)
                },
                Some((action, false)) => step == Step::Applied(action),
                None => step == Step::Idle,
            },
        }
    }

    /// What the display is to show when the clock reads `now`: nothing
    /// without a timer, the end for a timer that is done, and else the timer
    /// by name with what is left in words, what it has counted and its
    /// length.
    pub open spec fn shows(self, now: Instant, screen: Screen) -> bool {
        match self.session.timer() {
            None => screen is Idle,
            Some(t) => if t.status == TimerStatus::Done {
                screen is Done
            } else {
                &&& screen matches Screen::Progress { name, label, elapsed, total }
                &&& name@ == t.name
                &&& label@ == clock_text(whole_seconds(t.remaining_at(now)))
                &&& duration_nanos(elapsed) == t.elapsed_at(now)
                &&& duration_nanos(total) == t.total
            },
        }
    }

    /// Whether `info` is what the display needs when the clock reads `now`.
    /// There must be a current timer.
    pub open spec fn informs(self, now: Instant, info: SessionInfo) -> bool {
        &&& self.session.timer() matches Some(t)
        &&& info.timer.name@ == t.name
        &&& duration_nanos(info.timer.remaining) == t.remaining_at(now)
        &&& info.pomodoro == (match self.mode {
            Mode::Timer => None,
            Mode::Pomodoro => self.cycle_info(),
        })
    }
}

impl View for App {
    type V = AppView;

    closed spec fn view(&self) -> AppView {
        AppView {
            session: self.session.model(),
            tick_rate: duration_nanos(self.tick_rate),
            mode: self.mode,
            relay: match self.session_type {
                SessionType::SingleUser => None,
                SessionType::Shared(to_relay) => Some(to_relay),
            },
        }
    }
}

impl App {
    /// A controller for a single countdown, started at the reading `now`.
    pub fn new_timer_at(
        duration: Duration,
        name: String,
        tick_rate: Duration,
        now: Instant,
    ) -> (app: Self)
        ensures
            app@ == AppView::made(
                SessionView::Single(TimerView::fresh(duration_nanos(duration), name@, now)),
                duration_nanos(tick_rate),
                None,
            ),
    {
        App {
            session: SessionKind::Single(TimerSession::new_at(duration, name, now)),
            tick_rate,
            mode: Mode::Timer,
            session_type: SessionType::SingleUser,
        }
    }

    /// A controller for a single countdown, started now.
    pub fn new_timer(duration: Duration, name: String, tick_rate: Duration) -> (app: Self)
        ensures
            exists|now: Instant|
                app@ == AppView::made(
                    SessionView::Single(
                        #[trigger] TimerView::fresh(duration_nanos(duration), name@, now),
                    ),
                    duration_nanos(tick_rate),
                    None,
                ),
    {
        Self::new_timer_at(duration, name, tick_rate, Instant::now())
    }

    /// A controller for a cycle of `total_sessions` sessions, started at the
    /// reading `now`.
    pub fn new_pomodoro_at(
        total_sessions: usize,
        focus_duration: Duration,
        break_duration: Duration,
        long_break_duration: Duration,
        tick_rate: Duration,
        now: Instant,
    ) -> (app: Self)
        ensures
            app@ == AppView::made(
                SessionView::Cycle(
                    first_phase(
                        total_sessions,
                        duration_nanos(focus_duration),
                        duration_nanos(break_duration),
                        duration_nanos(long_break_duration),
                        now,
                    ),
                ),
                duration_nanos(tick_rate),
                None,
            ),
    {
        App {
            session: SessionKind::Cycle(
                PomodoroSession::new_at(
                    total_sessions,
                    focus_duration,
                    break_duration,
                    long_break_duration,
                    now,
                ),
            ),
            tick_rate,
            mode: Mode::Pomodoro,
            session_type: SessionType::SingleUser,
        }
    }

    /// A controller for a cycle of `total_sessions` sessions, started now.
    pub fn new_pomodoro(
        total_sessions: usize,
        focus_duration: Duration,
        break_duration: Duration,
        long_break_duration: Duration,
        tick_rate: Duration,
    ) -> (app: Self)
        ensures
            exists|now: Instant|
                app@ == AppView::made(
                    SessionView::Cycle(
                        #[trigger] first_phase(
                            total_sessions,
                            duration_nanos(focus_duration),
                            duration_nanos(break_duration),
                            duration_nanos(long_break_duration),
                            now,
                        ),
                    ),
                    duration_nanos(tick_rate),
                    None,
                ),
    {
        Self::new_pomodoro_at(
            total_sessions,
            focus_duration,
            break_duration,
            long_break_duration,
            tick_rate,
            Instant::now(),
        )
    }

    /// A controller for a cycle shared with other participants, started at
    /// the reading `now`. Its own actions go to the relay through `to_relay`.
    pub fn new_shared_pomodoro_at(
        total_sessions: usize,
        focus_duration: Duration,
        break_duration: Duration,
        long_break_duration: Duration,
        tick_rate: Duration,
        to_relay: Sender<TimerMessage>,
        now: Instant,
    ) -> (app: Self)
        ensures
            app@ == AppView::made(
                SessionView::Cycle(
                    first_phase(
                        total_sessions,
                        duration_nanos(focus_duration),
                        duration_nanos(break_duration),
                        duration_nanos(long_break_duration),
                        now,
                    ),
                ),
                duration_nanos(tick_rate),
                Some(to_relay),
            ),
    {
        App {
            session: SessionKind::Cycle(
                PomodoroSession::new_at(
                    total_sessions,
                    focus_duration,
                    break_duration,
                    long_break_duration,
                    now,
                ),
            ),
            tick_rate,
            mode: Mode::Pomodoro,
            session_type: SessionType::Shared(to_relay),
        }
    }

    /// A controller for a cycle shared with other participants, started now.
    /// Its own actions go to the relay through `to_relay`.
    pub fn new_shared_pomodoro(
        total_sessions: usize,
        focus_duration: Duration,
        break_duration: Duration,
        long_break_duration: Duration,
        tick_rate: Duration,
        to_relay: Sender<TimerMessage>,
    ) -> (app: Self)
        ensures
            exists|now: Instant|
                app@ == AppView::made(
                    SessionView::Cycle(
                        #[trigger] first_phase(
                            total_sessions,
                            duration_nanos(focus_duration),
                            duration_nanos(break_duration),
                            duration_nanos(long_break_duration),
                            now,
                        ),
                    ),
                    duration_nanos(tick_rate),
                    Some(to_relay),
                ),
    {
        Self::new_shared_pomodoro_at(
            total_sessions,
            focus_duration,
            break_duration,
            long_break_duration,
            tick_rate,
            to_relay,
            Instant::now(),
        )
    }

    /// The period of the heartbeat that the controller was made for.
    pub fn get_tick_rate(&self) -> (rate: Duration)
        ensures
            duration_nanos(rate) == self@.tick_rate,
    {
        self.tick_rate
    }

    /// Whether the session is over and the control loop is to end.
    pub fn should_quit(&self) -> (quit: bool)
        ensures
            quit == self@.session.finished(),
    {
        self.session.is_finished()
    }

    /// The action that a key stands for, if it stands for one.
    pub fn key_to_action(&self, key: KeyCode, modifiers: KeyModifiers) -> (action: Option<
        TimerAction,
    >)
        ensures
            action == key_action(key, modifiers),
    {
        match key {
            KeyCode::Char(c) => {
                if (c == 'c' || c == 'C') && modifiers.is_only_control() {
                    Some(TimerAction::Quit)
                } else if c == 'q' {
                    Some(TimerAction::Quit)
                } else if c == 'p' {
                    Some(TimerAction::Pause)
                } else {
                    None
                }
            },
            KeyCode::Other => None,
        }
    }

    /// Applies an action to the session when the clock reads `now`.
    pub fn handle_action_at(&mut self, action: TimerAction, now: Instant)
        ensures
            final(self)@ == old(self)@.with_session(old(self)@.session.applied_at(action, now)),
    {
        match action {
            TimerAction::Quit => {
                if let Some(timer) = self.session.get_timer() {
                    timer.set_status(TimerStatus::Exit);
                }
                if let Some(pomodoro) = self.session.get_pomodoro() {
                    pomodoro.set_state(PomodoroState::Completed);
                }
            },
            TimerAction::Pause => {
                self.session.toggle_pause_at(now);
            },
        }
    }

    /// Applies an action to the session, by the clock.
    pub fn handle_action(&mut self, action: TimerAction)
        ensures
            exists|now: Instant|
                final(self)@ == old(self)@.with_session(
                    #[trigger] old(self)@.session.applied_at(action, now),
                ),
    {
        self.handle_action_at(action, Instant::now());
    }

    /// One turn of the control loop when the clock reads `now`.
    pub fn step_at(&mut self, event: Event, local_addr: PeerAddr, now: Instant) -> (step: Step)
        ensures
            final(self)@ == old(self)@.stepped_at(event, now),
            old(self)@.reports(event, local_addr, step),
    {
        match event {
            Event::Tick => {
                self.session.tick_at(now);
                Step::Idle
            },
            Event::Render => Step::Draw,
            Event::Terminal(TerminalEvent::Key(key)) => {
                match self.key_to_action(key.code, key.modifiers) {
                    Some(action) => {
                        let step = match &self.session_type {
                            SessionType::Shared(to_relay) => {
                                let message = TimerMessage { action, sender: local_addr };
                                let accepted = offer(to_relay, message);
                                Step::Sent { message, accepted }
                            },
                            SessionType::SingleUser => Step::Applied(action),
                        };
                        self.handle_action_at(action, now);
                        step
                    },
                    None => Step::Idle,
                }
            },
            Event::Remote(message) => {
                self.handle_action_at(message.action, now);
                Step::Applied(message.action)
            },
            _ => Step::Idle,
        }
    }

    /// One turn of the control loop, by the clock.
    pub fn step(&mut self, event: Event, local_addr: PeerAddr) -> (step: Step)
        ensures
            exists|now: Instant| final(self)@ == #[trigger] old(self)@.stepped_at(event, now),
            old(self)@.reports(event, local_addr, step),
    {
        self.step_at(event, local_addr, Instant::now())
    }

    /// The current timer, if there is one. What is done to it is done to the
    /// session.
    pub fn get_timer(&mut self) -> (timer: Option<&mut Timer>)
        ensures
            match old(self)@.session.timer() {
                Some(t) => {
                    &&& timer is Some
                    &&& timer.unwrap()@ == t
                    &&& final(self)@ == old(self)@.with_session(
                        old(self)@.session.with_timer(final(timer.unwrap())@),
                    )
                },
                None => timer is None && final(self)@ == old(self)@,
            },
    {
        self.session.get_timer()
    }

    /// What the display is to show when the clock reads `now`.
    pub fn screen_at(&mut self, now: Instant) -> (screen: Screen)
        ensures
            final(self)@ == old(self)@,
            old(self)@.shows(now, screen),
    {
        match self.session.get_timer() {
            Some(timer) => {
                if timer.get_status() == TimerStatus::Done {
                    Screen::Done
                } else {
                    Screen::Progress {
                        name: String::from_str(timer.get_name()),
                        label: timer.to_text_at(now),
                        elapsed: timer.elapsed_time_at(now),
                        total: timer.get_duration(),
                    }
                }
            },
            None => Screen::Idle,
        }
    }

    /// What the display is to show, by the clock.
    pub fn screen(&mut self) -> (screen: Screen)
        ensures
            final(self)@ == old(self)@,
            exists|now: Instant| #[trigger] old(self)@.shows(now, screen),
    {
        self.screen_at(Instant::now())
    }

    /// The name of the current timer and what it shows when the clock reads
    /// `now`. There must be a current timer.
    pub fn get_timer_info_at(&mut self, now: Instant) -> (info: TimerInfo)
        requires
            old(self)@.session.timer() is Some,
        ensures
            final(self)@ == old(self)@,
            info.name@ == old(self)@.session.timer().unwrap().name,
            duration_nanos(info.remaining) == old(self)@.session.timer().unwrap().remaining_at(
                now,
            ),
    {
        let timer = self.session.get_timer().unwrap();
        TimerInfo {
            name: String::from_str(timer.get_name()),
            remaining: timer.remaining_time_at(now),
        }
    }

    /// The sessions of the cycle and the one that is running, if the session
    /// is a cycle.
    pub fn get_pomodoro_info(&mut self) -> (info: Option<PomodoroInfo>)
        ensures
            final(self)@ == old(self)@,
            info == old(self)@.cycle_info(),
    {
        match self.session.get_pomodoro() {
            Some(pomodoro) => Some(
                PomodoroInfo {
                    total_sessions: pomodoro.get_total_sessions(),
                    current_session: pomodoro.get_current_session(),
                },
            ),
            None => None,
        }
    }

    /// What the display needs when the clock reads `now`. There must be a
    /// current timer.
    pub fn get_session_info_at(&mut self, now: Instant) -> (info: SessionInfo)
        requires
            old(self)@.session.timer() is Some,
        ensures
            final(self)@ == old(self)@,
            old(self)@.informs(now, info),
    {
        match self.mode {
            Mode::Timer => SessionInfo { timer: self.get_timer_info_at(now), pomodoro: None },
            Mode::Pomodoro => SessionInfo {
                timer: self.get_timer_info_at(now),
                pomodoro: self.get_pomodoro_info(),
            },
        }
    }

    /// What the display needs, by the clock. There must be a current timer.
    pub fn get_session_info(&mut self) -> (info: SessionInfo)
        requires
            old(self)@.session.timer() is Some,
        ensures
            final(self)@ == old(self)@,
            exists|now: Instant| #[trigger] old(self)@.informs(now, info),
    {
        self.get_session_info_at(Instant::now())
    }
}

/// An action that arrives from another participant is applied and goes no
/// further: the controller never sends it on.
pub proof fn law_remote_stays(
    app: AppView,
    message: TimerMessage,
    local_addr: PeerAddr,
    step: Step,
    now: Instant,
)
    requires
        app.reports(Event::Remote(message), local_addr, step),
    ensures
        step == Step::Applied(message.action),
        !(step is Sent),
        app.stepped_at(Event::Remote(message), now).session == app.session.applied_at(
            message.action,
            now,
        ),
{
}

/// Only a key that stands for an action, pressed in a shared session, is
/// sent on, and then under the local address.
pub proof fn law_sent_is_local(app: AppView, event: Event, local_addr: PeerAddr, step: Step)
    requires
        app.reports(event, local_addr, step),
        step is Sent,
    ensures
        app.shared(),
        event matches Event::Terminal(TerminalEvent::Key(key)) && key_action(
            key.code,
            key.modifiers,
        ) == Some(step->message.action),
        step->message.sender == local_addr,
{
}

/// Leaving ends the session at once, whatever it was doing, and it stays
/// ended at every heartbeat after. A cycle that was left has no timer.
pub proof fn law_quit_ends(session: SessionView, now: Instant, later: Instant)
    ensures
        session.applied_at(TimerAction::Quit, now).finished(),
        session.applied_at(TimerAction::Quit, now).ticked_at(later).finished(),
        session is Cycle ==> session.applied_at(TimerAction::Quit, now).timer() is None,
{
}

/// A session that is over stays over, whatever event comes after and
/// whatever the clock reads.
pub proof fn law_finished_stays(app: AppView, event: Event, now: Instant)
    requires
        app.session.finished(),
    ensures
        app.stepped_at(event, now).session.finished(),
{
}

} // verus!

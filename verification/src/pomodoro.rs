//! The work/break cycle: focus and break phases in turn for a number of
//! sessions, a long break at the end, each phase counted by a timer of its own.

use crate::app::{Session, SessionView};
use crate::clock::{duration_nanos, time_between, MAX_NANOS};
use crate::timer::{Timer, TimerStatus, TimerView};
use std::time::{Duration, Instant};
use vstd::prelude::*;
use vstd::string::*;

verus! {

/// The phase of a cycle. The phases of a session carry its number, counted
/// from one.
#[derive(PartialEq, Eq, Clone, Copy, Debug, Structural)]
pub enum PomodoroState {
    Ready,
    Focus(usize),
    Break(usize),
    LongBreak(usize),
    Completed,
}

/// The phase that follows `state` in a cycle of `total` sessions. A focus or
/// break phase whose session lies beyond `total` has no successor and stays.
/// No cycle gets there by itself.
pub open spec fn next_state(state: PomodoroState, total: usize) -> PomodoroState {
    match state {
        PomodoroState::Ready => PomodoroState::Focus(1),
        PomodoroState::Focus(n) => if n <= total {
            PomodoroState::Break(n)
        } else {
            state
        },
        PomodoroState::Break(n) => if n < total {
            PomodoroState::Focus((n + 1) as usize)
        } else if n == total {
            PomodoroState::LongBreak(n)
        } else {
            state
        },
        PomodoroState::LongBreak(_) => PomodoroState::Completed,
        PomodoroState::Completed => PomodoroState::Completed,
    }
}

/// Which timer a phase is counted by.
pub enum PhaseKind {
    Focus,
    Break,
    LongBreak,
}

/// The kind of timer that is started when `state` is left, if one is.
pub open spec fn next_phase(state: PomodoroState, total: usize) -> Option<PhaseKind> {
    match state {
        PomodoroState::Ready => Some(PhaseKind::Focus),
        PomodoroState::Focus(n) => if n <= total {
            Some(PhaseKind::Break)
        } else {
            None
        },
        PomodoroState::Break(n) => if n < total {
            Some(PhaseKind::Focus)
        } else if n == total {
            Some(PhaseKind::LongBreak)
        } else {
            None
        },
        PomodoroState::LongBreak(_) => None,
        PomodoroState::Completed => None,
    }
}

/// The session that a phase belongs to: none yet when ready, all of them once
/// the long break is reached.
pub open spec fn session_of(state: PomodoroState, total: usize) -> usize {
    match state {
        PomodoroState::Ready => 0,
        PomodoroState::Focus(n) => n,
        PomodoroState::Break(n) => n,
        PomodoroState::LongBreak(_) => total,
        PomodoroState::Completed => total,
    }
}

/// A cycle as contracts see it: its phase, its settings in nanoseconds, and
/// the timer of the current phase.
pub struct PomodoroView {
    pub state: PomodoroState,
    pub focus: nat,
    pub short_break: nat,
    pub long_break: nat,
    pub total_sessions: usize,
    pub timer: Option<TimerView>,
}

impl PomodoroView {
    /// The cycle has at least one session, the phase counts one of them, and
    /// there is a current timer exactly while the cycle is not completed.
    pub open spec fn wf(self) -> bool {
        &&& self.total_sessions >= 1
        &&& match self.state {
            PomodoroState::Focus(n) => 1 <= n <= self.total_sessions,
            PomodoroState::Break(n) => 1 <= n <= self.total_sessions,
            PomodoroState::LongBreak(n) => 1 <= n == self.total_sessions,
            _ => true,
        }
        &&& self.state != PomodoroState::Completed <==> self.timer is Some
        &&& self.timer matches Some(t) ==> t.wf()
    }

    /// The timer that counts a phase of the given kind, started at the
    /// reading `now`.
    pub open spec fn phase_timer(self, kind: PhaseKind, now: Instant) -> TimerView {
        match kind {
            PhaseKind::Focus => TimerView::fresh(self.focus, "Focus"@, now),
            PhaseKind::Break => TimerView::fresh(self.short_break, "Break"@, now),
            PhaseKind::LongBreak => TimerView::fresh(self.long_break, "Long Break"@, now),
        }
    }

    /// The cycle moved on to its next phase, with that phase's timer started
    /// at the reading `now`. After the long break the cycle is completed and
    /// has no timer; a phase without a successor stays as it is, timer and
    /// all.
    pub open spec fn advanced_at(self, now: Instant) -> PomodoroView {
        match next_phase(self.state, self.total_sessions) {
            Some(kind) => PomodoroView {
                state: next_state(self.state, self.total_sessions),
                timer: Some(self.phase_timer(kind, now)),
                ..self
            },
            None => if next_state(self.state, self.total_sessions) == PomodoroState::Completed {
                self.quit()
            } else {
                self
            },
        }
    }

    /// One heartbeat when the clock reads `now`: a timer that was left ends
    /// the cycle and goes, one whose time is up gives way to the next phase,
    /// and otherwise nothing changes.
    pub open spec fn ticked_at(self, now: Instant) -> PomodoroView {
        match self.timer {
            Some(t) => if t.status == TimerStatus::Exit {
                self.quit()
            } else if t.is_done_at(now) {
                self.advanced_at(now)
            } else {
                self
            },
            None => self,
        }
    }

    /// The cycle in another phase, all else the same but that a completed
    /// cycle has no timer.
    pub open spec fn with_state(self, state: PomodoroState) -> PomodoroView {
        PomodoroView {
            state,
            timer: if state == PomodoroState::Completed {
                None
            } else {
                self.timer
            },
            ..self
        }
    }

    /// The cycle with another current timer, all else the same.
    pub open spec fn with_timer(self, timer: Option<TimerView>) -> PomodoroView {
        PomodoroView { timer, ..self }
    }

    /// The session that the cycle is in.
    pub open spec fn current_session(self) -> usize {
        session_of(self.state, self.total_sessions)
    }

    /// The current timer paused or resumed when the clock reads `now`, where
    /// there is one.
    pub open spec fn toggled_at(self, now: Instant) -> PomodoroView {
        match self.timer {
            Some(t) => self.with_timer(Some(t.toggled_at(now))),
            None => self,
        }
    }

    /// The cycle left: it is completed and has no timer.
    pub open spec fn quit(self) -> PomodoroView {
        PomodoroView { state: PomodoroState::Completed, timer: None, ..self }
    }
}

/// A cycle of focus and break phases with the timer of its current phase.
pub struct Pomodoro {
    state: PomodoroState,
    focus_duration: Duration,
    break_duration: Duration,
    long_break_duration: Duration,
    total_sessions: usize,
    timer: Option<Timer>,
}

impl View for Pomodoro {
    type V = PomodoroView;

    closed spec fn view(&self) -> PomodoroView {
        PomodoroView {
            state: self.state,
            focus: duration_nanos(self.focus_duration),
            short_break: duration_nanos(self.break_duration),
            long_break: duration_nanos(self.long_break_duration),
            total_sessions: self.total_sessions,
            timer: match self.timer {
                Some(t) => Some(t@),
                None => None,
            },
        }
    }
}

impl Clone for Pomodoro {
    fn clone(&self) -> (copy: Self)
        ensures
            copy@ == self@,
    {
        Pomodoro {
            state: self.state,
            focus_duration: self.focus_duration,
            break_duration: self.break_duration,
            long_break_duration: self.long_break_duration,
            total_sessions: self.total_sessions,
            timer: match &self.timer {
                Some(timer) => Some(timer.clone()),
                None => None,
            },
        }
    }
}

impl Pomodoro {
    /// A cycle in the focus phase of its first session, counted by `timer`.
    pub fn new(
        total_sessions: usize,
        focus_duration: Duration,
        break_duration: Duration,
        long_break_duration: Duration,
        timer: Timer,
    ) -> (pomodoro: Self)
        ensures
            pomodoro@ == (PomodoroView {
                state: PomodoroState::Focus(1),
                focus: duration_nanos(focus_duration),
                short_break: duration_nanos(break_duration),
                long_break: duration_nanos(long_break_duration),
                total_sessions,
                timer: Some(timer@),
            }),
    {
        Pomodoro {
            state: PomodoroState::Focus(1),
            focus_duration,
            break_duration,
            long_break_duration,
            total_sessions,
            timer: Some(timer),
        }
    }

    /// One heartbeat when the clock reads `now`.
    pub fn tick_at(&mut self, now: Instant)
        ensures
            final(self)@ == old(self)@.ticked_at(now),
    {
        let (left, done) = match &self.timer {
            Some(timer) => (timer.get_status() == TimerStatus::Exit, timer.is_done_at(now)),
            None => { return ; },
        };
        if left {
            self.state = PomodoroState::Completed;
            self.timer = None;
        } else if done {
            self.next_timer(now);
        }
    }

    /// One heartbeat, by the clock.
    pub fn tick(&mut self)
        ensures
            exists|now: Instant| final(self)@ == #[trigger] old(self)@.ticked_at(now),
            old(self)@.timer matches Some(t) && t.status == TimerStatus::Exit ==> final(self)@
                == old(self)@.quit(),
            old(self)@.timer is None ==> final(self)@ == old(self)@,
    {
        self.tick_at(Instant::now());
    }

    /// Moves to the next phase and starts its timer at the reading `now`.
    fn next_timer(&mut self, now: Instant)
        ensures
            final(self)@ == old(self)@.advanced_at(now),
    {
        match self.state {
            PomodoroState::Ready => {
                self.state = PomodoroState::Focus(1);
                self.timer = Some(
                    Timer::new_at(self.focus_duration, String::from_str("Focus"), now),
                );
            },
            PomodoroState::Focus(session) if session <= self.total_sessions => {
                self.state = PomodoroState::Break(session);
                self.timer = Some(
                    Timer::new_at(self.break_duration, String::from_str("Break"), now),
                );
            },
            PomodoroState::Break(session) if session < self.total_sessions => {
                self.state = PomodoroState::Focus(session + 1);
                self.timer = Some(
                    Timer::new_at(self.focus_duration, String::from_str("Focus"), now),
                );
            },
            PomodoroState::Break(session) if session == self.total_sessions => {
                self.state = PomodoroState::LongBreak(session);
                self.timer = Some(
                    Timer::new_at(self.long_break_duration, String::from_str("Long Break"), now),
                );
            },
            PomodoroState::LongBreak(_) => {
                self.state = PomodoroState::Completed;
                self.timer = None;
            },
            PomodoroState::Completed => {
                self.timer = None;
            },
            _ => {},
        }
    }

    /// The timer of the current phase, if there is one. What is done to it is
    /// done to the cycle.
    pub fn get_timer(&mut self) -> (timer: Option<&mut Timer>)
        ensures
            match old(self)@.timer {
                Some(t) => {
                    &&& timer is Some
                    &&& timer.unwrap()@ == t
                    &&& final(self)@ == old(self)@.with_timer(Some(final(timer.unwrap())@))
                },
                None => timer is None && final(self)@ == old(self)@,
            },
    {
        self.timer.as_mut()
    }

    /// The session that the cycle is in: none yet when ready, the last one
    /// from the long break on.
    pub fn get_current_session(&self) -> (session: usize)
        ensures
            session == self@.current_session(),
    {
        match self.state {
            PomodoroState::Ready => 0,
            PomodoroState::Focus(session) | PomodoroState::Break(session) => session,
            PomodoroState::Completed => self.total_sessions,
            PomodoroState::LongBreak(_) => self.total_sessions,
        }
    }

    /// The number of sessions in the cycle.
    pub fn get_total_sessions(&self) -> (total: usize)
        ensures
            total == self@.total_sessions,
    {
        self.total_sessions
    }

    /// Whether the cycle is in a focus phase.
    pub fn is_focus(&self) -> (focus: bool)
        ensures
            focus == (self@.state is Focus),
    {
        matches!(self.state, PomodoroState::Focus(_))
    }

    /// Whether the cycle is over.
    pub fn is_completed(&self) -> (completed: bool)
        ensures
            completed == (self@.state == PomodoroState::Completed),
    {
        self.state == PomodoroState::Completed
    }

    /// The phase that the cycle is in.
    pub fn get_state(&self) -> (state: PomodoroState)
        ensures
            state == self@.state,
    {
        self.state
    }

    /// Puts the cycle into `state`. A cycle put into `Completed` loses its
    /// timer; in any other state the timer stays as it is.
    pub fn set_state(&mut self, state: PomodoroState)
        ensures
            final(self)@ == old(self)@.with_state(state),
    {
        self.state = state;
        if state == PomodoroState::Completed {
            self.timer = None;
        }
    }
}

/// The phase reached from the first focus phase after `steps` completed
/// phases.
pub open spec fn nth_state(total: usize, steps: nat) -> PomodoroState
    decreases steps,
{
    if steps == 0 {
        PomodoroState::Focus(1)
    } else {
        next_state(nth_state(total, (steps - 1) as nat), total)
    }
}

/// The cycle of `total` sessions written out: focus and break of each session
/// in turn, then the long break, then the end.
pub open spec fn cycle_state(total: usize, steps: nat) -> PomodoroState {
    if steps < 2 * total {
        if steps % 2 == 0 {
            PomodoroState::Focus((steps / 2 + 1) as usize)
        } else {
            PomodoroState::Break((steps / 2 + 1) as usize)
        }
    } else if steps == 2 * total {
        PomodoroState::LongBreak(total)
    } else {
        PomodoroState::Completed
    }
}

/// A cycle of `total` sessions, of at least one, passes through
/// `Focus(1), Break(1), .., Focus(total), Break(total), LongBreak(total)` and
/// then stays `Completed`. A cycle that is ready begins there, too.
pub proof fn law_cycle_order(total: usize, steps: nat)
    requires
        total >= 1,
    ensures
        nth_state(total, steps) == cycle_state(total, steps),
        next_state(PomodoroState::Ready, total) == nth_state(total, 0),
    decreases steps,
{
    if steps > 0 {
        law_cycle_order(total, (steps - 1) as nat);
    }
}

/// A heartbeat changes the phase only by ending the cycle or by one step of
/// it, and keeps a well-formed cycle well-formed.
pub proof fn law_tick_steps(p: PomodoroView, now: Instant)
    requires
        p.wf(),
    ensures
        p.ticked_at(now).wf(),
        p.ticked_at(now).state == p.state || p.ticked_at(now).state == PomodoroState::Completed
            || p.ticked_at(now).state == next_state(p.state, p.total_sessions),
        p.ticked_at(now).total_sessions == p.total_sessions,
{
}

/// A cycle has a current timer exactly while it is not completed: where that
/// holds before a heartbeat, a pause or resume, or the leaving of the cycle,
/// it holds after, in whatever way the cycle came to be completed.
pub proof fn law_completed_has_no_timer(p: PomodoroView, now: Instant)
    requires
        p.state == PomodoroState::Completed <==> p.timer is None,
    ensures
        p.ticked_at(now).state == PomodoroState::Completed <==> p.ticked_at(now).timer is None,
        p.toggled_at(now).state == PomodoroState::Completed <==> p.toggled_at(now).timer is None,
        p.quit().state == PomodoroState::Completed && p.quit().timer is None,
        p.with_state(PomodoroState::Completed).timer is None,
{
}

/// Pausing, resuming and leaving keep a well-formed cycle well-formed, and so
/// does marking its timer as left.
pub proof fn law_actions_keep_wf(p: PomodoroView, now: Instant)
    requires
        p.wf(),
    ensures
        p.toggled_at(now).wf(),
        p.quit().wf(),
        p.with_state(PomodoroState::Completed).wf(),
        p.timer matches Some(t) ==> p.with_timer(Some(t.with_status(TimerStatus::Exit))).wf(),
{
}

/// The session counted never falls from one heartbeat to the next.
pub proof fn law_session_never_falls(p: PomodoroView, now: Instant)
    requires
        p.wf(),
    ensures
        p.current_session() <= p.ticked_at(now).current_session(),
{
}

/// Once a cycle is completed it stays so.
pub proof fn law_completed_stays(p: PomodoroView, now: Instant)
    requires
        p.state == PomodoroState::Completed,
    ensures
        p.ticked_at(now).state == PomodoroState::Completed,
        p.advanced_at(now).state == PomodoroState::Completed,
{
}

/// A cycle that is left before its end is completed at the next heartbeat,
/// whatever the phase and whatever the clock: it is enough that its timer is
/// marked as left, and the controller completes the cycle at once besides.
/// Either way the completed cycle has no timer.
pub proof fn law_quit_completes(p: PomodoroView, now: Instant)
    requires
        p.wf(),
        p.state != PomodoroState::Completed,
    ensures
        p.timer is Some,
        p.with_timer(Some(p.timer.unwrap().with_status(TimerStatus::Exit))).ticked_at(now)
            == p.quit(),
        p.quit().state == PomodoroState::Completed,
        p.quit().timer is None,
        p.quit().ticked_at(now) == p.quit(),
{
}

/// A phase does not end before its timer has counted its length: where a
/// heartbeat at the reading `now` moves a cycle on whose timer runs, the time
/// counted before and the time since the timer was started or resumed make up
/// the timer's length at least, and the next phase's timer starts at `now`.
/// The length is one that a `Duration` can hold.
pub proof fn law_phase_lasts(p: PomodoroView, t: TimerView, now: Instant)
    requires
        p.timer == Some(t),
        t.wf(),
        t.total <= MAX_NANOS,
        t.status == TimerStatus::Running,
        p.ticked_at(now) != p,
    ensures
        t.accumulated + time_between(now, t.started_at) >= t.total,
        p.ticked_at(now) == p.advanced_at(now),
        p.ticked_at(now).timer matches Some(next) ==> next.started_at == now
            && next.accumulated == 0,
{
}

/// A cycle in its first focus phase, with the timer of that phase started at
/// the reading `now`.
pub open spec fn first_phase(
    total_sessions: usize,
    focus: nat,
    short_break: nat,
    long_break: nat,
    now: Instant,
) -> PomodoroView {
    PomodoroView {
        state: PomodoroState::Focus(1),
        focus,
        short_break,
        long_break,
        total_sessions,
        timer: Some(TimerView::fresh(focus, "Focus"@, now)),
    }
}

/// The cycle after heartbeats at the readings `beats`, one after the other.
pub open spec fn run(p: PomodoroView, beats: Seq<Instant>) -> PomodoroView
    decreases beats.len(),
{
    if beats.len() == 0 {
        p
    } else {
        run(p, beats.drop_last()).ticked_at(beats.last())
    }
}

/// The time that a heartbeat at the reading `now` finds counted by the
/// timer of a phase that it ends, and none where it ends no phase.
pub open spec fn counted_at(p: PomodoroView, now: Instant) -> nat {
    match p.timer {
        Some(t) => if t.status != TimerStatus::Exit && t.is_done_at(now) {
            t.elapsed_at(now)
        } else {
            0
        },
        None => 0,
    }
}

/// The time that the timers of all the phases counted which the heartbeats
/// at the readings `beats` ended: for a timer that ran without a pause, the
/// time from the heartbeat that started it to the one that ended it.
pub open spec fn counted(p: PomodoroView, beats: Seq<Instant>) -> nat
    decreases beats.len(),
{
    if beats.len() == 0 {
        0
    } else {
        counted(p, beats.drop_last()) + counted_at(run(p, beats.drop_last()), beats.last())
    }
}

/// The length of the phase that a cycle is in.
pub open spec fn phase_length(p: PomodoroView) -> nat {
    match p.state {
        PomodoroState::Focus(_) => p.focus,
        PomodoroState::Break(_) => p.short_break,
        PomodoroState::LongBreak(_) => p.long_break,
        _ => 0,
    }
}

/// The lengths of all the phases that lie before the one a cycle is in.
pub open spec fn lengths_before(p: PomodoroView) -> nat {
    let pair = p.focus + p.short_break;
    match p.state {
        PomodoroState::Ready => 0,
        PomodoroState::Focus(n) => ((n - 1) * pair) as nat,
        PomodoroState::Break(n) => ((n - 1) * pair + p.focus) as nat,
        PomodoroState::LongBreak(_) => (p.total_sessions * pair) as nat,
        PomodoroState::Completed => (p.total_sessions * pair + p.long_break) as nat,
    }
}

/// A cycle as heartbeats alone leave it: well-formed, with the settings it
/// began with, and its timer running and of the length of its phase.
spec fn on_course(begun: PomodoroView, p: PomodoroView) -> bool {
    &&& p.wf()
    &&& p.state != PomodoroState::Ready
    &&& p.focus == begun.focus
    &&& p.short_break == begun.short_break
    &&& p.long_break == begun.long_break
    &&& p.total_sessions == begun.total_sessions
    &&& p.timer matches Some(t) ==> t.status == TimerStatus::Running && t.total == phase_length(p)
}

proof fn lemma_beat_counts(begun: PomodoroView, p: PomodoroView, now: Instant)
    requires
        on_course(begun, p),
    ensures
        on_course(begun, p.ticked_at(now)),
        lengths_before(p.ticked_at(now)) <= lengths_before(p) + counted_at(p, now),
{
    let pair = p.focus + p.short_break;
    match p.state {
        PomodoroState::Break(n) => {
            assert(n * pair == (n - 1) * pair + pair) by (nonlinear_arith);
        },
        _ => {},
    }
}

proof fn lemma_run_counts(begun: PomodoroView, beats: Seq<Instant>)
    requires
        on_course(begun, begun),
    ensures
        on_course(begun, run(begun, beats)),
        lengths_before(run(begun, beats)) <= lengths_before(begun) + counted(begun, beats),
    decreases beats.len(),
{
    if beats.len() > 0 {
        lemma_run_counts(begun, beats.drop_last());
        lemma_beat_counts(begun, run(begun, beats.drop_last()), beats.last());
    }
}

/// A cycle does not end before its timers have counted the sum of its
/// phases. Begun at the reading `start` and driven by heartbeats alone, at
/// whatever readings, a cycle of `total` sessions that is completed has had
/// the timers of its phases count `total` times focus and break and the long
/// break at least; and each of these timers counted from the heartbeat that
/// ended the phase before.
pub proof fn law_cycle_lasts(
    total: usize,
    focus: nat,
    short_break: nat,
    long_break: nat,
    start: Instant,
    beats: Seq<Instant>,
)
    requires
        total >= 1,
        run(first_phase(total, focus, short_break, long_break, start), beats).state
            == PomodoroState::Completed,
    ensures
        counted(first_phase(total, focus, short_break, long_break, start), beats) >= total * (
        focus + short_break) + long_break,
{
    let begun = first_phase(total, focus, short_break, long_break, start);
    // The cycle begins on course, with nothing before its first phase.
    assert((1 - 1) * (focus + short_break) == 0);
    lemma_run_counts(begun, beats);
}

/// A cycle driven through the session interface.
pub struct PomodoroSession {
    pomodoro: Pomodoro,
}

impl View for PomodoroSession {
    type V = PomodoroView;

    closed spec fn view(&self) -> PomodoroView {
        self.pomodoro@
    }
}

impl PomodoroSession {
    /// A cycle in its first focus phase, with the timer of that phase started
    /// at the reading `now`.
    pub fn new_at(
        total_sessions: usize,
        focus_duration: Duration,
        break_duration: Duration,
        long_break_duration: Duration,
        now: Instant,
    ) -> (session: Self)
        ensures
            session@ == first_phase(
                total_sessions,
                duration_nanos(focus_duration),
                duration_nanos(break_duration),
                duration_nanos(long_break_duration),
                now,
            ),
    {
        let first_timer = Timer::new_at(focus_duration, String::from_str("Focus"), now);
        let pomodoro = Pomodoro::new(
            total_sessions,
            focus_duration,
            break_duration,
            long_break_duration,
            first_timer,
        );
        PomodoroSession { pomodoro }
    }

    /// A cycle in its first focus phase, with the timer of that phase started
    /// now.
    pub fn new(
        total_sessions: usize,
        focus_duration: Duration,
        break_duration: Duration,
        long_break_duration: Duration,
    ) -> (session: Self)
        ensures
            exists|now: Instant|
                session@ == #[trigger] first_phase(
                    total_sessions,
                    duration_nanos(focus_duration),
                    duration_nanos(break_duration),
                    duration_nanos(long_break_duration),
                    now,
                ),
    {
        Self::new_at(
            total_sessions,
            focus_duration,
            break_duration,
            long_break_duration,
            Instant::now(),
        )
    }
}

impl Session for PomodoroSession {
    open spec fn model(&self) -> SessionView {
        SessionView::Cycle(self@)
    }

    fn tick_at(&mut self, now: Instant) {
        self.pomodoro.tick_at(now)
    }

    fn is_finished(&self) -> (finished: bool) {
        self.pomodoro.is_completed()
    }

    fn toggle_pause_at(&mut self, now: Instant) {
        if let Some(timer) = self.pomodoro.get_timer() {
            timer.toggle_pause_at(now);
        }
    }

    fn get_timer(&mut self) -> (timer: Option<&mut Timer>) {
        self.pomodoro.get_timer()
    }

    fn get_pomodoro(&mut self) -> (pomodoro: Option<&mut Pomodoro>) {
        Some(&mut self.pomodoro)
    }
}

} // verus!

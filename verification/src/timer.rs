//! The countdown for one phase: it runs from the moment it is made, can be
//! paused and resumed without drift, and reports what is left in whole seconds.

use crate::app::{Session, SessionView};
use crate::clock::{
    clamp_nanos, duration_nanos, span, time_between, time_since, MAX_NANOS, NANOS_PER_SEC,
};
use crate::pomodoro::Pomodoro;
use crate::text::{clock_string, clock_text};
use std::time::{Duration, Instant};
use vstd::prelude::*;
use vstd::string::*;

verus! {

/// What a timer is doing.
#[derive(PartialEq, Eq, Copy, Clone, Debug, Structural)]
pub enum TimerStatus {
    Running,
    Paused,
    /// A single timer that has run out.
    Done,
    /// The session was left.
    Exit,
}

impl TimerStatus {
    /// The name of the status.
    pub open spec fn text(self) -> Seq<char> {
        match self {
            TimerStatus::Running => "Running"@,
            TimerStatus::Paused => "Paused"@,
            TimerStatus::Done => "Done"@,
            TimerStatus::Exit => "Exit"@,
        }
    }

    /// The status by name.
    pub fn to_text(&self) -> (text: String)
        ensures
            text@ == self.text(),
    {
        match self {
            TimerStatus::Running => String::from_str("Running"),
            TimerStatus::Paused => String::from_str("Paused"),
            TimerStatus::Done => String::from_str("Done"),
            TimerStatus::Exit => String::from_str("Exit"),
        }
    }
}

/// What a participant can do to the running session.
#[derive(PartialEq, Eq, Copy, Clone, Debug, Structural)]
pub enum TimerAction {
    Pause,
    Quit,
}

/// A timer as contracts see it: what it is doing, the time counted up to the
/// last pause and the length it counts down from, both in nanoseconds, its
/// name, and the reading of the clock at which it was started or last resumed.
pub struct TimerView {
    pub status: TimerStatus,
    pub accumulated: nat,
    pub total: nat,
    pub name: Seq<char>,
    pub started_at: Instant,
}

impl TimerView {
    /// The time counted is one that a `Duration` can hold.
    pub open spec fn wf(self) -> bool {
        self.accumulated <= MAX_NANOS
    }

    /// A timer that has just been started, at the reading `now`.
    pub open spec fn fresh(total: nat, name: Seq<char>, now: Instant) -> TimerView {
        TimerView { status: TimerStatus::Running, accumulated: 0, total, name, started_at: now }
    }

    /// How long the timer's clock has run when the clock reads `now`: the
    /// time since the timer was started or last resumed, and none for a timer
    /// that is not running.
    pub open spec fn run_at(self, now: Instant) -> nat {
        if self.status == TimerStatus::Running {
            time_between(now, self.started_at)
        } else {
            0
        }
    }

    /// The time counted so far, when the clock has run for `running_for`
    /// nanoseconds since the timer was started or last resumed. Only a running
    /// timer counts the clock.
    pub open spec fn elapsed_after(self, running_for: nat) -> nat {
        if self.status == TimerStatus::Running {
            clamp_nanos(self.accumulated + running_for)
        } else {
            self.accumulated
        }
    }

    /// The time counted so far when the clock reads `now`.
    pub open spec fn elapsed_at(self, now: Instant) -> nat {
        self.elapsed_after(self.run_at(now))
    }

    /// Whether the time counted has reached the length. It may go beyond.
    pub open spec fn is_done_after(self, running_for: nat) -> bool {
        self.elapsed_after(running_for) >= self.total
    }

    /// Whether the time counted has reached the length when the clock reads
    /// `now`.
    pub open spec fn is_done_at(self, now: Instant) -> bool {
        self.is_done_after(self.run_at(now))
    }

    /// What is left to the nanosecond, never below zero.
    pub open spec fn left_after(self, running_for: nat) -> nat {
        let elapsed = self.elapsed_after(running_for);
        if self.total > elapsed {
            (self.total - elapsed) as nat
        } else {
            0
        }
    }

    /// What is left as shown: what is left to the nanosecond, rounded up to
    /// whole seconds.
    pub open spec fn remaining_after(self, running_for: nat) -> nat {
        shown(self.left_after(running_for))
    }

    /// What is left as shown when the clock reads `now`.
    pub open spec fn remaining_at(self, now: Instant) -> nat {
        self.remaining_after(self.run_at(now))
    }

    /// The timer paused if it was running, with what it had counted after
    /// `running_for` kept; running again from the reading `now` if it was
    /// paused; as it was otherwise.
    pub open spec fn toggled(self, running_for: nat, now: Instant) -> TimerView {
        match self.status {
            TimerStatus::Running => TimerView {
                status: TimerStatus::Paused,
                accumulated: self.elapsed_after(running_for),
                ..self
            },
            TimerStatus::Paused => TimerView {
                status: TimerStatus::Running,
                started_at: now,
                ..self
            },
            _ => self,
        }
    }

    /// The timer paused or resumed when the clock reads `now`.
    pub open spec fn toggled_at(self, now: Instant) -> TimerView {
        self.toggled(self.run_at(now), now)
    }

    /// The timer after one heartbeat: a running timer whose time is up is
    /// left, any other is as it was.
    pub open spec fn ticked_after(self, running_for: nat) -> TimerView {
        if self.status == TimerStatus::Running && self.is_done_after(running_for) {
            TimerView { status: TimerStatus::Exit, ..self }
        } else {
            self
        }
    }

    /// The timer after one heartbeat when the clock reads `now`.
    pub open spec fn ticked_at(self, now: Instant) -> TimerView {
        self.ticked_after(self.run_at(now))
    }

    /// The timer in another status, all else the same.
    pub open spec fn with_status(self, status: TimerStatus) -> TimerView {
        TimerView { status, ..self }
    }
}

/// The whole seconds that hold `left` nanoseconds: `left` rounded up.
pub open spec fn seconds_up(left: nat) -> nat {
    (left + 999_999_999) / 1_000_000_000
}

/// A span of `left` nanoseconds as the display shows it, in nanoseconds:
/// rounded up to whole seconds, never down, and at most `u64::MAX` seconds.
pub open spec fn shown(left: nat) -> nat {
    if seconds_up(left) >= u64::MAX {
        (u64::MAX * 1_000_000_000) as nat
    } else {
        seconds_up(left) * 1_000_000_000
    }
}

/// A countdown of a given length with a name.
pub struct Timer {
    status: TimerStatus,
    started_at: Instant,
    elapsed: u128,
    duration: Duration,
    name: String,
}

impl View for Timer {
    type V = TimerView;

    closed spec fn view(&self) -> TimerView {
        TimerView {
            status: self.status,
            accumulated: self.elapsed as nat,
            total: duration_nanos(self.duration),
            name: self.name@,
            started_at: self.started_at,
        }
    }
}

impl Timer {
    #[verifier::type_invariant]
    spec fn bounded(self) -> bool {
        self.elapsed <= MAX_NANOS
    }

    /// A running timer of length `t`, started at the reading `now`.
    pub fn new_at(t: Duration, name: String, now: Instant) -> (timer: Self)
        ensures
            timer@ == TimerView::fresh(duration_nanos(t), name@, now),
    {
        Timer { started_at: now, elapsed: 0, duration: t, status: TimerStatus::Running, name }
    }

    /// A running timer of length `t`, started now.
    pub fn new(t: Duration, name: String) -> (timer: Self)
        ensures
            exists|now: Instant|
                timer@ == #[trigger] TimerView::fresh(duration_nanos(t), name@, now),
    {
        Self::new_at(t, name, Instant::now())
    }

    /// How long the timer's clock has run when the clock reads `now`.
    pub fn running_for_at(&self, now: Instant) -> (d: Duration)
        ensures
            duration_nanos(d) == self@.run_at(now),
    {
        match self.status {
            TimerStatus::Running => now.saturating_duration_since(self.started_at),
            _ => Duration::new(0, 0),
        }
    }

    /// How long the clock has run since the timer was started or resumed; zero
    /// for a timer that is not running.
    pub fn running_for(&self) -> (d: Duration)
        ensures
            exists|now: Instant| duration_nanos(d) == #[trigger] self@.run_at(now),
            self@.status != TimerStatus::Running ==> duration_nanos(d) == 0,
    {
        match self.status {
            TimerStatus::Running => {
                let d = time_since(self.started_at);
                proof {
                    let now = choose|now: Instant|
                        duration_nanos(d) == #[trigger] time_between(now, self.started_at);
                    assert(duration_nanos(d) == self@.run_at(now));
                }
                d
            },
            _ => {
                let d = Duration::new(0, 0);
                assert(duration_nanos(d) == self@.run_at(self@.started_at));
                d
            },
        }
    }

    fn elapsed_nanos_at(&self, now: Instant) -> (n: u128)
        ensures
            n == self@.elapsed_at(now),
            n <= MAX_NANOS,
    {
        proof {
            use_type_invariant(self);
        }
        match self.status {
            TimerStatus::Running => {
                let run = now.saturating_duration_since(self.started_at);
                match self.elapsed.checked_add(run.as_nanos()) {
                    Some(sum) => if sum <= MAX_NANOS {
                        sum
                    } else {
                        MAX_NANOS
                    },
                    None => MAX_NANOS,
                }
            },
            _ => self.elapsed,
        }
    }

    /// The time counted so far when the clock reads `now`.
    pub fn elapsed_time_at(&self, now: Instant) -> (e: Duration)
        ensures
            duration_nanos(e) == self@.elapsed_at(now),
    {
        span(self.elapsed_nanos_at(now))
    }

    /// The time counted so far, by the clock.
    pub fn elapsed_time(&self) -> (e: Duration)
        ensures
            exists|now: Instant| duration_nanos(e) == #[trigger] self@.elapsed_at(now),
            self@.status != TimerStatus::Running ==> duration_nanos(e) == self@.accumulated,
    {
        self.elapsed_time_at(Instant::now())
    }

    /// Whether the counted time has reached the timer's length when the clock
    /// reads `now`.
    pub fn is_done_at(&self, now: Instant) -> (done: bool)
        ensures
            done == self@.is_done_at(now),
    {
        self.elapsed_nanos_at(now) >= self.duration.as_nanos()
    }

    /// Whether the counted time has reached the timer's length, by the clock.
    pub fn is_done(&self) -> (done: bool)
        ensures
            exists|now: Instant| done == #[trigger] self@.is_done_at(now),
            self@.status != TimerStatus::Running ==> done == (self@.accumulated >= self@.total),
            self@.accumulated >= self@.total ==> done,
    {
        proof {
            use_type_invariant(self);
        }
        self.is_done_at(Instant::now())
    }

    /// One heartbeat when the clock reads `now`: a running timer whose time
    /// is up leaves; any other timer is unchanged.
    pub fn tick_at(&mut self, now: Instant)
        ensures
            final(self)@ == old(self)@.ticked_at(now),
    {
        proof {
            use_type_invariant(&*self);
        }
        if self.status == TimerStatus::Running && self.is_done_at(now) {
            self.status = TimerStatus::Exit;
        }
    }

    /// One heartbeat, by the clock.
    pub fn tick(&mut self)
        ensures
            exists|now: Instant| final(self)@ == #[trigger] old(self)@.ticked_at(now),
            old(self)@.status != TimerStatus::Running ==> final(self)@ == old(self)@,
    {
        self.tick_at(Instant::now());
    }

    /// Pauses a running timer, keeping what it has counted when the clock
    /// reads `now`; resumes a paused one, whose clock then runs from `now`;
    /// leaves any other alone.
    pub fn toggle_pause_at(&mut self, now: Instant)
        ensures
            final(self)@ == old(self)@.toggled_at(now),
    {
        proof {
            use_type_invariant(&*self);
        }
        match self.status {
            TimerStatus::Running => {
                self.elapsed = self.elapsed_nanos_at(now);
                self.status = TimerStatus::Paused;
            },
            TimerStatus::Paused => {
                self.started_at = now;
                self.status = TimerStatus::Running;
            },
            _ => {},
        }
    }

    /// Pauses a running timer and resumes a paused one, by the clock.
    pub fn toggle_pause(&mut self)
        ensures
            exists|now: Instant| final(self)@ == #[trigger] old(self)@.toggled_at(now),
    {
        self.toggle_pause_at(Instant::now());
    }

    /// What the timer is doing.
    pub fn get_status(&self) -> (status: TimerStatus)
        ensures
            status == self@.status,
    {
        self.status
    }

    /// Puts the timer into `status`, whatever it was doing.
    pub fn set_status(&mut self, status: TimerStatus)
        ensures
            final(self)@ == old(self)@.with_status(status),
    {
        proof {
            use_type_invariant(&*self);
        }
        self.status = status;
    }

    /// What is left as shown when the clock reads `now`: what is left to the
    /// nanosecond, rounded up to whole seconds.
    pub fn remaining_time_at(&self, now: Instant) -> (left: Duration)
        ensures
            duration_nanos(left) == self@.remaining_at(now),
    {
        let elapsed = self.elapsed_nanos_at(now);
        let total = self.duration.as_nanos();
        if total <= elapsed {
            return Duration::new(0, 0);
        }
        let left: u128 = total - elapsed;
        let whole: u128 = left / NANOS_PER_SEC;
        let up: u128 = if left % NANOS_PER_SEC == 0 {
            whole
        } else {
            whole + 1
        };
        if up >= u64::MAX as u128 {
            Duration::new(u64::MAX, 0)
        } else {
            Duration::new(up as u64, 0)
        }
    }

    /// What is left as shown, by the clock.
    pub fn remaining_time(&self) -> (left: Duration)
        ensures
            exists|now: Instant| duration_nanos(left) == #[trigger] self@.remaining_at(now),
            self@.status != TimerStatus::Running ==> duration_nanos(left)
                == self@.remaining_after(0),
    {
        self.remaining_time_at(Instant::now())
    }

    /// The length that the timer counts down from.
    pub fn get_duration(&self) -> (d: Duration)
        ensures
            duration_nanos(d) == self@.total,
    {
        self.duration
    }

    /// The name that the timer was given.
    pub fn get_name(&self) -> (name: &str)
        ensures
            name@ == self@.name,
    {
        self.name.as_str()
    }

    /// The whole seconds of `total_seconds`, written as days, hours, minutes
    /// and seconds.
    pub fn format_duration(&self, total_seconds: Duration) -> (text: String)
        ensures
            text@ == clock_text(whole_seconds(duration_nanos(total_seconds))),
    {
        let nanos = total_seconds.as_nanos();
        let secs: u128 = nanos / NANOS_PER_SEC;
        if secs > u64::MAX as u128 {
            clock_string(u64::MAX)
        } else {
            clock_string(secs as u64)
        }
    }

    /// What is left as the display writes it when the clock reads `now`.
    pub fn to_text_at(&self, now: Instant) -> (text: String)
        ensures
            text@ == clock_text(whole_seconds(self@.remaining_at(now))),
    {
        self.format_duration(self.remaining_time_at(now))
    }

    /// What is left as the display writes it, by the clock.
    pub fn to_text(&self) -> (text: String)
        ensures
            exists|now: Instant|
                text@ == clock_text(whole_seconds(#[trigger] self@.remaining_at(now))),
    {
        self.to_text_at(Instant::now())
    }
}

/// The whole seconds in a count of nanoseconds, at most `u64::MAX`.
pub open spec fn whole_seconds(nanos: nat) -> nat {
    if nanos / 1_000_000_000 > u64::MAX {
        u64::MAX as nat
    } else {
        nanos / 1_000_000_000
    }
}

impl Clone for Timer {
    fn clone(&self) -> (copy: Self)
        ensures
            copy@ == self@,
    {
        proof {
            use_type_invariant(self);
        }
        Timer {
            status: self.status,
            started_at: self.started_at,
            elapsed: self.elapsed,
            duration: self.duration,
            name: self.name.clone(),
        }
    }
}

/// A single countdown driven through the session interface.
pub struct TimerSession {
    timer: Timer,
}

impl View for TimerSession {
    type V = TimerView;

    closed spec fn view(&self) -> TimerView {
        self.timer@
    }
}

impl TimerSession {
    /// A countdown of length `duration`, started at the reading `now`.
    pub fn new_at(duration: Duration, name: String, now: Instant) -> (session: Self)
        ensures
            session@ == TimerView::fresh(duration_nanos(duration), name@, now),
    {
        TimerSession { timer: Timer::new_at(duration, name, now) }
    }

    /// A countdown of length `duration`, started now.
    pub fn new(duration: Duration, name: String) -> (session: Self)
        ensures
            exists|now: Instant|
                session@ == #[trigger] TimerView::fresh(duration_nanos(duration), name@, now),
    {
        Self::new_at(duration, name, Instant::now())
    }
}

impl Session for TimerSession {
    open spec fn model(&self) -> SessionView {
        SessionView::Single(self@)
    }

    fn tick_at(&mut self, now: Instant) {
        self.timer.tick_at(now)
    }

    fn is_finished(&self) -> (finished: bool) {
        self.timer.get_status() == TimerStatus::Exit
    }

    fn toggle_pause_at(&mut self, now: Instant) {
        self.timer.toggle_pause_at(now)
    }

    fn get_timer(&mut self) -> (timer: Option<&mut Timer>) {
        Some(&mut self.timer)
    }

    fn get_pomodoro(&mut self) -> (pomodoro: Option<&mut Pomodoro>) {
        None
    }
}

/// A timer that has just been made, read at the reading at which it was
/// started, shows its length rounded up to whole seconds: a length of whole
/// seconds shows as itself, and none as none.
pub proof fn law_fresh_shows_length(total: nat, name: Seq<char>, now: Instant)
    ensures
        TimerView::fresh(total, name, now).wf(),
        TimerView::fresh(total, name, now).elapsed_after(0) == 0,
        TimerView::fresh(total, name, now).remaining_after(0) == shown(total),
        TimerView::fresh(total, name, now).elapsed_at(now) == 0,
        TimerView::fresh(total, name, now).remaining_at(now) == shown(total),
        total % 1_000_000_000 == 0 && total / 1_000_000_000 <= u64::MAX ==> shown(total) == total,
{
}

/// What is shown is what is left rounded up to whole seconds and never down:
/// it has no fraction of a second, it is nothing exactly when nothing is left,
/// and it is what is left or more, by less than a second, unless that is
/// beyond `u64::MAX` seconds.
pub proof fn law_shown_rounds_up(left: nat)
    ensures
        shown(left) % 1_000_000_000 == 0,
        shown(left) == 0 <==> left == 0,
        shown(left) <= u64::MAX * 1_000_000_000,
        left <= u64::MAX * 1_000_000_000 ==> left <= shown(left) < left + 1_000_000_000,
        left > u64::MAX * 1_000_000_000 ==> shown(left) == u64::MAX * 1_000_000_000,
{
}

/// The counted time never falls as the clock runs on, and only a running
/// timer counts.
pub proof fn law_elapsed_grows(t: TimerView, earlier: nat, later: nat)
    requires
        t.wf(),
        earlier <= later,
    ensures
        t.elapsed_after(earlier) <= t.elapsed_after(later),
        t.status != TimerStatus::Running ==> t.elapsed_after(later) == t.elapsed_after(earlier),
{
}

/// What a timer shows never grows as the clock runs on.
pub proof fn law_remaining_never_grows(t: TimerView, earlier: nat, later: nat)
    requires
        t.wf(),
        earlier <= later,
    ensures
        t.left_after(later) <= t.left_after(earlier),
        t.remaining_after(later) <= t.remaining_after(earlier),
{
}

/// While a timer runs and time is left, what is left to the nanosecond falls
/// with every nanosecond of the clock. The timer's length is one that a
/// `Duration` can hold.
pub proof fn law_left_falls(t: TimerView, earlier: nat, later: nat)
    requires
        t.wf(),
        t.total <= MAX_NANOS,
        t.status == TimerStatus::Running,
        earlier < later,
        t.left_after(earlier) > 0,
    ensures
        t.left_after(later) < t.left_after(earlier),
{
}

/// While a timer runs, what it shows falls between two readings of the clock
/// exactly when fewer whole seconds hold what is left at the second reading
/// than at the first. The timer's length is at most `u64::MAX` seconds, so
/// that the rounding up does not saturate.
pub proof fn law_remaining_falls(t: TimerView, earlier: nat, later: nat)
    requires
        t.wf(),
        t.total <= u64::MAX * 1_000_000_000,
        t.status == TimerStatus::Running,
        earlier <= later,
    ensures
        t.remaining_after(later) < t.remaining_after(earlier) <==> seconds_up(
            t.left_after(later),
        ) < seconds_up(t.left_after(earlier)),
{
}

/// A second later, a running timer that showed anything shows less.
pub proof fn law_remaining_falls_each_second(t: TimerView, earlier: nat, later: nat)
    requires
        t.wf(),
        t.total <= u64::MAX * 1_000_000_000,
        t.status == TimerStatus::Running,
        earlier + 1_000_000_000 <= later,
        t.remaining_after(earlier) > 0,
    ensures
        t.remaining_after(later) < t.remaining_after(earlier),
{
}

/// A pause keeps what the timer had counted. Paused at the reading `paused`
/// and resumed at the reading `resumed`, the count stands still at every
/// reading in between, and after the resume it goes on from where it stood
/// by the time since `resumed` alone: the time between the two readings is
/// not counted, whatever it is.
pub proof fn law_pause_keeps_elapsed(t: TimerView, paused: Instant, resumed: Instant, now: Instant)
    requires
        t.wf(),
        t.status == TimerStatus::Running,
    ensures
        t.toggled_at(paused).status == TimerStatus::Paused,
        t.toggled_at(paused).wf(),
        t.toggled_at(paused).elapsed_at(now) == t.elapsed_at(paused),
        t.toggled_at(paused).toggled_at(resumed).status == TimerStatus::Running,
        t.toggled_at(paused).toggled_at(resumed).started_at == resumed,
        t.toggled_at(paused).toggled_at(resumed).elapsed_at(now) == clamp_nanos(
            t.elapsed_at(paused) + time_between(now, resumed),
        ),
{
}

} // verus!

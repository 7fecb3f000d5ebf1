//! The focus/break timer state machine.
//!
//! A `Counter` owns the remaining focus seconds, the accumulated break
//! seconds, the session count within the current clover and the
//! paused/focusing/on-break state. It advances by one discrete tick at a
//! time through [`Counter::advance`] (or [`Counter::work`], which discards
//! the emitted events).

use vstd::prelude::*;

verus! {

/// Default focus-session length in seconds (25 minutes).
pub const DEFAULT_FOCUS_TIME: u16 = 25 * 60;

/// Bonus break seconds granted when a clover (4 sessions) completes
/// (15 minutes).
pub const CLOVER_BREAK_BONUS: u16 = 15 * 60;

/// The tri-state of the counter: paused between sessions, counting a
/// focus session down, or consuming accumulated break seconds.
#[derive(Copy, Clone, Debug)]
pub enum CounterWorkState {
    Paused,
    Focusing,
    OnBreak,
}

impl CounterWorkState {
    /// True in any state other than `Paused`.
    pub fn is_active(&self) -> (r: bool)
        ensures
            r == !(self is Paused),
    {
        match self {
            CounterWorkState::Paused => false,
            _ => true,
        }
    }

    /// True exactly while a focus session is running.
    pub fn is_focusing(&self) -> (r: bool)
        ensures
            r == (self is Focusing),
    {
        match self {
            CounterWorkState::Focusing => true,
            _ => false,
        }
    }

    /// The compact optional-boolean encoding of the state: absent means
    /// paused, `true` focusing, `false` on break.
    pub fn into_inner(&self) -> (r: Option<bool>)
        ensures
            r == self.spec_inner(),
    {
        match self {
            CounterWorkState::Paused => None,
            CounterWorkState::Focusing => Some(true),
            CounterWorkState::OnBreak => Some(false),
        }
    }

    /// The optional-boolean encoding, at the specification level.
    pub open spec fn spec_inner(self) -> Option<bool> {
        match self {
            CounterWorkState::Paused => None,
            CounterWorkState::Focusing => Some(true),
            CounterWorkState::OnBreak => Some(false),
        }
    }

    /// Force the state on (focusing) or off (paused).
    pub fn set_active(&mut self, active: bool)
        ensures
            *final(self) == if active {
                CounterWorkState::Focusing
            } else {
                CounterWorkState::Paused
            },
    {
        *self = if active { CounterWorkState::Focusing } else { CounterWorkState::Paused };
    }

    /// Switch between paused and focusing; any active state pauses.
    pub fn toggle_active(&mut self)
        ensures
            *final(self) == if *old(self) is Paused {
                CounterWorkState::Focusing
            } else {
                CounterWorkState::Paused
            },
    {
        *self = match self {
            CounterWorkState::Paused => CounterWorkState::Focusing,
            _ => CounterWorkState::Paused,
        };
    }

    /// Store the focusing flag directly: `true` focusing, `false` on
    /// break. Unlike [`Self::toggle_break`], this activates a paused
    /// counter.
    pub fn set_break(&mut self, on_break: bool)
        ensures
            *final(self) == if on_break {
                CounterWorkState::Focusing
            } else {
                CounterWorkState::OnBreak
            },
            final(self).spec_inner() == Some(on_break),
    {
        *self = if on_break { CounterWorkState::Focusing } else { CounterWorkState::OnBreak };
    }

    /// Flip between focusing and on-break while active. Toggling a paused
    /// state is a no-op: the state stays paused.
    pub fn toggle_break(&mut self)
        ensures
            *final(self) == match *old(self) {
                CounterWorkState::Paused => CounterWorkState::Paused,
                CounterWorkState::Focusing => CounterWorkState::OnBreak,
                CounterWorkState::OnBreak => CounterWorkState::Focusing,
            },
            *old(self) is Paused ==> *final(self) is Paused,
    {
        *self = match self {
            CounterWorkState::Paused => CounterWorkState::Paused,
            CounterWorkState::Focusing => CounterWorkState::OnBreak,
            CounterWorkState::OnBreak => CounterWorkState::Focusing,
        };
    }

    /// The human-readable name of the state.
    pub open spec fn spec_label(self) -> Seq<char> {
        match self {
            CounterWorkState::Paused => "Paused"@,
            CounterWorkState::Focusing => "Focus"@,
            CounterWorkState::OnBreak => "Break"@,
        }
    }

    /// The human-readable name of the state, for display.
    pub fn to_string(&self) -> (s: String)
        ensures
            s@ == self.spec_label(),
    {
        match self {
            CounterWorkState::Paused => "Paused".to_owned(),
            CounterWorkState::Focusing => "Focus".to_owned(),
            CounterWorkState::OnBreak => "Break".to_owned(),
        }
    }
}

impl Default for CounterWorkState {
    /// A fresh state is paused.
    fn default() -> (r: Self)
        ensures
            r is Paused,
    {
        CounterWorkState::Paused
    }
}

impl From<Option<bool>> for CounterWorkState {
    fn from(x: Option<bool>) -> (r: Self) {
        match x {
            None => CounterWorkState::Paused,
            Some(true) => CounterWorkState::Focusing,
            Some(false) => CounterWorkState::OnBreak,
        }
    }
}

impl vstd::std_specs::convert::FromSpecImpl<Option<bool>> for CounterWorkState {
    open spec fn obeys_from_spec() -> bool {
        true
    }

    open spec fn from_spec(x: Option<bool>) -> Self {
        match x {
            None => CounterWorkState::Paused,
            Some(true) => CounterWorkState::Focusing,
            Some(false) => CounterWorkState::OnBreak,
        }
    }
}

/// A semantic event emitted by one tick of the counter.
#[derive(Copy, Clone, Debug, PartialEq, Eq, Structural)]
pub enum CounterEvent {
    /// The running break is down to its last 30 seconds.
    BreakAlmostOver,
    /// The break ran out; the in-progress focus session is forfeited.
    BreakOver,
    /// A focus session counted all the way down.
    PomComplete,
    /// A fourth consecutive focus session completed, granting the bonus.
    CloverComplete,
}

/// The focus/break timer state machine.
#[derive(Copy, Clone, Debug)]
pub struct Counter {
    /// Configured focus-session length; `focus_time` resets to it.
    pub original_focus_time: u16,
    /// Seconds remaining in the current focus session.
    pub focus_time: u16,
    /// Accumulated break seconds: accrued while focusing, spent on break.
    pub break_time: u16,
    /// Bonus break seconds granted when a clover completes.
    pub clover_break_bonus: u16,
    /// Session number within the current clover, always in `1..=4`.
    pub pom: u8,
    /// Paused, focusing, or on break.
    pub work_state: CounterWorkState,
}

impl Counter {
    /// Structural invariant: the session length is positive, the remaining
    /// focus time never exceeds it nor drops to zero between ticks, and
    /// the session number stays within the clover.
    pub open spec fn wf(&self) -> bool {
        &&& 1 <= self.focus_time <= self.original_focus_time
        &&& 1 <= self.pom <= 4
    }

    /// A counter with the default session length and clover bonus.
    pub fn new() -> (c: Self)
        ensures
            c == (Counter {
                original_focus_time: DEFAULT_FOCUS_TIME,
                focus_time: DEFAULT_FOCUS_TIME,
                break_time: 0u16,
                clover_break_bonus: CLOVER_BREAK_BONUS,
                pom: 1u8,
                work_state: CounterWorkState::Paused,
            }),
            c.wf(),
    {
        Counter {
            original_focus_time: DEFAULT_FOCUS_TIME,
            focus_time: DEFAULT_FOCUS_TIME,
            break_time: 0,
            clover_break_bonus: CLOVER_BREAK_BONUS,
            pom: 1,
            work_state: CounterWorkState::Paused,
        }
    }

    /// A counter with an explicit session length and clover bonus.
    pub fn with_config(focus_time: u16, clover_break_bonus: u16) -> (c: Self)
        requires
            focus_time >= 1,
        ensures
            c == (Counter {
                original_focus_time: focus_time,
                focus_time: focus_time,
                break_time: 0u16,
                clover_break_bonus: clover_break_bonus,
                pom: 1u8,
                work_state: CounterWorkState::Paused,
            }),
            c.wf(),
    {
        Counter {
            original_focus_time: focus_time,
            focus_time,
            break_time: 0,
            clover_break_bonus,
            pom: 1,
            work_state: CounterWorkState::Paused,
        }
    }

    /// Seconds remaining in the current focus session.
    pub fn focus_time(&self) -> (r: u16)
        ensures
            r == self.focus_time,
    {
        self.focus_time
    }

    /// The configured focus-session length.
    pub fn original_focus_time(&self) -> (r: u16)
        ensures
            r == self.original_focus_time,
    {
        self.original_focus_time
    }

    /// Accumulated break seconds.
    pub fn break_time(&self) -> (r: u16)
        ensures
            r == self.break_time,
    {
        self.break_time
    }

    /// Session number within the current clover.
    pub fn pom(&self) -> (r: u8)
        ensures
            r == self.pom,
    {
        self.pom
    }

    /// The current work state.
    pub fn work_state(&self) -> (r: CounterWorkState)
        ensures
            r == self.work_state,
    {
        self.work_state
    }

    /// Mutable access to the work state; every other field is untouched.
    pub fn work_state_mut(&mut self) -> (r: &mut CounterWorkState)
        ensures
            *r == old(self).work_state,
            final(self).work_state == *final(r),
            final(self).original_focus_time == old(self).original_focus_time,
            final(self).focus_time == old(self).focus_time,
            final(self).break_time == old(self).break_time,
            final(self).clover_break_bonus == old(self).clover_break_bonus,
            final(self).pom == old(self).pom,
    {
        &mut self.work_state
    }

    /// Begin (or resume) focusing, from any state.
    pub fn start(&mut self)
        ensures
            *final(self) == (Counter {
                work_state: CounterWorkState::Focusing,
                ..*old(self)
            }),
    {
        self.work_state = CounterWorkState::Focusing;
    }

    /// Refill the focus session and pause. Break seconds and the session
    /// count are untouched.
    pub fn reset(&mut self)
        ensures
            *final(self) == (Counter {
                focus_time: old(self).original_focus_time,
                work_state: CounterWorkState::Paused,
                ..*old(self)
            }),
    {
        self.focus_time = self.original_focus_time;
        self.work_state = CounterWorkState::Paused;
    }

    /// A tick must not underflow the break counter while on break, nor
    /// overflow it while accruing or collecting the clover bonus.
    pub open spec fn can_advance(&self) -> bool {
        &&& self.work_state is OnBreak ==> self.break_time >= 1
        &&& self.work_state is Focusing ==> {
            &&& self.focus_time % 5 == 0 ==> self.break_time < u16::MAX
            &&& self.focus_time == 1 && self.pom == 4 ==> self.break_time
                + self.clover_break_bonus <= u16::MAX
        }
    }

    /// The state after one tick.
    pub open spec fn spec_advance(self) -> Counter {
        if self.work_state is Paused {
            self
        } else if self.work_state is Focusing {
            let b1 = if self.focus_time % 5 == 0 {
                (self.break_time + 1) as u16
            } else {
                self.break_time
            };
            let f1 = (self.focus_time - 1) as u16;
            if f1 == 0 {
                let p1 = (self.pom + 1) as u8;
                if p1 == 5 {
                    Counter {
                        focus_time: self.original_focus_time,
                        break_time: (b1 + self.clover_break_bonus) as u16,
                        pom: 1u8,
                        work_state: CounterWorkState::Paused,
                        ..self
                    }
                } else {
                    Counter {
                        focus_time: self.original_focus_time,
                        break_time: b1,
                        pom: p1,
                        work_state: CounterWorkState::Paused,
                        ..self
                    }
                }
            } else {
                Counter { focus_time: f1, break_time: b1, ..self }
            }
        } else {
            let b1 = (self.break_time - 1) as u16;
            if b1 == 0 {
                Counter {
                    focus_time: self.original_focus_time,
                    break_time: 0u16,
                    work_state: CounterWorkState::Paused,
                    ..self
                }
            } else {
                Counter { break_time: b1, ..self }
            }
        }
    }

    /// The events one tick emits, in emission order.
    pub open spec fn spec_advance_events(self) -> Seq<CounterEvent> {
        if self.work_state is Focusing {
            if self.focus_time == 1 {
                if self.pom == 4 {
                    seq![CounterEvent::PomComplete, CounterEvent::CloverComplete]
                } else {
                    seq![CounterEvent::PomComplete]
                }
            } else {
                seq![]
            }
        } else if self.work_state is OnBreak {
            if self.break_time == 1 {
                seq![CounterEvent::BreakOver]
            } else if self.break_time == 31 {
                seq![CounterEvent::BreakAlmostOver]
            } else {
                seq![]
            }
        } else {
            seq![]
        }
    }

    /// One discrete tick.
    ///
    /// Paused: nothing happens. Focusing: one break second accrues on
    /// every fifth remaining second, then the focus time counts down;
    /// reaching zero completes the session (and possibly a clover, which
    /// grants the bonus and restarts the session count). On break: the
    /// break counts down; hitting 30 warns, and hitting zero forfeits the
    /// session and resets the counter.
    pub fn advance(&mut self) -> (events: Vec<CounterEvent>)
        requires
            old(self).wf(),
            old(self).can_advance(),
        ensures
            *final(self) == old(self).spec_advance(),
            final(self).wf(),
            events@ == old(self).spec_advance_events(),
    {
        let mut events: Vec<CounterEvent> = Vec::new();
        match self.work_state {
            CounterWorkState::Paused => {},
            CounterWorkState::Focusing => {
                if self.focus_time % 5 == 0 {
                    self.break_time = self.break_time + 1;
                }
                self.focus_time = self.focus_time - 1;
                if self.focus_time == 0 {
                    self.pom = self.pom + 1;
                    self.reset();
                    events.push(CounterEvent::PomComplete);
                    if self.pom == 5 {
                        self.break_time = self.break_time + self.clover_break_bonus;
                        self.pom = 1;
                        events.push(CounterEvent::CloverComplete);
                    }
                }
            },
            CounterWorkState::OnBreak => {
                self.break_time = self.break_time - 1;
                if self.break_time == 30 {
                    events.push(CounterEvent::BreakAlmostOver);
                }
                if self.break_time == 0 {
                    self.reset();
                    events.push(CounterEvent::BreakOver);
                }
            },
        }
        proof {
            assert(events@ =~= old(self).spec_advance_events());
        }
        events
    }

    /// One discrete tick, discarding the emitted events.
    pub fn work(&mut self)
        requires
            old(self).wf(),
            old(self).can_advance(),
        ensures
            *final(self) == old(self).spec_advance(),
            final(self).wf(),
    {
        let _events = self.advance();
    }
}

/// Running out of break forfeits the in-progress focus session instead
/// of completing it: with one break second left and the focus session
/// still full, one tick empties the break, pauses the counter, leaves
/// the focus time where it was and completes no session.
pub proof fn lemma_break_exhaustion_forfeits(c: Counter)
    requires
        c.wf(),
        c.work_state is OnBreak,
        c.break_time == 1,
        c.focus_time == c.original_focus_time,
    ensures
        c.spec_advance().break_time == 0,
        c.spec_advance().work_state is Paused,
        c.spec_advance().focus_time == c.focus_time,
        c.spec_advance().pom == c.pom,
        c.spec_advance_events() == seq![CounterEvent::BreakOver],
{
}

impl Default for Counter {
    /// Same as [`Counter::new`].
    fn default() -> (c: Self)
        ensures
            c == (Counter {
                original_focus_time: DEFAULT_FOCUS_TIME,
                focus_time: DEFAULT_FOCUS_TIME,
                break_time: 0u16,
                clover_break_bonus: CLOVER_BREAK_BONUS,
                pom: 1u8,
                work_state: CounterWorkState::Paused,
            }),
            c.wf(),
    {
        Counter::new()
    }
}

} // verus!

//! The mathematical model of the timer: what a phase lasts, what a state is,
//! and what one event makes of it.

use vstd::prelude::*;

use crate::clock::{PomodoroCycle, TimerMessage};

verus! {

/// The fixed length of a phase, in seconds.
pub open spec fn cycle_seconds(cycle: PomodoroCycle) -> nat {
    match cycle {
        PomodoroCycle::Work => 1500,
        PomodoroCycle::ShortBreak => 300,
        PomodoroCycle::LongBreak => 900,
    }
}

/// The line that announces a phase.
pub open spec fn cycle_message(cycle: PomodoroCycle) -> Seq<char> {
    match cycle {
        PomodoroCycle::Work => "Time to focus!"@,
        PomodoroCycle::ShortBreak => "Take a short break!"@,
        PomodoroCycle::LongBreak => "Take a long break!"@,
    }
}

/// The phase that follows `cycle`, where `sessions` counts the work intervals
/// completed so far, the one that just ended included: every fourth work
/// interval earns the long break, and a break always leads back to work.
pub open spec fn next_cycle(cycle: PomodoroCycle, sessions: nat) -> PomodoroCycle {
    match cycle {
        PomodoroCycle::Work => if sessions % 4 == 0 {
            PomodoroCycle::LongBreak
        } else {
            PomodoroCycle::ShortBreak
        },
        PomodoroCycle::ShortBreak | PomodoroCycle::LongBreak => PomodoroCycle::Work,
    }
}

/// A timer as a mathematical value: the counters are unbounded.
pub ghost struct TimerState {
    /// Seconds left in the current phase.
    pub remaining: nat,
    /// Whether ticks count down.
    pub running: bool,
    /// The current phase.
    pub cycle: PomodoroCycle,
    /// Work intervals completed since the last reset.
    pub sessions: nat,
}

impl TimerState {
    /// The state every timer starts in and every reset returns to.
    pub open spec fn initial() -> TimerState {
        TimerState {
            remaining: cycle_seconds(PomodoroCycle::Work),
            running: false,
            cycle: PomodoroCycle::Work,
            sessions: 0,
        }
    }

    /// No more time is left than the current phase lasts.
    pub open spec fn wf(self) -> bool {
        self.remaining <= cycle_seconds(self.cycle)
    }

    /// The state after the current phase has ended: a finished work interval
    /// is counted, the next phase is entered with its full length.
    pub open spec fn advance(self) -> TimerState {
        let sessions = if self.cycle is Work {
            self.sessions + 1
        } else {
            self.sessions
        };
        let cycle = next_cycle(self.cycle, sessions);
        TimerState { remaining: cycle_seconds(cycle), running: self.running, cycle, sessions }
    }

    /// Whether `message` ends the current phase: a tick that finds the timer
    /// running with at most one second left.
    pub open spec fn ends_interval(self, message: TimerMessage) -> bool {
        message is TickSecond && self.running && self.remaining <= 1
    }

    /// The state after one event.
    pub open spec fn step(self, message: TimerMessage) -> TimerState {
        match message {
            TimerMessage::TickSecond => if !self.running {
                self
            } else if self.remaining > 1 {
                TimerState { remaining: (self.remaining - 1) as nat, ..self }
            } else {
                TimerState { running: false, ..self }.advance()
            },
            TimerMessage::Start => TimerState { running: true, ..self },
            TimerMessage::Pause => TimerState { running: false, ..self },
            TimerMessage::Reset => TimerState::initial(),
        }
    }

    /// The state after a sequence of events, delivered first to last.
    pub open spec fn run(self, events: Seq<TimerMessage>) -> TimerState
        decreases events.len(),
    {
        if events.len() == 0 {
            self
        } else {
            self.run(events.drop_last()).step(events.last())
        }
    }
}

} // verus!

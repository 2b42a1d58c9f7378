//! The timer itself: its state, the events it takes and the reducer over them.

use vstd::prelude::*;

use crate::model::{cycle_message, cycle_seconds, TimerState};
use crate::text::{clock_string, clock_text, lemma_clock_text_shape};

verus! {

/// The countdown and the place in the cycle of work and breaks.
#[derive(Debug, Clone, Copy, PartialEq, Eq, Structural)]
pub struct Timer {
    /// Whole seconds left in the current phase.
    pub time_remaining: u64,
    /// Whether ticks count down.
    pub is_running: bool,
    /// The current phase.
    pub cycle: PomodoroCycle,
    /// Work intervals completed since the last reset.
    pub work_sessions_completed: u32,
}

/// An event delivered to the timer.
#[derive(Debug, Clone, Copy, PartialEq, Eq, Structural)]
pub enum TimerMessage {
    /// One second has passed.
    TickSecond,
    /// Let the countdown run.
    Start,
    /// Hold the countdown.
    Pause,
    /// Go back to a paused first work interval with no session counted.
    Reset,
}

/// A phase of the Pomodoro process.
#[derive(Debug, Clone, Copy, PartialEq, Eq, Structural)]
pub enum PomodoroCycle {
    /// Twenty-five minutes of work.
    Work,
    /// Five minutes off, after a work interval that is not a fourth one.
    ShortBreak,
    /// Fifteen minutes off, after every fourth work interval.
    LongBreak,
}

/// The fixed length of `cycle`, in whole seconds.
pub fn get_cycle_duration(cycle: PomodoroCycle) -> (seconds: u64)
    ensures
        seconds == cycle_seconds(cycle),
{
    match cycle {
        PomodoroCycle::Work => 25 * 60,
        PomodoroCycle::ShortBreak => 5 * 60,
        PomodoroCycle::LongBreak => 15 * 60,
    }
}

impl View for Timer {
    type V = TimerState;

    open spec fn view(&self) -> TimerState {
        TimerState {
            remaining: self.time_remaining as nat,
            running: self.is_running,
            cycle: self.cycle,
            sessions: self.work_sessions_completed as nat,
        }
    }
}

impl Default for Timer {
    /// A paused timer at the start of its first work interval.
    fn default() -> (timer: Timer)
        ensures
            timer@ == TimerState::initial(),
            timer.wf(),
    {
        Timer {
            time_remaining: get_cycle_duration(PomodoroCycle::Work),
            is_running: false,
            cycle: PomodoroCycle::Work,
            work_sessions_completed: 0,
        }
    }
}

impl Timer {
    /// No more time is left than the current phase lasts.
    pub open spec fn wf(&self) -> bool {
        self@.wf()
    }

    /// The session counter can take the work interval that is under way.
    pub open spec fn session_fits(&self) -> bool {
        self.cycle is Work ==> self.work_sessions_completed < u32::MAX
    }

    /// Ends the current phase and enters the next with its full length.  A
    /// finished work interval is counted first, and every fourth one leads to
    /// the long break; a break leads back to work.
    pub fn switch_cycle(&mut self)
        requires
            old(self).session_fits(),
        ensures
            final(self)@ == old(self)@.advance(),
            final(self).wf(),
    {
        match self.cycle {
            PomodoroCycle::Work => {
                self.work_sessions_completed += 1;

                if self.work_sessions_completed % 4 == 0 {
                    self.cycle = PomodoroCycle::LongBreak;
                } else {
                    self.cycle = PomodoroCycle::ShortBreak;
                }
            },
            PomodoroCycle::ShortBreak | PomodoroCycle::LongBreak => {
                self.cycle = PomodoroCycle::Work;
            },
        }

        self.time_remaining = get_cycle_duration(self.cycle);
    }

    /// Applies one event.
    ///
    /// A tick counts one second down while the timer runs, and never below
    /// zero.  The tick that uses up the last second, or finds none left, ends
    /// the phase: the timer stops, enters the next phase as
    /// [`Timer::switch_cycle`] does, and the line announcing that phase is
    /// handed back for the caller to show.  Every other event returns `None`.
    pub fn update(&mut self, message: TimerMessage) -> (notice: Option<&'static str>)
        requires
            old(self)@.ends_interval(message) ==> old(self).session_fits(),
        ensures
            final(self)@ == old(self)@.step(message),
            old(self).wf() ==> final(self).wf(),
            match notice {
                Some(text) => old(self)@.ends_interval(message) && text@ == cycle_message(
                    final(self).cycle,
                ),
                None => !old(self)@.ends_interval(message),
            },
            message is TickSecond && !old(self).is_running ==> *final(self) == *old(self),
            message is Start && old(self).is_running ==> *final(self) == *old(self),
            message is Reset ==> *final(self) == (Timer {
                time_remaining: 1500,
                is_running: false,
                cycle: PomodoroCycle::Work,
                work_sessions_completed: 0,
            }),
            old(self)@.ends_interval(message) && !(old(self).cycle is Work) ==> *final(self) == (Timer {
                time_remaining: 1500,
                is_running: false,
                cycle: PomodoroCycle::Work,
                work_sessions_completed: old(self).work_sessions_completed,
            }),
    {
        match message {
            TimerMessage::TickSecond => {
                if self.is_running && self.time_remaining > 0 {
                    self.time_remaining = self.time_remaining - 1;
                }
                if self.is_running && self.time_remaining == 0 {
                    self.is_running = false;
                    self.switch_cycle();
                    return Some(self.get_cycle_message());
                }
            },
            TimerMessage::Start => {
                self.is_running = true;
            },
            TimerMessage::Pause => {
                self.is_running = false;
            },
            TimerMessage::Reset => {
                self.time_remaining = get_cycle_duration(PomodoroCycle::Work);
                self.is_running = false;
                self.cycle = PomodoroCycle::Work;
                self.work_sessions_completed = 0;
            },
        }
        None
    }

    /// Whether `message` can be applied: it can, unless it would count a work
    /// interval that the session counter has no room for.
    pub fn can_update(&self, message: TimerMessage) -> (ok: bool)
        ensures
            ok == (self@.ends_interval(message) ==> self.session_fits()),
    {
        match (message, self.cycle) {
            (TimerMessage::TickSecond, PomodoroCycle::Work) => !self.is_running
                || self.time_remaining > 1 || self.work_sessions_completed < u32::MAX,
            _ => true,
        }
    }

    /// The period, in seconds, of the tick that the timer asks for: one tick
    /// a second while it runs, none while it is paused.
    pub fn subscription(&self) -> (period: Option<u64>)
        ensures
            period == if self.is_running {
                Some(1u64)
            } else {
                None
            },
    {
        if self.is_running {
            Some(1)
        } else {
            None
        }
    }

    /// The time left, as minutes and seconds; five characters as long as no
    /// more time is left than a phase lasts.
    pub fn remaining(&self) -> (text: String)
        ensures
            text@ == clock_text(self.time_remaining as nat),
            self.wf() ==> text@.len() == 5,
    {
        proof {
            if self.wf() {
                lemma_clock_text_shape(self.time_remaining as nat);
            }
        }
        clock_string(self.time_remaining)
    }

    /// The event that the single start-and-pause control sends: a pause while
    /// the timer runs, a start while it does not.  Applying it flips
    /// `is_running` and changes nothing else.
    pub fn toggle_message(&self) -> (message: TimerMessage)
        ensures
            message == if self.is_running {
                TimerMessage::Pause
            } else {
                TimerMessage::Start
            },
            self@.step(message) == (TimerState { running: !self.is_running, ..self@ }),
    {
        if self.is_running {
            TimerMessage::Pause
        } else {
            TimerMessage::Start
        }
    }

    /// The caption of the start-and-pause control: it names the event that
    /// [`Timer::toggle_message`] gives.
    pub fn toggle_label(&self) -> (label: &'static str)
        ensures
            label@ == if self.is_running {
                "Pause"@
            } else {
                "Start"@
            },
    {
        if self.is_running {
            "Pause"
        } else {
            "Start"
        }
    }

    /// The line that announces the current phase.
    pub fn get_cycle_message(&self) -> (text: &'static str)
        ensures
            text@ == cycle_message(self.cycle),
    {
        match self.cycle {
            PomodoroCycle::Work => "Time to focus!",
            PomodoroCycle::ShortBreak => "Take a short break!",
            PomodoroCycle::LongBreak => "Take a long break!",
        }
    }
}

} // verus!

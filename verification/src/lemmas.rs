//! What holds of the timer over one event, over two, and over whole runs.
//! Everything here is stated of the model, to which [`Timer::update`] holds
//! the timer event by event.
//!
//! [`Timer::update`]: crate::clock::Timer::update

use vstd::prelude::*;

use crate::clock::{PomodoroCycle, TimerMessage};
use crate::model::{cycle_seconds, TimerState};

verus! {

/// `n` ticks in a row.
pub open spec fn ticks(n: nat) -> Seq<TimerMessage> {
    Seq::new(n, |i: int| TimerMessage::TickSecond)
}

/// A new timer has exactly the time of its first work interval.
pub proof fn lemma_initial_wf()
    ensures
        TimerState::initial().wf(),
        TimerState::initial().remaining == 1500,
{
}

/// No event leaves more time on the timer than its phase lasts, if there was
/// no more before.
pub proof fn lemma_step_keeps_wf(s: TimerState, message: TimerMessage)
    requires
        s.wf(),
    ensures
        s.step(message).wf(),
{
}

/// No sequence of events leaves more time on the timer than its phase lasts,
/// if there was no more before; so it is of every state that a new timer can
/// reach.
pub proof fn lemma_run_keeps_wf(s: TimerState, events: Seq<TimerMessage>)
    requires
        s.wf(),
    ensures
        s.run(events).wf(),
    decreases events.len(),
{
    if events.len() > 0 {
        lemma_run_keeps_wf(s, events.drop_last());
        lemma_step_keeps_wf(s.run(events.drop_last()), events.last());
    }
}

/// Running one sequence and then another is running the two as one.
pub proof fn lemma_run_concat(s: TimerState, first: Seq<TimerMessage>, then: Seq<TimerMessage>)
    ensures
        s.run(first + then) == s.run(first).run(then),
    decreases then.len(),
{
    if then.len() == 0 {
        assert(first + then =~= first);
    } else {
        lemma_run_concat(s, first, then.drop_last());
        assert((first + then).drop_last() =~= first + then.drop_last());
    }
}

/// A tick changes nothing on a paused timer.
pub proof fn lemma_paused_tick_changes_nothing(s: TimerState)
    requires
        !s.running,
    ensures
        s.step(TimerMessage::TickSecond) == s,
{
}

/// No number of ticks changes anything on a paused timer.
pub proof fn lemma_paused_ticks_change_nothing(s: TimerState, n: nat)
    requires
        !s.running,
    ensures
        s.run(ticks(n)) == s,
    decreases n,
{
    if n > 0 {
        lemma_paused_ticks_change_nothing(s, (n - 1) as nat);
        assert(ticks(n).drop_last() =~= ticks((n - 1) as nat));
    }
}

/// While more seconds are left than ticks arrive, a running timer counts one
/// second down for each tick and nothing else changes.
pub proof fn lemma_ticks_count_down(s: TimerState, n: nat)
    requires
        s.running,
        n < s.remaining,
    ensures
        s.run(ticks(n)) == (TimerState { remaining: (s.remaining - n) as nat, ..s }),
    decreases n,
{
    if n > 0 {
        lemma_ticks_count_down(s, (n - 1) as nat);
        assert(ticks(n).drop_last() =~= ticks((n - 1) as nat));
    }
}

/// As many ticks as seconds are left end the phase of a running timer: it
/// stops, and stands at the start of the next phase.
pub proof fn lemma_ticks_end_interval(s: TimerState)
    requires
        s.running,
        s.remaining >= 1,
    ensures
        s.run(ticks(s.remaining)) == (TimerState { running: false, ..s }).advance(),
{
    let n: nat = s.remaining;
    lemma_ticks_count_down(s, (n - 1) as nat);
    assert(ticks(n).drop_last() =~= ticks((n - 1) as nat));
}

/// A start and then as many ticks as seconds are left end the phase,
/// whether the timer was running or paused before.
pub proof fn lemma_started_phase_runs_to_its_end(s: TimerState)
    requires
        s.remaining >= 1,
    ensures
        s.run(seq![TimerMessage::Start] + ticks(s.remaining)) == (TimerState {
            running: false,
            ..s
        }).advance(),
{
    let started = s.step(TimerMessage::Start);
    assert(s.run(seq![TimerMessage::Start]) == started) by {
        assert(seq![TimerMessage::Start].drop_last() =~= Seq::<TimerMessage>::empty());
        assert(s.run(Seq::<TimerMessage>::empty()) == s);
    }
    lemma_run_concat(s, seq![TimerMessage::Start], ticks(s.remaining));
    lemma_ticks_end_interval(started);
}

/// The tick that finds a running timer with one second left, or with none,
/// ends the phase.
pub proof fn lemma_last_tick_ends_interval(s: TimerState)
    requires
        s.running,
        s.remaining <= 1,
    ensures
        s.step(TimerMessage::TickSecond) == (TimerState { running: false, ..s }).advance(),
{
}

/// The session counter grows by one when a tick ends a work interval, and on
/// no other event does it grow.
pub proof fn lemma_sessions_count_work_intervals(s: TimerState, message: TimerMessage)
    ensures
        s.ends_interval(message) && s.cycle is Work ==> s.step(message).sessions == s.sessions + 1,
        s.step(message).sessions > s.sessions ==> s.ends_interval(message) && s.cycle is Work,
{
}

/// When a work interval ends, the long break follows if the number of work
/// intervals then completed is a multiple of four, and the short break if it
/// is not.
pub proof fn lemma_work_leads_to_break(s: TimerState, message: TimerMessage)
    requires
        s.ends_interval(message),
        s.cycle is Work,
    ensures
        s.step(message).cycle == if (s.sessions + 1) % 4 == 0 {
            PomodoroCycle::LongBreak
        } else {
            PomodoroCycle::ShortBreak
        },
        s.step(message).remaining == cycle_seconds(s.step(message).cycle),
        !s.step(message).running,
{
}

/// When a break ends, short or long, a work interval of twenty-five minutes
/// follows, whatever the session counter holds, and the counter stays.
pub proof fn lemma_break_leads_to_work(s: TimerState, message: TimerMessage)
    requires
        s.ends_interval(message),
        s.cycle is ShortBreak || s.cycle is LongBreak,
    ensures
        s.step(message) == (TimerState {
            remaining: 1500,
            running: false,
            cycle: PomodoroCycle::Work,
            sessions: s.sessions,
        }),
{
}

/// Four work intervals in a row, each but the last followed by its break:
/// where the first begins with a multiple of four sessions counted, the first
/// three earn short breaks and the fourth the long one, with four sessions
/// more on the counter.  Each `advance` is one phase run to its end.
pub proof fn lemma_fourth_work_interval_earns_long_break(s: TimerState)
    requires
        s.cycle is Work,
        s.sessions % 4 == 0,
    ensures
        s.advance().cycle is ShortBreak,
        s.advance().advance().advance().cycle is ShortBreak,
        s.advance().advance().advance().advance().advance().cycle is ShortBreak,
        s.advance().advance().advance().advance().advance().advance().advance() == (TimerState {
            remaining: 900,
            running: s.running,
            cycle: PomodoroCycle::LongBreak,
            sessions: s.sessions + 4,
        }),
{
}

/// A reset, from any state, gives the paused timer at the start of a work
/// interval with no session counted.
pub proof fn lemma_reset_gives_initial(s: TimerState)
    ensures
        s.step(TimerMessage::Reset) == (TimerState {
            remaining: 1500,
            running: false,
            cycle: PomodoroCycle::Work,
            sessions: 0,
        }),
        s.step(TimerMessage::Reset) == TimerState::initial(),
{
}

/// A start changes nothing on a running timer, and a second start changes
/// nothing after a first.
pub proof fn lemma_start_is_idempotent(s: TimerState)
    ensures
        s.running ==> s.step(TimerMessage::Start) == s,
        s.step(TimerMessage::Start).step(TimerMessage::Start) == s.step(TimerMessage::Start),
        s.step(TimerMessage::Start).remaining == s.remaining,
        s.step(TimerMessage::Start).sessions == s.sessions,
        s.step(TimerMessage::Start).cycle == s.cycle,
{
}

} // verus!

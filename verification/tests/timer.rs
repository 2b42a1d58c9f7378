use pomodoro::{get_cycle_duration, PomodoroCycle, Timer, TimerMessage};

fn timer(time_remaining: u64, is_running: bool, cycle: PomodoroCycle, sessions: u32) -> Timer {
    Timer { time_remaining, is_running, cycle, work_sessions_completed: sessions }
}

/// Starts the timer and ticks until the running phase ends; gives back the
/// number of ticks it took and the notice of the last one.
fn run_phase(t: &mut Timer) -> (u64, &'static str) {
    assert_eq!(t.update(TimerMessage::Start), None);
    let mut ticks: u64 = 0;
    loop {
        assert!(t.can_update(TimerMessage::TickSecond));
        let notice = t.update(TimerMessage::TickSecond);
        ticks += 1;
        if let Some(text) = notice {
            return (ticks, text);
        }
        assert!(t.is_running);
        assert!(ticks < 10_000);
    }
}

#[test]
fn default_is_a_paused_work_interval() {
    let t = Timer::default();
    assert_eq!(t, timer(1500, false, PomodoroCycle::Work, 0));
}

#[test]
fn cycle_durations_are_fixed() {
    assert_eq!(get_cycle_duration(PomodoroCycle::Work), 1500);
    assert_eq!(get_cycle_duration(PomodoroCycle::ShortBreak), 300);
    assert_eq!(get_cycle_duration(PomodoroCycle::LongBreak), 900);
}

#[test]
fn cycle_messages_name_the_phase() {
    assert_eq!(timer(1500, false, PomodoroCycle::Work, 0).get_cycle_message(), "Time to focus!");
    assert_eq!(
        timer(300, false, PomodoroCycle::ShortBreak, 1).get_cycle_message(),
        "Take a short break!"
    );
    assert_eq!(
        timer(900, false, PomodoroCycle::LongBreak, 4).get_cycle_message(),
        "Take a long break!"
    );
}

#[test]
fn start_sets_running_and_keeps_the_rest() {
    let mut t = Timer::default();
    assert_eq!(t.update(TimerMessage::Start), None);
    assert_eq!(t, timer(1500, true, PomodoroCycle::Work, 0));
}

#[test]
fn start_while_running_changes_nothing() {
    let mut t = timer(777, true, PomodoroCycle::Work, 2);
    assert_eq!(t.update(TimerMessage::Start), None);
    assert_eq!(t, timer(777, true, PomodoroCycle::Work, 2));
    assert_eq!(t.update(TimerMessage::Start), None);
    assert_eq!(t, timer(777, true, PomodoroCycle::Work, 2));
    assert_eq!(t.update(TimerMessage::TickSecond), None);
    assert_eq!(t, timer(776, true, PomodoroCycle::Work, 2));
}

#[test]
fn pause_stops_the_countdown() {
    let mut t = timer(42, true, PomodoroCycle::ShortBreak, 1);
    assert_eq!(t.update(TimerMessage::Pause), None);
    assert_eq!(t, timer(42, false, PomodoroCycle::ShortBreak, 1));
    assert_eq!(t.update(TimerMessage::TickSecond), None);
    assert_eq!(t, timer(42, false, PomodoroCycle::ShortBreak, 1));
    assert_eq!(t.update(TimerMessage::Pause), None);
    assert_eq!(t, timer(42, false, PomodoroCycle::ShortBreak, 1));
}

#[test]
fn tick_while_paused_changes_nothing() {
    let mut t = Timer::default();
    let mut n: u32 = 0;
    while n < 2000 {
        assert_eq!(t.update(TimerMessage::TickSecond), None);
        assert_eq!(t, timer(1500, false, PomodoroCycle::Work, 0));
        n += 1;
    }
    let mut at_zero = timer(0, false, PomodoroCycle::Work, 3);
    assert_eq!(at_zero.update(TimerMessage::TickSecond), None);
    assert_eq!(at_zero, timer(0, false, PomodoroCycle::Work, 3));
    let mut at_one = timer(1, false, PomodoroCycle::LongBreak, 4);
    assert_eq!(at_one.update(TimerMessage::TickSecond), None);
    assert_eq!(at_one, timer(1, false, PomodoroCycle::LongBreak, 4));
}

#[test]
fn tick_counts_one_second_down() {
    let mut t = timer(1500, true, PomodoroCycle::Work, 0);
    assert_eq!(t.update(TimerMessage::TickSecond), None);
    assert_eq!(t, timer(1499, true, PomodoroCycle::Work, 0));
    let mut u = timer(2, true, PomodoroCycle::LongBreak, 8);
    assert_eq!(u.update(TimerMessage::TickSecond), None);
    assert_eq!(u, timer(1, true, PomodoroCycle::LongBreak, 8));
}

#[test]
fn fifteen_hundred_ticks_complete_the_first_work_interval() {
    let mut t = Timer::default();
    assert_eq!(t.update(TimerMessage::Start), None);
    let mut n: u64 = 0;
    while n < 1499 {
        assert_eq!(t.update(TimerMessage::TickSecond), None);
        n += 1;
        assert_eq!(t, timer(1500 - n, true, PomodoroCycle::Work, 0));
    }
    assert_eq!(t.time_remaining, 1);
    assert_eq!(t.update(TimerMessage::TickSecond), Some("Take a short break!"));
    assert_eq!(t, timer(300, false, PomodoroCycle::ShortBreak, 1));
}

#[test]
fn fourth_work_interval_earns_the_long_break() {
    let mut t = Timer::default();
    let mut round: u32 = 1;
    while round <= 3 {
        assert_eq!(run_phase(&mut t), (1500, "Take a short break!"));
        assert_eq!(t, timer(300, false, PomodoroCycle::ShortBreak, round));
        assert_eq!(run_phase(&mut t), (300, "Time to focus!"));
        assert_eq!(t, timer(1500, false, PomodoroCycle::Work, round));
        round += 1;
    }
    assert_eq!(run_phase(&mut t), (1500, "Take a long break!"));
    assert_eq!(t, timer(900, false, PomodoroCycle::LongBreak, 4));
    assert_eq!(run_phase(&mut t), (900, "Time to focus!"));
    assert_eq!(t, timer(1500, false, PomodoroCycle::Work, 4));
    assert_eq!(run_phase(&mut t), (1500, "Take a short break!"));
    assert_eq!(t, timer(300, false, PomodoroCycle::ShortBreak, 5));
}

#[test]
fn every_multiple_of_four_earns_the_long_break() {
    let mut t = timer(1, true, PomodoroCycle::Work, 7);
    assert_eq!(t.update(TimerMessage::TickSecond), Some("Take a long break!"));
    assert_eq!(t, timer(900, false, PomodoroCycle::LongBreak, 8));
    let mut u = timer(1, true, PomodoroCycle::Work, 8);
    assert_eq!(u.update(TimerMessage::TickSecond), Some("Take a short break!"));
    assert_eq!(u, timer(300, false, PomodoroCycle::ShortBreak, 9));
    let mut v = timer(1, true, PomodoroCycle::Work, 4_294_967_294);
    assert!(v.can_update(TimerMessage::TickSecond));
    assert_eq!(v.update(TimerMessage::TickSecond), Some("Take a short break!"));
    assert_eq!(v, timer(300, false, PomodoroCycle::ShortBreak, 4_294_967_295));
}

#[test]
fn long_break_leads_back_to_work_whatever_the_count() {
    let counts: [u32; 5] = [0, 3, 4, 7, 4_294_967_295];
    for count in counts {
        let mut t = timer(1, true, PomodoroCycle::LongBreak, count);
        assert!(t.can_update(TimerMessage::TickSecond));
        assert_eq!(t.update(TimerMessage::TickSecond), Some("Time to focus!"));
        assert_eq!(t, timer(1500, false, PomodoroCycle::Work, count));
    }
}

#[test]
fn short_break_leads_back_to_work() {
    let mut t = timer(1, true, PomodoroCycle::ShortBreak, 2);
    assert_eq!(t.update(TimerMessage::TickSecond), Some("Time to focus!"));
    assert_eq!(t, timer(1500, false, PomodoroCycle::Work, 2));
}

#[test]
fn tick_on_a_running_timer_at_zero_ends_the_phase() {
    let mut t = timer(0, false, PomodoroCycle::Work, 0);
    assert_eq!(t.update(TimerMessage::Start), None);
    assert_eq!(t, timer(0, true, PomodoroCycle::Work, 0));
    assert_eq!(t.update(TimerMessage::TickSecond), Some("Take a short break!"));
    assert_eq!(t, timer(300, false, PomodoroCycle::ShortBreak, 1));
}

#[test]
fn reset_gives_the_defaults_from_any_state() {
    let states = [
        timer(1500, false, PomodoroCycle::Work, 0),
        timer(812, true, PomodoroCycle::Work, 3),
        timer(120, true, PomodoroCycle::ShortBreak, 2),
        timer(899, false, PomodoroCycle::LongBreak, 4),
        timer(0, true, PomodoroCycle::LongBreak, 4_294_967_295),
        timer(u64::MAX, true, PomodoroCycle::ShortBreak, 9),
    ];
    for state in states {
        let mut t = state;
        assert!(t.can_update(TimerMessage::Reset));
        assert_eq!(t.update(TimerMessage::Reset), None);
        assert_eq!(t, timer(1500, false, PomodoroCycle::Work, 0));
        assert_eq!(t, Timer::default());
    }
}

#[test]
fn switch_cycle_counts_work_and_enters_the_next_phase() {
    let mut t = timer(10, true, PomodoroCycle::Work, 2);
    t.switch_cycle();
    assert_eq!(t, timer(300, true, PomodoroCycle::ShortBreak, 3));
    t.switch_cycle();
    assert_eq!(t, timer(1500, true, PomodoroCycle::Work, 3));
    t.switch_cycle();
    assert_eq!(t, timer(900, true, PomodoroCycle::LongBreak, 4));
    t.switch_cycle();
    assert_eq!(t, timer(1500, true, PomodoroCycle::Work, 4));
}

#[test]
fn time_never_exceeds_the_length_of_the_phase() {
    let script = [
        TimerMessage::TickSecond,
        TimerMessage::Start,
        TimerMessage::TickSecond,
        TimerMessage::TickSecond,
        TimerMessage::Pause,
        TimerMessage::TickSecond,
        TimerMessage::Start,
        TimerMessage::Start,
        TimerMessage::TickSecond,
        TimerMessage::Reset,
        TimerMessage::Start,
    ];
    let mut t = Timer::default();
    for message in script {
        t.update(message);
        assert!(t.time_remaining <= get_cycle_duration(t.cycle));
    }
    let mut n: u32 = 0;
    while n < 20_000 {
        if !t.is_running {
            t.update(TimerMessage::Start);
        }
        assert!(t.can_update(TimerMessage::TickSecond));
        t.update(TimerMessage::TickSecond);
        assert!(t.time_remaining <= get_cycle_duration(t.cycle));
        n += 1;
    }
    assert!(t.work_sessions_completed >= 8);
}

#[test]
fn can_update_refuses_only_the_tick_that_would_overflow_the_counter() {
    let full = timer(1, true, PomodoroCycle::Work, u32::MAX);
    assert!(!full.can_update(TimerMessage::TickSecond));
    assert!(full.can_update(TimerMessage::Start));
    assert!(full.can_update(TimerMessage::Pause));
    assert!(full.can_update(TimerMessage::Reset));
    assert!(!timer(0, true, PomodoroCycle::Work, u32::MAX).can_update(TimerMessage::TickSecond));
    assert!(timer(2, true, PomodoroCycle::Work, u32::MAX).can_update(TimerMessage::TickSecond));
    assert!(timer(1, false, PomodoroCycle::Work, u32::MAX).can_update(TimerMessage::TickSecond));
    assert!(
        timer(1, true, PomodoroCycle::ShortBreak, u32::MAX).can_update(TimerMessage::TickSecond)
    );
    assert!(timer(1, true, PomodoroCycle::LongBreak, u32::MAX).can_update(TimerMessage::TickSecond));
    assert!(timer(1, true, PomodoroCycle::Work, u32::MAX - 1).can_update(TimerMessage::TickSecond));
}

#[test]
fn subscription_ticks_once_a_second_while_running() {
    assert_eq!(Timer::default().subscription(), None);
    assert_eq!(timer(1500, true, PomodoroCycle::Work, 0).subscription(), Some(1));
    let mut t = Timer::default();
    t.update(TimerMessage::Start);
    assert_eq!(t.subscription(), Some(1));
    t.update(TimerMessage::Pause);
    assert_eq!(t.subscription(), None);
}

#[test]
fn toggle_offers_the_opposite_of_the_running_state() {
    let mut t = Timer::default();
    assert_eq!(t.toggle_label(), "Start");
    assert_eq!(t.toggle_message(), TimerMessage::Start);
    t.update(t.toggle_message());
    assert!(t.is_running);
    assert_eq!(t.toggle_label(), "Pause");
    assert_eq!(t.toggle_message(), TimerMessage::Pause);
    t.update(t.toggle_message());
    assert_eq!(t, Timer::default());
}

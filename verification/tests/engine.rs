use flussomodoro::counter::{Counter, CounterEvent, CounterWorkState};

#[test]
fn fresh_counter_defaults() {
    let c = Counter::new();
    assert_eq!(c.focus_time(), c.original_focus_time());
    assert_eq!(c.original_focus_time(), 1500);
    assert_eq!(c.break_time(), 0);
    assert_eq!(c.pom(), 1);
    assert_eq!(c.work_state().into_inner(), None);
}

#[test]
fn configured_counter() {
    let c = Counter::with_config(60, 120);
    assert_eq!(c.focus_time(), 60);
    assert_eq!(c.original_focus_time(), 60);
    assert_eq!(c.break_time(), 0);
    assert_eq!(c.pom(), 1);
    assert_eq!(c.work_state().into_inner(), None);
}

#[test]
fn full_session_accrues_break() {
    // One complete default focus session: 1500 ticks, one break second
    // accrued per five focus seconds, then a reset and the next session
    // number.
    let mut c = Counter::new();
    c.start();
    for _ in 0..1500 {
        c.work();
    }
    assert_eq!(c.work_state().into_inner(), None);
    assert_eq!(c.focus_time(), 1500);
    assert_eq!(c.break_time(), 300);
    assert_eq!(c.pom(), 2);
}

#[test]
fn four_sessions_complete_a_clover() {
    let mut c = Counter::new();
    for _ in 0..4 {
        c.start();
        for _ in 0..1500 {
            c.work();
        }
    }
    assert_eq!(c.pom(), 1);
    assert_eq!(c.break_time(), 300 * 4 + 900);
}

#[test]
fn toggle_break_while_paused_stays_paused() {
    let mut c = Counter::new();
    c.work_state_mut().toggle_break();
    assert_eq!(c.work_state().into_inner(), None);
    c.work_state_mut().toggle_break();
    assert_eq!(c.work_state().into_inner(), None);
}

#[test]
fn break_exhaustion_forfeits_session() {
    // Complete one session, then spend the whole break: the last break
    // tick pauses the counter and leaves the (full) focus time alone.
    let mut c = Counter::new();
    c.start();
    for _ in 0..1500 {
        c.work();
    }
    assert_eq!(c.break_time(), 300);
    c.work_state_mut().set_break(false);
    for _ in 0..299 {
        c.work();
    }
    assert_eq!(c.break_time(), 1);
    assert_eq!(c.focus_time(), 1500);
    let before = c.focus_time();
    let events = c.advance();
    assert_eq!(c.break_time(), 0);
    assert_eq!(c.work_state().into_inner(), None);
    assert_eq!(c.focus_time(), before);
    assert_eq!(events, vec![CounterEvent::BreakOver]);
}

#[test]
fn advance_emits_session_events() {
    // The tick that finishes the fourth session emits both completions.
    let mut c = Counter::with_config(5, 100);
    for session in 1..=4 {
        c.start();
        for _ in 0..4 {
            let events = c.advance();
            assert!(events.is_empty());
        }
        let events = c.advance();
        if session == 4 {
            assert_eq!(
                events,
                vec![CounterEvent::PomComplete, CounterEvent::CloverComplete]
            );
        } else {
            assert_eq!(events, vec![CounterEvent::PomComplete]);
        }
    }
    assert_eq!(c.pom(), 1);
    assert_eq!(c.break_time(), 4 + 100);
}

#[test]
fn advance_warns_before_break_runs_out() {
    // Accrue a comfortable break, then spend it down through 31: the
    // tick that reaches 30 emits the warning, and only that tick.
    let mut c = Counter::new();
    c.start();
    for _ in 0..200 {
        c.work();
    }
    assert_eq!(c.break_time(), 40);
    c.work_state_mut().set_break(false);
    for expected in (30..40).rev() {
        let events = c.advance();
        assert_eq!(c.break_time(), expected);
        if expected == 30 {
            assert_eq!(events, vec![CounterEvent::BreakAlmostOver]);
        } else {
            assert!(events.is_empty());
        }
    }
}

#[test]
fn work_state_labels() {
    let mut s = CounterWorkState::from(None);
    assert_eq!(s.to_string(), "Paused");
    s.set_active(true);
    assert_eq!(s.to_string(), "Focus");
    s.set_break(false);
    assert_eq!(s.to_string(), "Break");
}

#[test]
fn set_active_and_set_break() {
    let mut s = CounterWorkState::default();
    s.set_active(true);
    assert_eq!(s.into_inner(), Some(true));
    s.set_active(false);
    assert_eq!(s.into_inner(), None);
    // the argument is stored as the inner flag, even from paused
    s.set_break(true);
    assert_eq!(s.into_inner(), Some(true));
    s.set_break(false);
    assert_eq!(s.into_inner(), Some(false));
}

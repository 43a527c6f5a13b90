use pomodoro::clock::{ButtonState, PomodoroPhase, PomodoroState, PomodoroTimer};

#[test]
fn new_timer_is_paused_in_work() {
    let t = PomodoroTimer::new([1500, 300]);
    assert_eq!(t.state(), PomodoroState::Paused);
    assert_eq!(t.last_phase(), PomodoroPhase::Work);
    assert_eq!(t.counter(), 1500);
    assert_eq!(t.get_current_phase_time(), 1500);
}

#[test]
fn full_work_phase_then_break() {
    let mut t = PomodoroTimer::new([1500, 300]);
    t.toggle_pause();
    assert_eq!(t.state(), PomodoroState::Running(PomodoroPhase::Work));
    assert_eq!(t.counter(), 1500);
    for _ in 0..1500 {
        t.tick();
        assert_eq!(t.state(), PomodoroState::Running(PomodoroPhase::Work));
    }
    assert_eq!(t.counter(), 0);
    t.tick();
    assert_eq!(t.state(), PomodoroState::Running(PomodoroPhase::Break));
    assert_eq!(t.counter(), 300);
    assert_eq!(t.get_current_phase_time(), 300);
}

#[test]
fn phases_alternate_when_left_running() {
    let mut t = PomodoroTimer::new([2, 1]);
    t.toggle_pause();
    let mut phases = Vec::new();
    for _ in 0..12 {
        t.tick();
        if let PomodoroState::Running(p) = t.state() {
            if phases.last() != Some(&p) {
                phases.push(p);
            }
        }
    }
    assert_eq!(
        phases,
        vec![
            PomodoroPhase::Work,
            PomodoroPhase::Break,
            PomodoroPhase::Work,
            PomodoroPhase::Break,
            PomodoroPhase::Work
        ]
    );
}

#[test]
fn pause_and_resume_keeps_countdown() {
    let mut t = PomodoroTimer::new([10, 5]);
    t.toggle_pause();
    assert_eq!(t.state(), PomodoroState::Running(PomodoroPhase::Work));
    assert_eq!(t.counter(), 10);
    t.toggle_pause();
    assert_eq!(t.state(), PomodoroState::Paused);
    assert_eq!(t.last_phase(), PomodoroPhase::Work);
    assert_eq!(t.counter(), 10);
    for _ in 0..5 {
        t.tick();
        assert_eq!(t.counter(), 10);
        assert_eq!(t.state(), PomodoroState::Paused);
    }
    t.toggle_pause();
    assert_eq!(t.state(), PomodoroState::Running(PomodoroPhase::Work));
    assert_eq!(t.counter(), 10);
    t.tick();
    assert_eq!(t.counter(), 9);
}

#[test]
fn toggling_twice_restores_state() {
    let mut t = PomodoroTimer::new([3, 2]);
    t.toggle_pause();
    for _ in 0..5 {
        t.tick();
    }
    assert_eq!(t.state(), PomodoroState::Running(PomodoroPhase::Break));
    assert_eq!(t.counter(), 1);
    t.toggle_pause();
    t.toggle_pause();
    assert_eq!(t.state(), PomodoroState::Running(PomodoroPhase::Break));
    assert_eq!(t.counter(), 1);
}

#[test]
fn phase_time_while_paused_is_remembered_phase() {
    let mut t = PomodoroTimer::new([3, 7]);
    t.toggle_pause();
    for _ in 0..4 {
        t.tick();
    }
    assert_eq!(t.state(), PomodoroState::Running(PomodoroPhase::Break));
    assert_eq!(t.get_current_phase_time(), 7);
    t.toggle_pause();
    assert_eq!(t.last_phase(), PomodoroPhase::Break);
    assert_eq!(t.get_current_phase_time(), 7);
}

#[test]
fn zero_length_phase_switches_every_tick() {
    let mut t = PomodoroTimer::new([0, 0]);
    t.toggle_pause();
    t.tick();
    assert_eq!(t.state(), PomodoroState::Running(PomodoroPhase::Break));
    assert_eq!(t.counter(), 0);
    t.tick();
    assert_eq!(t.state(), PomodoroState::Running(PomodoroPhase::Work));
}

#[test]
fn encoder_steps_adjust_countdown() {
    let mut t = PomodoroTimer::new([5, 2]);
    t.adjust(1);
    assert_eq!(t.counter(), 5);
    t.adjust(-1);
    t.adjust(-1);
    assert_eq!(t.counter(), 3);
    t.adjust(1);
    assert_eq!(t.counter(), 4);
    t.adjust(3);
    t.adjust(-7);
    t.adjust(0);
    assert_eq!(t.counter(), 4);
    for _ in 0..6 {
        t.adjust(-1);
    }
    assert_eq!(t.counter(), 0);
    assert_eq!(t.state(), PomodoroState::Paused);
}

#[test]
fn button_release_toggles_press_does_not() {
    let mut t = PomodoroTimer::new([5, 2]);
    t.handle_button(ButtonState::Pressed);
    assert_eq!(t.state(), PomodoroState::Paused);
    t.handle_button(ButtonState::Released);
    assert_eq!(t.state(), PomodoroState::Running(PomodoroPhase::Work));
    t.handle_button(ButtonState::Pressed);
    assert_eq!(t.state(), PomodoroState::Running(PomodoroPhase::Work));
    t.handle_button(ButtonState::Released);
    assert_eq!(t.state(), PomodoroState::Paused);
}

use vstd::prelude::*;
use crate::clock::{other_phase, PomodoroPhase, PomodoroState, TimerModel};

verus! {

/// A single tick keeps a well-formed timer well-formed.
pub proof fn lemma_tick_keeps_wf(m: TimerModel)
    requires
        m.wf(),
    ensures
        m.ticked().wf(),
{
}

/// Whatever the starting phase, any number of ticks leaves the countdown
/// between zero and the length of the current phase.
pub proof fn lemma_ticks_keep_counter_in_range(m: TimerModel, n: nat)
    requires
        m.wf(),
    ensures
        m.ticked_n(n).wf(),
        0 <= m.ticked_n(n).counter <= m.ticked_n(n).duration(m.ticked_n(n).current_phase()),
    decreases n,
{
    if n > 0 {
        lemma_ticks_keep_counter_in_range(m, (n - 1) as nat);
        lemma_tick_keeps_wf(m.ticked_n((n - 1) as nat));
    }
}

/// A running timer counts down one second per tick within its phase.
pub proof fn lemma_countdown(m: TimerModel, k: nat)
    requires
        m.state is Running,
        k <= m.counter,
    ensures
        m.ticked_n(k) == (TimerModel { counter: (m.counter - k) as nat, ..m }),
    decreases k,
{
    if k > 0 {
        lemma_countdown(m, (k - 1) as nat);
    }
}

/// Left running, a timer stays in its phase until the countdown has reached
/// zero, and on the tick that finds zero it moves to the other phase, never
/// skipping one nor entering the same one again, starting from that phase's
/// full length.
pub proof fn lemma_phase_alternates(m: TimerModel, p: PomodoroPhase)
    requires
        m.wf(),
        m.state == PomodoroState::Running(p),
    ensures
        forall|k: nat| k <= m.counter ==> (#[trigger] m.ticked_n(k)).state == PomodoroState::Running(p),
        m.ticked_n(m.counter).counter == 0,
        m.ticked_n(m.counter + 1).state == PomodoroState::Running(other_phase(p)),
        m.ticked_n(m.counter + 1).counter == m.duration(other_phase(p)),
        other_phase(p) != p,
        other_phase(other_phase(p)) == p,
{
    assert forall|k: nat| k <= m.counter implies (#[trigger] m.ticked_n(k)).state
        == PomodoroState::Running(p) by {
        lemma_countdown(m, k);
    }
    lemma_countdown(m, m.counter);
    assert(m.ticked_n(m.counter + 1) == m.ticked_n(m.counter).ticked());
}

/// Every tick of a running timer either keeps its phase or, when the countdown
/// was at zero, switches to the other one.
pub proof fn lemma_tick_phase_step(m: TimerModel, p: PomodoroPhase)
    requires
        m.state == PomodoroState::Running(p),
    ensures
        m.counter > 0 ==> m.ticked().state == PomodoroState::Running(p),
        m.counter == 0 ==> m.ticked().state == PomodoroState::Running(other_phase(p)),
{
}

/// Toggling the pause twice in a row gives back the same state and countdown.
pub proof fn lemma_toggle_twice(m: TimerModel)
    ensures
        m.toggled().toggled().state == m.state,
        m.toggled().toggled().counter == m.counter,
        m.toggled().toggled().work_time == m.work_time,
        m.toggled().toggled().break_time == m.break_time,
{
}

/// Ticks leave a paused timer exactly as it is.
pub proof fn lemma_paused_ticks(m: TimerModel, n: nat)
    requires
        m.state is Paused,
    ensures
        m.ticked_n(n) == m,
    decreases n,
{
    if n > 0 {
        lemma_paused_ticks(m, (n - 1) as nat);
    }
}

} // verus!

use vstd::prelude::*;

verus! {

/// The two intervals the countdown cycles between.
#[derive(Clone, Copy, Debug, PartialEq, Eq, Structural)]
pub enum PomodoroPhase {
    Work,
    Break,
}

/// Whether the countdown is running, and in which phase.
///
/// While `Paused`, the phase to resume into is kept by the timer itself.
#[derive(Clone, Copy, Debug, PartialEq, Eq, Structural)]
pub enum PomodoroState {
    Running(PomodoroPhase),
    Paused,
}

/// The phase that follows `p`.
pub open spec fn other_phase(p: PomodoroPhase) -> PomodoroPhase {
    match p {
        PomodoroPhase::Work => PomodoroPhase::Break,
        PomodoroPhase::Break => PomodoroPhase::Work,
    }
}

/// The two edges a push button reports.
#[derive(Clone, Copy, Debug, PartialEq, Eq, Structural)]
pub enum ButtonState {
    Pressed,
    Released,
}

/// Abstract state of a timer.
pub ghost struct TimerModel {
    pub state: PomodoroState,
    pub counter: nat,
    pub last_phase: PomodoroPhase,
    pub work_time: nat,
    pub break_time: nat,
}

impl TimerModel {
    /// Configured length of phase `p`, in seconds.
    pub open spec fn duration(self, p: PomodoroPhase) -> nat {
        match p {
            PomodoroPhase::Work => self.work_time,
            PomodoroPhase::Break => self.break_time,
        }
    }

    /// The phase that is running, or the one to resume into while paused.
    pub open spec fn current_phase(self) -> PomodoroPhase {
        match self.state {
            PomodoroState::Running(p) => p,
            PomodoroState::Paused => self.last_phase,
        }
    }

    /// The countdown never exceeds the configured length of its phase, and
    /// every length fits the machine counter.
    pub open spec fn wf(self) -> bool {
        &&& self.work_time <= u32::MAX
        &&& self.break_time <= u32::MAX
        &&& self.counter <= self.duration(self.current_phase())
    }

    /// One tick: a running countdown at zero switches to the other phase and
    /// starts over from that phase's length; a running countdown above zero
    /// goes down by one; a paused timer stays as it is.
    pub open spec fn ticked(self) -> TimerModel {
        match self.state {
            PomodoroState::Running(p) => if self.counter == 0 {
                TimerModel {
                    state: PomodoroState::Running(other_phase(p)),
                    counter: self.duration(other_phase(p)),
                    ..self
                }
            } else {
                TimerModel { counter: (self.counter - 1) as nat, ..self }
            },
            PomodoroState::Paused => self,
        }
    }

    /// `n` ticks in a row.
    pub open spec fn ticked_n(self, n: nat) -> TimerModel
        decreases n,
    {
        if n == 0 {
            self
        } else {
            self.ticked_n((n - 1) as nat).ticked()
        }
    }

    /// Pausing remembers the running phase; resuming runs the remembered phase.
    /// The countdown is kept either way.
    pub open spec fn toggled(self) -> TimerModel {
        match self.state {
            PomodoroState::Running(p) => TimerModel {
                state: PomodoroState::Paused,
                last_phase: p,
                ..self
            },
            PomodoroState::Paused => TimerModel {
                state: PomodoroState::Running(self.last_phase),
                ..self
            },
        }
    }

    /// A manual step of the countdown: `+1` adds a second, up to the length of
    /// the current phase; `-1` takes one away, down to zero; any other value is
    /// dropped. The state and the phase are never touched.
    pub open spec fn adjusted(self, delta: int) -> TimerModel {
        let limit = self.duration(self.current_phase());
        if delta == 1 {
            TimerModel { counter: if self.counter < limit { self.counter + 1 } else { limit }, ..self }
        } else if delta == -1 {
            TimerModel { counter: if self.counter > 0 { (self.counter - 1) as nat } else { 0 }, ..self }
        } else {
            self
        }
    }

    /// Only a release of the button toggles the pause.
    pub open spec fn on_button(self, edge: ButtonState) -> TimerModel {
        match edge {
            ButtonState::Released => self.toggled(),
            ButtonState::Pressed => self,
        }
    }
}

/// The countdown timer. It owns the authoritative remaining time.
pub struct PomodoroTimer {
    state: PomodoroState,
    phase_times: [u32; 2],
    counter: u32,
    last_phase: PomodoroPhase,
}

impl View for PomodoroTimer {
    type V = TimerModel;

    closed spec fn view(&self) -> TimerModel {
        TimerModel {
            state: self.state,
            counter: self.counter as nat,
            last_phase: self.last_phase,
            work_time: self.phase_times[0] as nat,
            break_time: self.phase_times[1] as nat,
        }
    }
}

impl PomodoroTimer {
    /// Well-formedness of the timer.
    pub open spec fn wf(&self) -> bool {
        self@.wf()
    }

    fn phase_time(&self, p: PomodoroPhase) -> (r: u32)
        ensures
            r as nat == self@.duration(p),
    {
        match p {
            PomodoroPhase::Work => self.phase_times[0],
            PomodoroPhase::Break => self.phase_times[1],
        }
    }

    /// A paused timer, set to resume into `Work` with the full work length.
    /// `phase_times` holds the work length then the break length, in seconds.
    pub fn new(phase_times: [u32; 2]) -> (r: PomodoroTimer)
        ensures
            r.wf(),
            r@.state == PomodoroState::Paused,
            r@.last_phase == PomodoroPhase::Work,
            r@.work_time == phase_times[0] as nat,
            r@.break_time == phase_times[1] as nat,
            r@.counter == phase_times[0] as nat,
    {
        PomodoroTimer {
            state: PomodoroState::Paused,
            last_phase: PomodoroPhase::Work,
            phase_times: phase_times,
            counter: phase_times[0],
        }
    }

    /// Advances the countdown by one tick.
    pub fn tick(&mut self)
        requires
            old(self).wf(),
        ensures
            final(self).wf(),
            final(self)@ == old(self)@.ticked(),
    {
        match self.state {
            PomodoroState::Running(phase) => {
                if self.counter == 0 {
                    let next = match phase {
                        PomodoroPhase::Work => PomodoroPhase::Break,
                        PomodoroPhase::Break => PomodoroPhase::Work,
                    };
                    self.counter = self.phase_time(next);
                    self.state = PomodoroState::Running(next);
                } else {
                    self.counter = self.counter - 1;
                }
            },
            PomodoroState::Paused => {},
        }
    }

    /// Pauses a running timer, remembering its phase, or resumes a paused one
    /// in the remembered phase.
    pub fn toggle_pause(&mut self)
        requires
            old(self).wf(),
        ensures
            final(self).wf(),
            final(self)@ == old(self)@.toggled(),
    {
        match self.state {
            PomodoroState::Running(phase) => {
                self.state = PomodoroState::Paused;
                self.last_phase = phase;
            },
            PomodoroState::Paused => {
                self.state = PomodoroState::Running(self.last_phase);
            },
        }
    }

    /// Length of the running phase, or of the phase to resume into while paused.
    pub fn get_current_phase_time(&self) -> (r: u32)
        ensures
            r as nat == self@.duration(self@.current_phase()),
            self@.state is Paused ==> r as nat == self@.duration(self@.last_phase),
            self@.state matches PomodoroState::Running(p) ==> r as nat == self@.duration(p),
    {
        match self.state {
            PomodoroState::Running(phase) => self.phase_time(phase),
            PomodoroState::Paused => self.phase_time(self.last_phase),
        }
    }

    /// Applies one step of the rotary encoder to the countdown.
    ///
    /// The step changes the timer's own countdown, so it lasts: the next tick
    /// counts down from the adjusted value. It never goes below zero nor past
    /// the length of the current phase, and it leaves the state alone.
    pub fn adjust(&mut self, delta: i8)
        requires
            old(self).wf(),
        ensures
            final(self).wf(),
            final(self)@ == old(self)@.adjusted(delta as int),
    {
        let limit = self.get_current_phase_time();
        if delta == 1 {
            if self.counter < limit {
                self.counter = self.counter + 1;
            }
        } else if delta == -1 {
            if self.counter > 0 {
                self.counter = self.counter - 1;
            }
        }
    }

    /// Reacts to a button edge: a release toggles the pause, a press does nothing.
    pub fn handle_button(&mut self, edge: ButtonState)
        requires
            old(self).wf(),
        ensures
            final(self).wf(),
            final(self)@ == old(self)@.on_button(edge),
    {
        match edge {
            ButtonState::Released => self.toggle_pause(),
            ButtonState::Pressed => {},
        }
    }

    /// Seconds left in the current phase.
    pub fn counter(&self) -> (r: u32)
        ensures
            r as nat == self@.counter,
    {
        self.counter
    }

    /// Whether the timer runs, and in which phase.
    pub fn state(&self) -> (r: PomodoroState)
        ensures
            r == self@.state,
    {
        self.state
    }

    /// The phase remembered at the last pause (`Work` before the first run).
    pub fn last_phase(&self) -> (r: PomodoroPhase)
        ensures
            r == self@.last_phase,
    {
        self.last_phase
    }
}

} // verus!

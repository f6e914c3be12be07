//! The mathematical model of the timer: its states, its events and the
//! transition that each event causes.

use vstd::prelude::*;

verus! {

/// The number of seconds on the clock after start-up and after every reset
/// (25 minutes).
pub const INITIAL_SECONDS: usize = 1500;

/// The number of seconds between two ticks of an active timer.
pub const TICK_PERIOD_SECONDS: u64 = 1;

/// The run state of the timer. Exactly one is current at any time.
#[derive(Debug, Clone, Copy, PartialEq, Eq, Structural)]
pub enum TimerState {
    /// Not started since start-up or since the last reset.
    Idle,
    /// Counting down; the only state in which ticks are wanted.
    Running,
    /// Stopped by the user with the count kept.
    Paused,
}

/// An event delivered to the timer.
#[derive(Debug, Clone, Copy, PartialEq, Eq, Structural)]
pub enum Message {
    /// The start/pause button was pressed.
    Start,
    /// One period of the tick source has elapsed.
    Tick,
    /// The reset button was pressed.
    Reset,
}

/// The timer as a mathematical value: the run state and the seconds left.
pub struct TimerModel {
    pub state: TimerState,
    pub remaining: nat,
}

impl TimerModel {
    /// The timer at start-up: idle, with the full count.
    pub open spec fn initial() -> TimerModel {
        TimerModel { state: TimerState::Idle, remaining: INITIAL_SECONDS as nat }
    }

    /// The count never exceeds the value it is reset to.
    pub open spec fn inv(self) -> bool {
        self.remaining <= INITIAL_SECONDS
    }

    /// Whether the tick source should be delivering ticks.
    pub open spec fn is_active(self) -> bool {
        self.state == TimerState::Running
    }

    /// The start/pause button: a running timer pauses, any other one runs.
    /// The count is untouched.
    pub open spec fn start_pause(self) -> TimerModel {
        TimerModel {
            state: if self.state == TimerState::Running {
                TimerState::Paused
            } else {
                TimerState::Running
            },
            remaining: self.remaining,
        }
    }

    /// One tick: a running timer with seconds left loses one of them; nothing
    /// else changes, and the state never does.
    pub open spec fn tick(self) -> TimerModel {
        if self.state == TimerState::Running && self.remaining > 0 {
            TimerModel { state: self.state, remaining: (self.remaining - 1) as nat }
        } else {
            self
        }
    }

    /// The reset button: back to the initial timer, whatever came before.
    pub open spec fn reset(self) -> TimerModel {
        TimerModel::initial()
    }

    /// The transition caused by one event.
    pub open spec fn step(self, message: Message) -> TimerModel {
        match message {
            Message::Start => self.start_pause(),
            Message::Tick => self.tick(),
            Message::Reset => self.reset(),
        }
    }

    /// The timer after `n` ticks in a row.
    pub open spec fn ticks(self, n: nat) -> TimerModel
        decreases n,
    {
        if n == 0 {
            self
        } else {
            self.ticks((n - 1) as nat).tick()
        }
    }

    /// The timer after the events of `messages`, first to last.
    pub open spec fn run(self, messages: Seq<Message>) -> TimerModel
        decreases messages.len(),
    {
        if messages.len() == 0 {
            self
        } else {
            self.run(messages.drop_last()).step(messages.last())
        }
    }
}

} // verus!

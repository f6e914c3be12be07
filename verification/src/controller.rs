//! The executable timer: the state that a front end owns, the handlers of its
//! three events, and what it shows.

use vstd::prelude::*;

use crate::label::format_label;
use crate::label::label_text;
use crate::label::lemma_label_shape;
use crate::model::Message;
use crate::model::TimerModel;
use crate::model::TimerState;
use crate::model::INITIAL_SECONDS;

verus! {

/// The timer of one application: its run state and the seconds left.
///
/// A controller is created by [`TimerController::new`] and changed only by
/// its event handlers, so its count never exceeds [`INITIAL_SECONDS`].
#[derive(Debug)]
pub struct TimerController {
    duration: usize,
    timer_state: TimerState,
}

impl View for TimerController {
    type V = TimerModel;

    closed spec fn view(&self) -> TimerModel {
        TimerModel { state: self.timer_state, remaining: self.duration as nat }
    }
}

impl TimerController {
    #[verifier::type_invariant]
    spec fn bounded(self) -> bool {
        self.duration <= INITIAL_SECONDS
    }

    /// The timer at start-up: idle, with the full count.
    pub fn new() -> (timer: TimerController)
        ensures
            timer@ == TimerModel::initial(),
    {
        TimerController { duration: INITIAL_SECONDS, timer_state: TimerState::Idle }
    }

    /// Handles one event.
    pub fn update(&mut self, message: Message)
        ensures
            final(self)@ == old(self)@.step(message),
            final(self)@.inv(),
    {
        match message {
            Message::Start => self.on_start_pause(),
            Message::Tick => self.on_tick(),
            Message::Reset => self.on_reset(),
        }
    }

    /// The start/pause button: pauses a running timer, and sets an idle or a
    /// paused one running. The count is untouched.
    pub fn on_start_pause(&mut self)
        ensures
            final(self)@ == old(self)@.start_pause(),
            final(self)@.inv(),
    {
        proof {
            use_type_invariant(&*self);
        }
        match self.timer_state {
            TimerState::Running => {
                self.timer_state = TimerState::Paused;
            },
            _ => {
                self.timer_state = TimerState::Running;
            },
        }
    }

    /// One tick: takes a second off a running timer that has one left, and
    /// does nothing otherwise. A timer that reaches zero keeps running.
    pub fn on_tick(&mut self)
        ensures
            final(self)@ == old(self)@.tick(),
            final(self)@.inv(),
    {
        proof {
            use_type_invariant(&*self);
        }
        match self.timer_state {
            TimerState::Running => {
                if self.duration > 0 {
                    self.duration = self.duration - 1;
                }
            },
            _ => {},
        }
    }

    /// The reset button: back to idle with the full count, whatever came
    /// before.
    pub fn on_reset(&mut self)
        ensures
            final(self)@ == old(self)@.reset(),
            final(self)@.inv(),
    {
        self.duration = INITIAL_SECONDS;
        self.timer_state = TimerState::Idle;
    }

    /// The time display: the count as minutes and seconds, two digits each,
    /// so always five characters.
    pub fn display_label(&self) -> (label: String)
        ensures
            label@ == label_text(self@.remaining),
            label@.len() == 5,
    {
        proof {
            use_type_invariant(self);
            lemma_label_shape(self.duration as nat);
        }
        format_label(self.duration)
    }

    /// The caption of the start/pause button: what pressing it will do.
    pub fn button_label(&self) -> (label: &'static str)
        ensures
            label@ == (if self@.state == TimerState::Running {
                "Pause"@
            } else {
                "Start"@
            }),
    {
        match self.timer_state {
            TimerState::Running => "Pause",
            _ => "Start",
        }
    }

    /// Whether the tick source should be live: exactly while running.
    pub fn is_active(&self) -> (active: bool)
        ensures
            active == self@.is_active(),
    {
        match self.timer_state {
            TimerState::Running => true,
            _ => false,
        }
    }

    /// The seconds left on the clock.
    pub fn remaining_seconds(&self) -> (seconds: usize)
        ensures
            seconds == self@.remaining,
            seconds <= INITIAL_SECONDS,
    {
        proof {
            use_type_invariant(self);
        }
        self.duration
    }

    /// The current run state.
    pub fn state(&self) -> (state: TimerState)
        ensures
            state == self@.state,
    {
        self.timer_state
    }
}

} // verus!

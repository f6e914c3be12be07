//! What holds of the timer over any number of events, proved of the model
//! that the contracts of [`crate::controller::TimerController`] are stated in.

use vstd::prelude::*;

use crate::model::Message;
use crate::model::TimerModel;
use crate::model::TimerState;
use crate::model::INITIAL_SECONDS;

verus! {

/// A running timer counts down by one per tick and stops at zero: after `n`
/// ticks it is still running and shows `remaining - n`, or zero where that
/// would be negative. The count is never negative.
pub proof fn lemma_ticks_count_down(t: TimerModel, n: nat)
    requires
        t.state == TimerState::Running,
    ensures
        t.ticks(n).state == TimerState::Running,
        t.ticks(n).remaining == (if n <= t.remaining {
            t.remaining - n
        } else {
            0
        }),
        t.ticks(n).remaining >= 0,
    decreases n,
{
    if n > 0 {
        lemma_ticks_count_down(t, (n - 1) as nat);
    }
}

/// Ticks reach only a running timer: an idle or a paused one is the same
/// after any number of them.
pub proof fn lemma_ticks_gated(t: TimerModel, n: nat)
    requires
        t.state == TimerState::Idle || t.state == TimerState::Paused,
    ensures
        t.tick() == t,
        t.ticks(n) == t,
    decreases n,
{
    if n > 0 {
        lemma_ticks_gated(t, (n - 1) as nat);
    }
}

/// A running timer at zero stays as it is under a tick: the count does not
/// go below zero, and the timer does not stop by itself.
pub proof fn lemma_tick_saturates(t: TimerModel)
    requires
        t.state == TimerState::Running,
        t.remaining == 0,
    ensures
        t.tick() == t,
{
}

/// Resetting twice is resetting once, and either way the timer is the
/// initial one.
pub proof fn lemma_reset_idempotent(t: TimerModel)
    ensures
        t.reset().reset() == t.reset(),
        t.reset() == TimerModel::initial(),
        t.reset().state == TimerState::Idle,
        t.reset().remaining == INITIAL_SECONDS,
{
}

/// From idle, the start/pause button gives running, then paused, then
/// running again, and never touches the count.
pub proof fn lemma_toggle(t: TimerModel)
    requires
        t.state == TimerState::Idle,
    ensures
        t.start_pause().state == TimerState::Running,
        t.start_pause().start_pause().state == TimerState::Paused,
        t.start_pause().start_pause().start_pause().state == TimerState::Running,
        t.start_pause().start_pause().start_pause().remaining == t.remaining,
{
}

/// No event raises the count above the value it is reset to.
pub proof fn lemma_step_preserves_inv(t: TimerModel, message: Message)
    requires
        t.inv(),
    ensures
        t.step(message).inv(),
{
}

/// Whatever events arrive after start-up, in whatever order, the count stays
/// between zero and the initial value.
pub proof fn lemma_reachable_bounded(messages: Seq<Message>)
    ensures
        0 <= TimerModel::initial().run(messages).remaining <= INITIAL_SECONDS,
    decreases messages.len(),
{
    if messages.len() > 0 {
        lemma_reachable_bounded(messages.drop_last());
        lemma_step_preserves_inv(
            TimerModel::initial().run(messages.drop_last()),
            messages.last(),
        );
    }
}

/// Once the timer has left idle the start/pause button is a toggle: one press
/// flips whether ticks are wanted, and two presses change nothing.
pub proof fn lemma_start_pause_flips_activity(t: TimerModel)
    requires
        t.state != TimerState::Idle,
    ensures
        t.start_pause().is_active() == !t.is_active(),
        t.start_pause().start_pause() == t,
{
}

} // verus!

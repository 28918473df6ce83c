//! The decisions of the periodic purge.
//!
//! A periodic purge waits for a tick of a repeating timer, takes exclusive
//! access to the cache, purges it, lets go of it and waits for the next tick,
//! for as long as it runs. Waiting and locking belong to a runtime; what to do
//! next belongs here. The runtime performs the [`PurgeAction`] it is given and
//! reports what came of it as a [`PurgeEvent`]; [`PurgePhase::step`] answers
//! with the next action.
//!
//! The loop purges once for each tick and never otherwise, and it stops for
//! good when exclusive access cannot be had: to go on would let expired
//! entries pile up unnoticed.
use vstd::prelude::*;

verus! {

/// Where the periodic purge stands.
#[derive(Clone, Copy, Debug, PartialEq, Eq, Structural)]
pub enum PurgePhase {
    /// Waiting for the timer's next tick.
    AwaitingTick,
    /// A tick has come; the purge it calls for is under way.
    Purging,
    /// The loop has ended and will not purge again.
    Stopped,
}

/// What the runtime reports.
#[derive(Clone, Copy, Debug, PartialEq, Eq, Structural)]
pub enum PurgeEvent {
    /// The timer has ticked.
    Ticked,
    /// Exclusive access was had, the cache was purged, access was released.
    Purged,
    /// Exclusive access could not be had.
    AccessFailed,
}

/// What the runtime is to do next.
#[derive(Clone, Copy, Debug, PartialEq, Eq, Structural)]
pub enum PurgeAction {
    /// Wait for the timer's next tick, then report [`PurgeEvent::Ticked`].
    AwaitTick,
    /// Take exclusive access and purge once, then report
    /// [`PurgeEvent::Purged`], or [`PurgeEvent::AccessFailed`] if access was
    /// refused.
    Purge,
    /// End the loop.
    Stop,
}

/// The phase that follows `phase` on `event`. A tick while waiting starts a
/// purge; a finished purge goes back to waiting; anything else ends the loop.
pub open spec fn next_phase(phase: PurgePhase, event: PurgeEvent) -> PurgePhase {
    match (phase, event) {
        (PurgePhase::AwaitingTick, PurgeEvent::Ticked) => PurgePhase::Purging,
        (PurgePhase::Purging, PurgeEvent::Purged) => PurgePhase::AwaitingTick,
        _ => PurgePhase::Stopped,
    }
}

/// The action that a phase calls for.
pub open spec fn action_of(phase: PurgePhase) -> PurgeAction {
    match phase {
        PurgePhase::AwaitingTick => PurgeAction::AwaitTick,
        PurgePhase::Purging => PurgeAction::Purge,
        PurgePhase::Stopped => PurgeAction::Stop,
    }
}

/// The phase reached from `phase` after `events`, in order.
pub open spec fn phase_after(phase: PurgePhase, events: Seq<PurgeEvent>) -> PurgePhase
    decreases events.len(),
{
    if events.len() == 0 {
        phase
    } else {
        phase_after(next_phase(phase, events.first()), events.drop_first())
    }
}

/// How often a purge is called for along `events`, starting from `phase`.
pub open spec fn purges_commanded(phase: PurgePhase, events: Seq<PurgeEvent>) -> nat
    decreases events.len(),
{
    if events.len() == 0 {
        0
    } else {
        let next = next_phase(phase, events.first());
        (if next == PurgePhase::Purging {
            1nat
        } else {
            0nat
        }) + purges_commanded(next, events.drop_first())
    }
}

/// The number of ticks among `events`.
pub open spec fn ticks_in(events: Seq<PurgeEvent>) -> nat
    decreases events.len(),
{
    if events.len() == 0 {
        0
    } else {
        (if events.first() == PurgeEvent::Ticked {
            1nat
        } else {
            0nat
        }) + ticks_in(events.drop_first())
    }
}

/// `rounds` times a tick followed by a finished purge.
pub open spec fn undisturbed_rounds(rounds: nat) -> Seq<PurgeEvent>
    decreases rounds,
{
    if rounds == 0 {
        Seq::empty()
    } else {
        seq![PurgeEvent::Ticked, PurgeEvent::Purged] + undisturbed_rounds((rounds - 1) as nat)
    }
}

impl PurgePhase {
    /// The phase in which the loop starts, and its first action: to wait for
    /// the first tick.
    pub fn start() -> (begin: (PurgePhase, PurgeAction))
        ensures
            begin.0 == PurgePhase::AwaitingTick,
            begin.1 == PurgeAction::AwaitTick,
    {
        (PurgePhase::AwaitingTick, PurgeAction::AwaitTick)
    }

    /// The phase that follows on `event`, and the action to perform next.
    pub fn step(self, event: PurgeEvent) -> (next: (PurgePhase, PurgeAction))
        ensures
            next.0 == next_phase(self, event),
            next.1 == action_of(next.0),
    {
        match (self, event) {
            (PurgePhase::AwaitingTick, PurgeEvent::Ticked) => (
                PurgePhase::Purging,
                PurgeAction::Purge,
            ),
            (PurgePhase::Purging, PurgeEvent::Purged) => (
                PurgePhase::AwaitingTick,
                PurgeAction::AwaitTick,
            ),
            _ => (PurgePhase::Stopped, PurgeAction::Stop),
        }
    }
}

/// A purge is called for exactly when a tick comes while the loop waits for
/// one, and the loop stops exactly when anything else is reported.
pub proof fn law_purge_only_on_tick(phase: PurgePhase, event: PurgeEvent)
    ensures
        action_of(next_phase(phase, event)) == PurgeAction::Purge <==> phase
            == PurgePhase::AwaitingTick && event == PurgeEvent::Ticked,
        action_of(next_phase(phase, event)) == PurgeAction::AwaitTick <==> phase
            == PurgePhase::Purging && event == PurgeEvent::Purged,
        phase == PurgePhase::Purging && event == PurgeEvent::AccessFailed ==> next_phase(
            phase,
            event,
        ) == PurgePhase::Stopped,
{
}

/// Once stopped, the loop stays stopped and calls for no further purge,
/// whatever is reported.
pub proof fn law_stopped_is_final(events: Seq<PurgeEvent>)
    ensures
        phase_after(PurgePhase::Stopped, events) == PurgePhase::Stopped,
        purges_commanded(PurgePhase::Stopped, events) == 0,
    decreases events.len(),
{
    if events.len() > 0 {
        law_stopped_is_final(events.drop_first());
    }
}

/// Along any run there are never more purges than ticks.
pub proof fn law_no_purge_without_tick(phase: PurgePhase, events: Seq<PurgeEvent>)
    ensures
        purges_commanded(phase, events) <= ticks_in(events),
    decreases events.len(),
{
    if events.len() > 0 {
        law_no_purge_without_tick(next_phase(phase, events.first()), events.drop_first());
    }
}

/// While every purge succeeds, the loop purges exactly once for each tick and
/// is then waiting for the next one.
pub proof fn law_one_purge_per_tick(rounds: nat)
    ensures
        phase_after(PurgePhase::AwaitingTick, undisturbed_rounds(rounds))
            == PurgePhase::AwaitingTick,
        purges_commanded(PurgePhase::AwaitingTick, undisturbed_rounds(rounds)) == rounds,
        ticks_in(undisturbed_rounds(rounds)) == rounds,
    decreases rounds,
{
    if rounds > 0 {
        let rest = undisturbed_rounds((rounds - 1) as nat);
        let all = undisturbed_rounds(rounds);
        law_one_purge_per_tick((rounds - 1) as nat);
        assert(all.first() == PurgeEvent::Ticked);
        assert(all.drop_first().first() == PurgeEvent::Purged);
        assert(all.drop_first().drop_first() =~= rest);
        assert(all.drop_first().len() > 0);
        reveal_with_fuel(phase_after, 3);
        reveal_with_fuel(purges_commanded, 3);
        reveal_with_fuel(ticks_in, 3);
    }
}

} // verus!

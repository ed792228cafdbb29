//! Runs of the loop over sequences of events, and what can be read off them.
use vstd::prelude::*;
use crate::model::LoopView;
use crate::protocol::{Effect, Event, Status};

verus! {

/// One accepted event with what it led to.
pub struct Exchange<C, E> {
    pub event: Event<C, E>,
    pub effects: Seq<Effect<C, E>>,
    pub status: Status,
}

/// Where a sequence of events has taken the loop, and the exchanges on the
/// way. Events that were turned away leave no trace.
pub struct Run<C, E> {
    pub state: LoopView,
    pub transcript: Seq<Exchange<C, E>>,
}

/// The run of `events`, in order, from `start`.
pub open spec fn run<C, E>(start: LoopView, events: Seq<Event<C, E>>) -> Run<C, E>
    decreases events.len(),
{
    if events.len() == 0 {
        Run { state: start, transcript: Seq::empty() }
    } else {
        let before = run(start, events.drop_last());
        let outcome = before.state.step(events.last());
        match outcome.status {
            Ok(status) => Run {
                state: outcome.state,
                transcript: before.transcript.push(
                    Exchange { event: events.last(), effects: outcome.effects, status },
                ),
            },
            Err(_) => before,
        }
    }
}

/// All effects of a transcript, in the order in which the driver carries
/// them out.
pub open spec fn effects_of<C, E>(transcript: Seq<Exchange<C, E>>) -> Seq<Effect<C, E>>
    decreases transcript.len(),
{
    if transcript.len() == 0 {
        Seq::empty()
    } else {
        effects_of(transcript.drop_last()) + transcript.last().effects
    }
}

/// By how much an effect changes the number of live hook processes.
pub open spec fn hook_change<C, E>(effect: Effect<C, E>) -> int {
    match effect {
        Effect::SpawnHook(_) => 1,
        Effect::ReleaseHook => -1,
        _ => 0,
    }
}

/// The number of hook processes that are live once `effects` are carried
/// out, where one was live before exactly if `held`.
pub open spec fn hooks_live<C, E>(held: bool, effects: Seq<Effect<C, E>>) -> int
    decreases effects.len(),
{
    if effects.len() == 0 {
        if held {
            1
        } else {
            0
        }
    } else {
        hooks_live(held, effects.drop_last()) + hook_change(effects.last())
    }
}

/// The playback events for which `effects` spawn a hook process, in order.
pub open spec fn spawned<C, E>(effects: Seq<Effect<C, E>>) -> Seq<E>
    decreases effects.len(),
{
    if effects.len() == 0 {
        Seq::empty()
    } else {
        match effects.last() {
            Effect::SpawnHook(e) => spawned(effects.drop_last()).push(e),
            _ => spawned(effects.drop_last()),
        }
    }
}

/// The credential sets with which `effects` start a connect operation, in
/// order.
pub open spec fn connects<C, E>(effects: Seq<Effect<C, E>>) -> Seq<C>
    decreases effects.len(),
{
    if effects.len() == 0 {
        Seq::empty()
    } else {
        match effects.last() {
            Effect::Connect(c) => connects(effects.drop_last()).push(c),
            _ => connects(effects.drop_last()),
        }
    }
}

/// The playback events that the loop took, in order of arrival.
pub open spec fn retrieved<C, E>(transcript: Seq<Exchange<C, E>>) -> Seq<E>
    decreases transcript.len(),
{
    if transcript.len() == 0 {
        Seq::empty()
    } else {
        match transcript.last().event {
            Event::PlayerEvent(Some(e)) => retrieved(transcript.drop_last()).push(e),
            _ => retrieved(transcript.drop_last()),
        }
    }
}

/// The credential sets that the loop took, in order of arrival.
pub open spec fn offered<C, E>(transcript: Seq<Exchange<C, E>>) -> Seq<C>
    decreases transcript.len(),
{
    if transcript.len() == 0 {
        Seq::empty()
    } else {
        match transcript.last().event {
            Event::Credentials(Some(c)) => offered(transcript.drop_last()).push(c),
            _ => offered(transcript.drop_last()),
        }
    }
}

/// Whether the exchange is an interrupt that made the loop ask a
/// remote-control session to shut down.
pub open spec fn interrupt_shutdown<C, E>(exchange: Exchange<C, E>) -> bool {
    exchange.event is Interrupt && exchange.effects.contains(Effect::ShutdownRemoteControl)
}

/// How many interrupts of a transcript made the loop ask a remote-control
/// session to shut down.
pub open spec fn interrupt_shutdowns<C, E>(transcript: Seq<Exchange<C, E>>) -> nat
    decreases transcript.len(),
{
    if transcript.len() == 0 {
        0
    } else if interrupt_shutdown(transcript.last()) {
        interrupt_shutdowns(transcript.drop_last()) + 1
    } else {
        interrupt_shutdowns(transcript.drop_last())
    }
}

} // verus!

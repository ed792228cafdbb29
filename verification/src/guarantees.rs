//! What holds of every run of the loop.
use vstd::prelude::*;
use crate::model::LoopView;
use crate::protocol::{Effect, Event, PollError, Request, Status, TaskPoll};
use crate::trace::{
    connects, effects_of, hooks_live, interrupt_shutdowns,
    offered, retrieved, run, spawned, Exchange,
};

verus! {

proof fn lemma_hooks_live_concat<C, E>(held: bool, a: Seq<Effect<C, E>>, b: Seq<Effect<C, E>>)
    ensures
        hooks_live(held, a + b) == hooks_live(held, a) + hooks_live(false, b),
    decreases b.len(),
{
    if b.len() == 0 {
        assert(a + b =~= a);
    } else {
        assert((a + b).drop_last() =~= a + b.drop_last());
        lemma_hooks_live_concat(held, a, b.drop_last());
    }
}

proof fn lemma_spawned_concat<C, E>(a: Seq<Effect<C, E>>, b: Seq<Effect<C, E>>)
    ensures
        spawned(a + b) == spawned(a) + spawned(b),
    decreases b.len(),
{
    if b.len() == 0 {
        assert(a + b =~= a);
        assert(spawned(a) + spawned(b) =~= spawned(a));
    } else {
        assert((a + b).drop_last() =~= a + b.drop_last());
        lemma_spawned_concat(a, b.drop_last());
        assert(spawned(a + b) =~= spawned(a) + spawned(b));
    }
}

proof fn lemma_connects_concat<C, E>(a: Seq<Effect<C, E>>, b: Seq<Effect<C, E>>)
    ensures
        connects(a + b) == connects(a) + connects(b),
    decreases b.len(),
{
    if b.len() == 0 {
        assert(a + b =~= a);
        assert(connects(a) + connects(b) =~= connects(a));
    } else {
        assert((a + b).drop_last() =~= a + b.drop_last());
        lemma_connects_concat(a, b.drop_last());
        assert(connects(a + b) =~= connects(a) + connects(b));
    }
}

/// The last exchange of a run that an accepted event extends.
proof fn lemma_run_unfold<C, E>(start: LoopView, events: Seq<Event<C, E>>)
    requires
        events.len() > 0,
    ensures
        ({
            let before = run(start, events.drop_last());
            let outcome = before.state.step(events.last());
            let after = run(start, events);
            match outcome.status {
                Ok(status) => {
                    &&& after.state == outcome.state
                    &&& after.transcript.len() == before.transcript.len() + 1
                    &&& after.transcript.drop_last() == before.transcript
                    &&& after.transcript.last() == (Exchange {
                        event: events.last(),
                        effects: outcome.effects,
                        status,
                    })
                    &&& effects_of(after.transcript) == effects_of(before.transcript)
                        + outcome.effects
                },
                Err(_) => after == before,
            }
        }),
{
    let before = run(start, events.drop_last());
    let outcome = before.state.step(events.last());
    if let Ok(status) = outcome.status {
        let exchange = Exchange { event: events.last(), effects: outcome.effects, status };
        assert(before.transcript.push(exchange).drop_last() =~= before.transcript);
    }
}

/// A step keeps a well-formed state well formed.
pub proof fn step_preserves_wf<C, E>(state: LoopView, event: Event<C, E>)
    requires
        state.wf(),
    ensures
        state.step(event).state.wf(),
{
}

/// Every state of a run from a well-formed state is well formed. So a
/// remote-control session that is about to be replaced has always been
/// asked to shut down.
pub proof fn run_preserves_wf<C, E>(start: LoopView, events: Seq<Event<C, E>>)
    requires
        start.wf(),
    ensures
        run(start, events).state.wf(),
    decreases events.len(),
{
    if events.len() > 0 {
        run_preserves_wf(start, events.drop_last());
        step_preserves_wf(run(start, events.drop_last()).state, events.last());
    }
}

/// No step changes whether a hook program is configured.
pub proof fn run_keeps_hook_program<C, E>(start: LoopView, events: Seq<Event<C, E>>)
    ensures
        run(start, events).state.hook_program == start.hook_program,
    decreases events.len(),
{
    if events.len() > 0 {
        run_keeps_hook_program(start, events.drop_last());
    }
}

/// The number of hook processes that a state holds.
pub open spec fn hooks_held(state: LoopView) -> int {
    if state.hook_running {
        1
    } else {
        0
    }
}

proof fn lemma_step_hooks<C, E>(state: LoopView, event: Event<C, E>, j: int)
    requires
        0 <= j <= state.step(event).effects.len(),
    ensures
        0 <= hooks_held(state) + hooks_live(false, state.step(event).effects.take(j)) <= 1,
        hooks_held(state) + hooks_live(false, state.step(event).effects) == hooks_held(
            state.step(event).state,
        ),
{
    let effects = state.step(event).effects;
    reveal_with_fuel(hooks_live, 3);
    assert(effects.take(effects.len() as int) =~= effects);
    if effects.len() > 0 {
        assert(effects.take(0).len() == 0);
        if effects.len() == 2 {
            assert(effects.take(1).drop_last() =~= effects.take(0));
            assert(effects.drop_last().drop_last().len() == 0);
        }
    }
}

/// At most one hook process is live at any instant: carrying out the
/// effects of a run one by one, there is after each of them no hook process
/// or one, and at the end one exactly if the loop holds its handle.
pub proof fn at_most_one_hook_process<C, E>(start: LoopView, events: Seq<Event<C, E>>)
    ensures
        hooks_live(start.hook_running, effects_of(run(start, events).transcript)) == hooks_held(
            run(start, events).state,
        ),
        forall|k: int|
            0 <= k <= effects_of(run(start, events).transcript).len() ==> 0 <= #[trigger] hooks_live(
                start.hook_running,
                effects_of(run(start, events).transcript).take(k),
            ) <= 1,
    decreases events.len(),
{
    let held = start.hook_running;
    let effects = effects_of(run(start, events).transcript);
    if events.len() == 0 {
        assert forall|k: int| 0 <= k <= effects.len() implies 0 <= #[trigger] hooks_live(
            held,
            effects.take(k),
        ) <= 1 by {
            assert(effects.take(k) =~= effects);
        }
    } else {
        let before = run(start, events.drop_last());
        let earlier = effects_of(before.transcript);
        let outcome = before.state.step(events.last());
        at_most_one_hook_process(start, events.drop_last());
        lemma_run_unfold(start, events);
        if outcome.status is Ok {
            lemma_hooks_live_concat(held, earlier, outcome.effects);
            lemma_step_hooks(before.state, events.last(), outcome.effects.len() as int);
            assert forall|k: int| 0 <= k <= effects.len() implies 0 <= #[trigger] hooks_live(
                held,
                effects.take(k),
            ) <= 1 by {
                if k <= earlier.len() {
                    assert(effects.take(k) =~= earlier.take(k));
                } else {
                    let j = k - earlier.len();
                    assert(effects.take(k) =~= earlier + outcome.effects.take(j));
                    lemma_hooks_live_concat(held, earlier, outcome.effects.take(j));
                    lemma_step_hooks(before.state, events.last(), j);
                }
            }
        }
    }
}

proof fn lemma_step_spawned<C, E>(state: LoopView, event: Event<C, E>)
    requires
        state.wf(),
        state.step(event).status is Ok,
    ensures
        spawned(state.step(event).effects) == match event {
            Event::PlayerEvent(Some(e)) if state.hook_program => seq![e],
            _ => Seq::empty(),
        },
{
    let effects = state.step(event).effects;
    reveal_with_fuel(spawned, 3);
    if effects.len() == 2 {
        assert(effects.drop_last().drop_last().len() == 0);
    }
    match event {
        Event::PlayerEvent(Some(e)) if state.hook_program => {
            assert(spawned(effects) =~= seq![e]);
        },
        _ => {
            assert(spawned(effects) =~= Seq::<E>::empty());
        },
    }
}

/// Playback events are dispatched to the hook program in strict arrival
/// order, one spawn for each: in a run from a well-formed state, the events
/// for which a hook process is spawned are the playback events that the
/// loop took, in the same order, where a hook program is configured, and
/// none where it is not. By [`at_most_one_hook_process`] no two of these
/// processes are live together.
pub proof fn hooks_follow_playback_events<C, E>(start: LoopView, events: Seq<Event<C, E>>)
    requires
        start.wf(),
    ensures
        spawned(effects_of(run(start, events).transcript)) == if start.hook_program {
            retrieved(run(start, events).transcript)
        } else {
            Seq::<E>::empty()
        },
    decreases events.len(),
{
    if events.len() > 0 {
        let before = run(start, events.drop_last());
        let outcome = before.state.step(events.last());
        hooks_follow_playback_events(start, events.drop_last());
        run_preserves_wf(start, events.drop_last());
        run_keeps_hook_program(start, events.drop_last());
        lemma_run_unfold(start, events);
        if outcome.status is Ok {
            lemma_spawned_concat(effects_of(before.transcript), outcome.effects);
            lemma_step_spawned(before.state, events.last());
            assert(spawned(effects_of(before.transcript)) + Seq::<E>::empty() =~= spawned(
                effects_of(before.transcript),
            ));
        }
    }
}

proof fn lemma_step_connects<C, E>(state: LoopView, event: Event<C, E>)
    requires
        state.step(event).status is Ok,
    ensures
        connects(state.step(event).effects) == match event {
            Event::Credentials(Some(c)) => seq![c],
            _ => Seq::empty(),
        },
{
    let effects = state.step(event).effects;
    reveal_with_fuel(connects, 3);
    if effects.len() == 2 {
        assert(effects.drop_last().drop_last().len() == 0);
    }
    match event {
        Event::Credentials(Some(c)) => {
            assert(connects(effects) =~= seq![c]);
        },
        _ => {
            assert(connects(effects) =~= Seq::<C>::empty());
        },
    }
}

/// A new credential set always replaces the outstanding connect operation:
/// whatever the loop holds, a set that it takes makes it start a connect
/// operation with that set as the last effect of the step, after asking the
/// held remote-control session, if any, to shut down. The loop takes the
/// set whenever it waits on the credential source.
pub proof fn new_credentials_replace_connect<C, E>(state: LoopView, credentials: C)
    ensures
        ({
            let outcome = state.step(Event::<C, E>::Credentials(Some(credentials)));
            &&& outcome.status is Ok <==> state.awaiting == Some(Request::Credentials)
            &&& outcome.status is Ok ==> {
                &&& outcome.status == Ok::<Status, PollError>(Status::Continue)
                &&& outcome.state.connection.connecting
                &&& outcome.effects == state.shutdown_effects::<C, E>().push(
                    Effect::Connect(credentials),
                )
                &&& outcome.effects.last() == Effect::<C, E>::Connect(credentials)
            }
        }),
{
}

/// The connect operations that a run starts are for the credential sets
/// that the loop took, one for each and in the same order. So the operation
/// that is outstanding, or resolved last, is the one for the credentials
/// seen last.
pub proof fn connects_follow_credentials<C, E>(start: LoopView, events: Seq<Event<C, E>>)
    ensures
        connects(effects_of(run(start, events).transcript)) == offered(
            run(start, events).transcript,
        ),
        offered(run(start, events).transcript).len() > 0 ==> connects(
            effects_of(run(start, events).transcript),
        ).last() == offered(run(start, events).transcript).last(),
    decreases events.len(),
{
    if events.len() > 0 {
        let before = run(start, events.drop_last());
        let outcome = before.state.step(events.last());
        connects_follow_credentials(start, events.drop_last());
        lemma_run_unfold(start, events);
        if outcome.status is Ok {
            lemma_connects_concat(effects_of(before.transcript), outcome.effects);
            lemma_step_connects(before.state, events.last());
            assert(connects(effects_of(before.transcript)) + Seq::<C>::empty() =~= connects(
                effects_of(before.transcript),
            ));
        }
    }
}

/// Interrupts ask a remote-control session to shut down at most once in a
/// run, however many of them arrive, and never where an interrupt had been
/// acted on before the run. The interrupt that does so sets the flag that
/// says so, and no step clears it.
pub proof fn interrupts_shut_down_once<C, E>(start: LoopView, events: Seq<Event<C, E>>)
    ensures
        interrupt_shutdowns(run(start, events).transcript) <= 1,
        start.shutting_down ==> interrupt_shutdowns(run(start, events).transcript) == 0,
        start.shutting_down || interrupt_shutdowns(run(start, events).transcript) == 1 ==> run(
            start,
            events,
        ).state.shutting_down,
    decreases events.len(),
{
    if events.len() > 0 {
        interrupts_shut_down_once(start, events.drop_last());
        lemma_run_unfold(start, events);
    }
}

/// However a poll of the control server ends, the loop goes on in the same
/// way.
pub proof fn control_server_outcome_is_ignored<C, E>(state: LoopView, a: TaskPoll, b: TaskPoll)
    ensures
        state.step(Event::<C, E>::ControlServer(a)) == state.step(Event::<C, E>::ControlServer(b)),
{
}

/// The loop ends in two ways only: on the first interrupt where no
/// remote-control session is held, and when the remote-control task has
/// completed.
pub proof fn loop_ends_in_two_ways<C, E>(state: LoopView, event: Event<C, E>)
    ensures
        state.step(event).status == Ok::<Status, PollError>(Status::Ready) <==> {
            ||| (state.awaiting == Some(Request::Interrupt) && event == Event::<C, E>::Interrupt {
                signalled: true,
            } && !state.shutting_down && state.connection.remote_control is None)
            ||| (state.awaiting == Some(Request::RemoteControlTask) && event == Event::<
                C,
                E,
            >::RemoteControlTask { finished: true })
        },
        state.step(event).state.awaiting is None <==> state.awaiting is None || state.step(
            event,
        ).status == Ok::<Status, PollError>(Status::Ready),
{
}

/// Within an iteration the sources are asked in a fixed order, each at
/// most once: a step that lets the loop go on leads to a request later in
/// the order, or starts a new iteration with the credential source, which
/// it does exactly after a wiring and after the interrupt that asked a
/// remote-control session to shut down. The loop suspends only after the
/// interrupt source or the remote-control task had nothing for it, and then
/// with no effect and no change but that it starts over when woken.
pub proof fn sources_are_asked_in_order<C, E>(state: LoopView, event: Event<C, E>)
    ensures
        state.step(event).status == Ok::<Status, PollError>(Status::Continue) ==> {
            &&& state.awaiting matches Some(asked)
            &&& state.step(event).state.awaiting matches Some(next)
            &&& if event is Wired || (event == (Event::<C, E>::Interrupt { signalled: true })
                && !state.shutting_down) {
                next == Request::Credentials
            } else {
                asked.rank() < next.rank()
            }
        },
        state.step(event).status == Ok::<Status, PollError>(Status::NotReady) ==> {
            &&& state.awaiting == Some(Request::Interrupt) || state.awaiting == Some(
                Request::RemoteControlTask,
            )
            &&& state.step(event).effects.len() == 0
            &&& state.step(event).state == (LoopView {
                awaiting: Some(Request::Credentials),
                ..state
            })
        },
{
}

} // verus!

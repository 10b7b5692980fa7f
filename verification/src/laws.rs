//! What holds of every run of the supervisor, proved over the state machine
//! that the executable supervisor refines.

use vstd::prelude::*;
use crate::model::{Model, Stage};
use crate::protocol::{
    Action, Event, Probe, Severity, SpawnOutcome, StartFault, SupervisorError, WorkerSlot,
    POLL_INTERVAL_MS,
};

verus! {

/// The number of readiness signals among `events`.
pub open spec fn ready_signals<R, E>(events: Seq<Event<R, E>>) -> nat
    decreases events.len(),
{
    if events.len() == 0 {
        0
    } else {
        let before = ready_signals(events.drop_last());
        if events.last() is Spawned && events.last()->Spawned_0 is Ready {
            before + 1
        } else {
            before
        }
    }
}

/// Starting keeps a well-formed supervisor well-formed.
pub proof fn law_started_wf<C, R>(state: Model<C, R>, worker_count: nat)
    requires
        state.wf(),
        worker_count <= usize::MAX,
    ensures
        state.started(worker_count).wf(),
{
}

/// No event leads out of the well-formed states, changes the configuration
/// handle or the size the pool was started for, or takes a slot away.
pub proof fn law_next_wf<C, R, E>(state: Model<C, R>, event: Event<R, E>)
    requires
        state.wf(),
    ensures
        state.next(event).wf(),
        state.next(event).config == state.config,
        state.next(event).target == state.target,
        state.next(event).slots.len() >= state.slots.len(),
{
}

/// A run never leaves the well-formed states, keeps the configuration
/// handle and the size the pool was started for, and fills no slot without
/// a readiness signal.
pub proof fn law_run_wf<C, R, E>(state: Model<C, R>, events: Seq<Event<R, E>>)
    requires
        state.wf(),
    ensures
        state.run(events).wf(),
        state.run(events).config == state.config,
        state.run(events).target == state.target,
        state.slots.len() <= state.run(events).slots.len(),
        state.run(events).slots.len() <= state.slots.len() + ready_signals(events),
    decreases events.len(),
{
    if events.len() > 0 {
        law_run_wf(state, events.drop_last());
        law_next_wf(state.run(events.drop_last()), events.last());
    }
}

/// Running one sequence of events and then another is running the two in
/// a row.
pub proof fn law_run_in_parts<C, R, E>(
    state: Model<C, R>,
    first: Seq<Event<R, E>>,
    second: Seq<Event<R, E>>,
)
    ensures
        state.run(first + second) == state.run(first).run(second),
    decreases second.len(),
{
    if second.len() > 0 {
        assert((first + second).drop_last() =~= first + second.drop_last());
        law_run_in_parts(state, first, second.drop_last());
    }
}

/// A run of one event is one step.
pub proof fn law_run_single<C, R, E>(state: Model<C, R>, event: Event<R, E>)
    ensures
        state.run(seq![event]) == state.next(event),
{
    assert(seq![event].drop_last() =~= Seq::<Event<R, E>>::empty());
    assert(state.run(Seq::<Event<R, E>>::empty()) == state);
}

/// A pool started for `worker_count` workers is watched only once it is
/// complete: whenever a run has reached monitoring, there are exactly
/// `worker_count` slots, slot `i` holds worker `i`, and at least
/// `worker_count` readiness signals have been reported.
pub proof fn law_monitoring_means_all_ready<C, R, E>(
    config: C,
    worker_count: nat,
    events: Seq<Event<R, E>>,
)
    requires
        worker_count <= usize::MAX,
    ensures
        ({
            let reached = Model::<C, R>::fresh(config).started(worker_count).run(events);
            reached.monitoring() ==> {
                &&& reached.slots.len() == worker_count
                &&& forall|i: int| 0 <= i < worker_count ==> (#[trigger] reached.slots[i]).id == i
                &&& ready_signals(events) >= worker_count
            }
        }),
{
    let begun = Model::<C, R>::fresh(config).started(worker_count);
    law_run_wf(begun, events);
}

/// Bring-up goes strictly from the left: while it lasts, the one worker
/// that is being launched is the lowest id that is not ready yet, and all
/// ids below it have their slots.
pub proof fn law_bring_up_in_order<C, R, E>(
    config: C,
    worker_count: nat,
    events: Seq<Event<R, E>>,
)
    requires
        worker_count <= usize::MAX,
    ensures
        ({
            let reached = Model::<C, R>::fresh(config).started(worker_count).run(events);
            reached.stage is Starting ==> {
                &&& reached.pending() == Some(
                    Action::Spawn { worker_id: reached.slots.len() as usize },
                )
                &&& reached.slots.len() < worker_count
                &&& forall|i: int|
                    0 <= i < reached.slots.len() ==> (#[trigger] reached.slots[i]).id == i
            }
        }),
{
    let begun = Model::<C, R>::fresh(config).started(worker_count);
    law_run_wf(begun, events);
}

/// The events of a bring-up in which one worker after the other becomes
/// ready, each on its channel.
pub open spec fn ready_events<R, E>(receivers: Seq<R>) -> Seq<Event<R, E>> {
    Seq::new(receivers.len(), |i: int| Event::Spawned(SpawnOutcome::Ready(receivers[i])))
}

/// A slot for each of `receivers`, with the ids counting up from zero.
pub open spec fn slots_of<R>(receivers: Seq<R>) -> Seq<WorkerSlot<R>> {
    Seq::new(receivers.len(), |i: int| WorkerSlot { id: i as usize, receiver: receivers[i] })
}

/// Bring-up fills the pool from the left. After the first workers have
/// become ready there is one slot for each of them, worker `i` in slot `i`
/// with its own channel. While workers are missing, the next one is being
/// launched and the pool is not watched yet; with the last one ready,
/// monitoring begins with the first slot.
pub proof fn law_bring_up_fills_the_pool<C, R, E>(
    config: C,
    worker_count: nat,
    receivers: Seq<R>,
)
    requires
        worker_count <= usize::MAX,
        receivers.len() <= worker_count,
    ensures
        ({
            let begun = Model::<C, R>::fresh(config).started(worker_count);
            let reached = begun.run(ready_events::<R, E>(receivers));
            &&& reached.slots == slots_of(receivers)
            &&& reached.target == worker_count
            &&& reached.config == config
            &&& receivers.len() < worker_count ==> !reached.monitoring() && reached.pending()
                == Some(Action::Spawn { worker_id: receivers.len() as usize })
            &&& receivers.len() == worker_count ==> reached.monitoring() && reached.stage
                == begun.sweep_from(0)
        }),
    decreases receivers.len(),
{
    if receivers.len() > 0 {
        assert(ready_events::<R, E>(receivers).drop_last() =~= ready_events::<R, E>(
            receivers.drop_last(),
        ));
        law_bring_up_fills_the_pool::<C, R, E>(config, worker_count, receivers.drop_last());
    }
}

/// Once stopped, always stopped: no event changes the state, nothing is
/// reported, and the driver is asked for nothing.
pub proof fn law_stopped_is_final<C, R, E>(state: Model<C, R>, events: Seq<Event<R, E>>)
    requires
        state.stage is Stopped,
    ensures
        state.run(events) == state,
        state.run(events).pending() is None,
        forall|event: Event<R, E>| (#[trigger] state.report(event)) is None,
    decreases events.len(),
{
    if events.len() > 0 {
        law_stopped_is_final(state, events.drop_last());
    }
}

/// A worker that does not become ready during bring-up ends it: the
/// failure is reported for that worker, with the cause where its
/// initialization failed; the slots stay as they were; and whatever is
/// reported afterwards, no further worker is launched.
pub proof fn law_startup_failure_aborts<C, R, E>(
    state: Model<C, R>,
    fault: StartFault<E>,
    later: Seq<Event<R, E>>,
)
    requires
        state.wf(),
        state.stage is Starting,
    ensures
        ({
            let worker_id = state.stage->Starting_next;
            let event = Event::<R, E>::Spawned(SpawnOutcome::Failed(fault));
            let failed = state.next(event);
            &&& state.report(event) == Some(
                match fault {
                    StartFault::Init(cause) => SupervisorError::InitFailure { worker_id, cause },
                    StartFault::ChannelClosed => SupervisorError::StartupChannelClosed {
                        worker_id,
                    },
                },
            )
            &&& state.report(event)->Some_0.spec_severity() == Severity::Startup
            &&& failed.stage is Stopped
            &&& failed.slots == state.slots
            &&& failed.slots.len() == worker_id
            &&& failed.run(later) == failed
            &&& failed.run(later).pending() is None
        }),
{
    let event = Event::<R, E>::Spawned(SpawnOutcome::Failed(fault));
    law_stopped_is_final(state.next(event), later);
}

/// A message after readiness is tolerated, once or many times: whatever
/// the stage, it leaves slots, configuration and pool size alone, it
/// stops nothing, and it never makes the driver launch a worker. At most
/// it is reported as a notice.
pub proof fn law_stray_messages_tolerated<C, R, E>(state: Model<C, R>, count: nat)
    requires
        state.wf(),
    ensures
        ({
            let messages = Seq::new(count, |i: int| Event::<R, E>::Probed(Probe::Message));
            let after = state.run(messages);
            &&& after.wf()
            &&& after.slots == state.slots
            &&& after.config == state.config
            &&& after.target == state.target
            &&& after.stage is Stopped <==> state.stage is Stopped
            &&& after.stage is Starting <==> state.stage is Starting
            &&& after.pending() is Some && after.pending()->Some_0 is Spawn ==> after.pending()
                == state.pending()
            &&& after.report(Event::<R, E>::Probed(Probe::Message)) matches Some(notice)
                ==> notice is UnexpectedMessage && notice.spec_severity() == Severity::Notice
        }),
    decreases count,
{
    let messages = Seq::new(count, |i: int| Event::<R, E>::Probed(Probe::Message));
    if count > 0 {
        let fewer = Seq::new((count - 1) as nat, |i: int| Event::<R, E>::Probed(Probe::Message));
        assert(messages.drop_last() =~= fewer);
        law_stray_messages_tolerated::<C, R, E>(state, (count - 1) as nat);
    }
}

/// A disconnected worker is respawned in place. Found at slot
/// `worker_id` of a sweep, the disconnect is reported and the driver is
/// asked for a new worker under the same id. Once that one is ready, its
/// channel stands in the same slot under the same id, every other slot is
/// untouched, the pool has the size it was started for, and the sweep goes
/// on behind that slot.
pub proof fn law_disconnect_respawns_in_place<C, R, E>(state: Model<C, R>, receiver: R)
    requires
        state.wf(),
        state.stage is Probing,
    ensures
        ({
            let worker_id = state.stage->Probing_next;
            let found = Event::<R, E>::Probed(Probe::Disconnected);
            let ready = Event::<R, E>::Spawned(SpawnOutcome::Ready(receiver));
            let waiting = state.next(found);
            let healed = waiting.next(ready);
            &&& state.report(found) == Some(
                SupervisorError::<E>::WorkerDisconnected { worker_id },
            )
            &&& waiting.pending() == Some(Action::Spawn { worker_id })
            &&& waiting.slots == state.slots
            &&& waiting.report(ready) is None
            &&& healed.wf()
            &&& healed.slots.len() == state.target
            &&& healed.slots[worker_id as int] == (WorkerSlot { id: worker_id, receiver })
            &&& forall|i: int|
                0 <= i < state.slots.len() && i != worker_id ==> #[trigger] healed.slots[i]
                    == state.slots[i]
            &&& healed.stage == state.sweep_from(worker_id as nat + 1)
            &&& healed.config == state.config
        }),
{
}

/// A replacement that does not become ready is fatal: the failed respawn
/// is reported for that worker with what went wrong, and the supervisor
/// stops for good.
pub proof fn law_failed_respawn_is_fatal<C, R, E>(
    state: Model<C, R>,
    fault: StartFault<E>,
    later: Seq<Event<R, E>>,
)
    requires
        state.wf(),
        state.stage is Respawning,
    ensures
        ({
            let worker_id = state.stage->Respawning_worker_id;
            let event = Event::<R, E>::Spawned(SpawnOutcome::Failed(fault));
            let failed = state.next(event);
            &&& state.report(event) == Some(SupervisorError::RespawnFailure { worker_id, fault })
            &&& state.report(event)->Some_0.spec_severity() == Severity::Fatal
            &&& failed.stage is Stopped
            &&& failed.slots == state.slots
            &&& failed.run(later) == failed
            &&& failed.run(later).pending() is None
        }),
{
    let event = Event::<R, E>::Spawned(SpawnOutcome::Failed(fault));
    law_stopped_is_final(state.next(event), later);
}

/// What the driver finds at one slot during a sweep.
pub enum Visit<R> {
    /// The worker is alive and its channel empty.
    Quiet,
    /// The worker is alive and a stray message was waiting.
    Chatty,
    /// The worker was gone; its replacement became ready on this channel.
    Replaced(R),
}

/// The events that one visit reports.
pub open spec fn visit_events<R, E>(visit: Visit<R>) -> Seq<Event<R, E>> {
    match visit {
        Visit::Quiet => seq![Event::Probed(Probe::Empty)],
        Visit::Chatty => seq![Event::Probed(Probe::Message)],
        Visit::Replaced(receiver) => seq![
            Event::Probed(Probe::Disconnected),
            Event::Spawned(SpawnOutcome::Ready(receiver)),
        ],
    }
}

/// The events that a row of visits reports, slot after slot.
pub open spec fn sweep_events<R, E>(visits: Seq<Visit<R>>) -> Seq<Event<R, E>>
    decreases visits.len(),
{
    if visits.len() == 0 {
        Seq::empty()
    } else {
        sweep_events(visits.drop_last()) + visit_events(visits.last())
    }
}

/// The slots after the visits, of which the first was paid to slot `from`:
/// a replaced worker has its new channel under its old id, and every other
/// slot is as before.
pub open spec fn swept_slots<R>(
    slots: Seq<WorkerSlot<R>>,
    from: int,
    visits: Seq<Visit<R>>,
) -> Seq<WorkerSlot<R>> {
    Seq::new(
        slots.len(),
        |i: int|
            if from <= i < from + visits.len() && visits[i - from] is Replaced {
                WorkerSlot { id: i as usize, receiver: visits[i - from]->Replaced_0 }
            } else {
                slots[i]
            },
    )
}

/// A sweep takes the slots in the order of their ids and respawns exactly
/// the workers it finds gone. From slot `next` on, one visit per slot: the
/// sweep then stands behind the last slot visited, which is the pause once
/// every slot has had its visit; each worker found gone has its
/// replacement in its own slot under its own id; no other slot has
/// changed, and there are as many slots as before. The pause lasts one
/// polling interval, and when it is over the next sweep begins with the
/// first slot.
pub proof fn law_sweep_respawns_the_disconnected<C, R, E>(
    state: Model<C, R>,
    visits: Seq<Visit<R>>,
)
    requires
        state.wf(),
        state.stage is Probing,
        state.stage->Probing_next + visits.len() <= state.target,
    ensures
        ({
            let next = state.stage->Probing_next;
            let swept = state.run(sweep_events::<R, E>(visits));
            &&& swept.wf()
            &&& swept.stage == state.sweep_from(next as nat + visits.len())
            &&& swept.slots == swept_slots(state.slots, next as int, visits)
            &&& swept.slots.len() == state.target
            &&& swept.stage is Probing ==> swept.pending() == Some(
                Action::Probe { worker_id: (next + visits.len()) as usize },
            )
            &&& swept.stage is Sleeping ==> {
                &&& swept.pending() == Some(Action::Sleep { millis: POLL_INTERVAL_MS })
                &&& swept.next(Event::<R, E>::Woke).stage == state.sweep_from(0)
            }
        }),
    decreases visits.len(),
{
    if visits.len() > 0 {
        let before = visits.drop_last();
        let last = visits.last();
        law_sweep_respawns_the_disconnected::<C, R, E>(state, before);
        law_run_in_parts(state, sweep_events::<R, E>(before), visit_events::<R, E>(last));
        let reached = state.run(sweep_events::<R, E>(before));
        let events = visit_events::<R, E>(last);
        match last {
            Visit::Replaced(receiver) => {
                let found = Event::<R, E>::Probed(Probe::Disconnected);
                assert(events.drop_last() =~= seq![found]);
                law_run_single(reached, found);
            },
            Visit::Quiet => {
                law_run_single(reached, Event::<R, E>::Probed(Probe::Empty));
            },
            Visit::Chatty => {
                law_run_single(reached, Event::<R, E>::Probed(Probe::Message));
            },
        }
    }
}

/// Every worker, first or replacement, is built from the one configuration
/// handle that the supervisor was created with: neither starting nor any
/// run of events exchanges it.
pub proof fn law_configuration_is_shared<C, R, E>(
    config: C,
    worker_count: nat,
    events: Seq<Event<R, E>>,
)
    requires
        worker_count <= usize::MAX,
    ensures
        Model::<C, R>::fresh(config).started(worker_count).run(events).config == config,
{
    law_run_wf(Model::<C, R>::fresh(config).started(worker_count), events);
}

} // verus!

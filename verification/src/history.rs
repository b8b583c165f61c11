//! Histories of an actor loop, and the laws that hold of every one of them.
//!
//! A history is the sequence of what a driver reported to the loop. Its trace
//! is the sequence of what the driver did for the actor: the handlers that it
//! called and the states that it published.

use vstd::prelude::*;
use crate::actor::ActorExitStatus;
use crate::async_actor::Action;
use crate::async_actor::Dispatch;
use crate::async_actor::LoopState;
use crate::async_actor::Phase;

verus! {

/// What a driver reports to the loop.
pub enum LoopEvent<M> {
    /// `initialize` returned.
    Initialized(Result<(), ActorExitStatus>),
    /// An iteration ran; its receive cycle, if it ran one, left the dispatch.
    Iterated(Dispatch<M>),
    /// `process_message` returned.
    Processed(Result<(), ActorExitStatus>),
    /// `finalize` returned.
    Finalized,
}

/// What a driver does for the actor.
pub enum Effect<M> {
    /// It calls `initialize`.
    Initialize,
    /// It calls `process_message` with the message.
    ProcessMessage(M),
    /// It publishes the observable state, after an observe command.
    Publish,
    /// It calls `finalize` with the status.
    Finalize(ActorExitStatus),
    /// It publishes the final observable state.
    PublishFinal,
    /// It resolves the join handle with the status.
    Resolve(ActorExitStatus),
}

impl<M> Effect<M> {
    /// An effect of the time before the loop has ended.
    pub open spec fn before_exit(self) -> bool {
        self is Initialize || self is ProcessMessage || self is Publish
    }
}

impl LoopState {
    /// Whether the loop awaits this event.
    pub open spec fn awaits<M>(self, event: LoopEvent<M>) -> bool {
        match event {
            LoopEvent::Initialized(_) => self.phase == Phase::Initializing,
            LoopEvent::Iterated(_) => self.phase == Phase::Running,
            LoopEvent::Processed(_) => self.phase == Phase::Processing,
            LoopEvent::Finalized => self.phase == Phase::Finalizing,
        }
    }

    /// The loop after an event. An event that the loop does not await
    /// changes nothing.
    pub open spec fn step<M>(self, event: LoopEvent<M>) -> LoopState {
        if !self.awaits(event) {
            self
        } else {
            match event {
                LoopEvent::Initialized(result) => self.initialized(result),
                LoopEvent::Iterated(dispatch) => self.iterated(dispatch),
                LoopEvent::Processed(result) => self.processed(result),
                LoopEvent::Finalized => self.finalized(),
            }
        }
    }

    /// What the driver does in answer to the event.
    pub open spec fn effects<M>(self, event: LoopEvent<M>) -> Seq<Effect<M>> {
        if !self.awaits(event) {
            Seq::empty()
        } else {
            match event {
                LoopEvent::Iterated(dispatch) => match self.action(dispatch) {
                    Action::ProcessMessage(message) => seq![Effect::ProcessMessage(message)],
                    Action::Observe => seq![Effect::Publish],
                    Action::Finalize(status) => seq![Effect::Finalize(status)],
                    _ => Seq::empty(),
                },
                LoopEvent::Finalized => match self.exit_status {
                    Some(status) => seq![Effect::PublishFinal, Effect::Resolve(status)],
                    None => Seq::empty(),
                },
                _ => Seq::empty(),
            }
        }
    }
}

/// The loop of a spawned actor after the events of a history.
pub open spec fn run<M>(events: Seq<LoopEvent<M>>) -> LoopState
    decreases events.len(),
{
    if events.len() == 0 {
        LoopState::start()
    } else {
        run(events.drop_last()).step(events.last())
    }
}

/// What the driver did for the actor over a history. It starts with the call
/// of `initialize`, which the spawning itself asks for.
pub open spec fn trace<M>(events: Seq<LoopEvent<M>>) -> Seq<Effect<M>>
    decreases events.len(),
{
    if events.len() == 0 {
        seq![Effect::Initialize]
    } else {
        trace(events.drop_last()) + run(events.drop_last()).effects(events.last())
    }
}

/// How the trace of a history goes with the state that the history leads to.
spec fn shaped<M>(state: LoopState, done: Seq<Effect<M>>) -> bool {
    let n = done.len() as int;
    &&& state.inv()
    &&& n >= 1
    &&& done[0] is Initialize
    &&& forall|i: int| 1 <= i < n ==> !(#[trigger] done[i] is Initialize)
    &&& match state.phase {
        Phase::Initializing => n == 1,
        Phase::Running => forall|i: int| 0 <= i < n ==> (#[trigger] done[i]).before_exit(),
        Phase::Processing => {
            &&& forall|i: int| 0 <= i < n ==> (#[trigger] done[i]).before_exit()
            &&& done[n - 1] is ProcessMessage
        },
        Phase::Finalizing => {
            &&& n >= 2
            &&& Some(done[n - 1]->Finalize_0) == state.exit_status
            &&& done[n - 1] is Finalize
            &&& forall|i: int| 0 <= i < n - 1 ==> (#[trigger] done[i]).before_exit()
        },
        Phase::Finished => {
            &&& n >= 4
            &&& done[n - 3] is Finalize
            &&& Some(done[n - 3]->Finalize_0) == state.exit_status
            &&& done[n - 2] is PublishFinal
            &&& done[n - 1] is Resolve
            &&& Some(done[n - 1]->Resolve_0) == state.exit_status
            &&& forall|i: int| 0 <= i < n - 3 ==> (#[trigger] done[i]).before_exit()
        },
    }
}

proof fn lemma_shaped<M>(events: Seq<LoopEvent<M>>)
    ensures
        shaped(run(events), trace(events)),
    decreases events.len(),
{
    if events.len() > 0 {
        lemma_shaped(events.drop_last());
        let done = trace(events.drop_last());
        let more = run(events.drop_last()).effects(events.last());
        // The earlier effects keep their places; the new ones follow them.
        assert forall|i: int| 0 <= i < done.len() implies (done + more)[i] == done[i] by {}
        assert forall|i: int| done.len() <= i < (done + more).len() implies (done + more)[i]
            == more[i - done.len()] by {}
    }
}

/// The state of a loop is well formed after every history.
pub proof fn law_run_is_well_formed<M>(events: Seq<LoopEvent<M>>)
    ensures
        run(events).inv(),
{
    lemma_shaped(events);
}

/// `initialize` is called exactly once, and before anything else is done for
/// the actor: it is the first effect of every trace, and no later one.
pub proof fn law_initialize_comes_first_and_once<M>(events: Seq<LoopEvent<M>>)
    ensures
        trace(events).len() >= 1,
        trace(events)[0] is Initialize,
        forall|i: int| 1 <= i < trace(events).len() ==> !(#[trigger] trace(events)[i] is Initialize),
{
    lemma_shaped(events);
}

/// `finalize` is called at most once, and no message is processed and no
/// observed state is published after it: what follows it in a trace is the
/// publication of the final state and the resolution, nothing else.
pub proof fn law_finalize_comes_last_and_once<M>(events: Seq<LoopEvent<M>>, i: int, j: int)
    requires
        0 <= i < j < trace(events).len(),
        trace(events)[i] is Finalize,
    ensures
        trace(events)[j] is PublishFinal || trace(events)[j] is Resolve,
        forall|k: int| 0 <= k < i ==> (#[trigger] trace(events)[k]).before_exit(),
{
    lemma_shaped(events);
}

/// A history that has come to its end called `finalize` exactly once, with
/// the exit status that the loop decided, then published the final state and
/// resolved with that same status. These are the last three effects of its
/// trace; all earlier ones are of the time before the exit.
pub proof fn law_finished_run_finalized_with_its_status<M>(events: Seq<LoopEvent<M>>)
    requires
        run(events).phase == Phase::Finished,
    ensures
        run(events).exit_status is Some,
        trace(events).len() >= 4,
        trace(events)[trace(events).len() - 3] == Effect::<M>::Finalize(
            run(events).exit_status->0,
        ),
        trace(events)[trace(events).len() - 2] == Effect::<M>::PublishFinal,
        trace(events)[trace(events).len() - 1] == Effect::<M>::Resolve(run(events).exit_status->0),
        forall|k: int|
            0 <= k < trace(events).len() - 3 ==> (#[trigger] trace(events)[k]).before_exit(),
{
    lemma_shaped(events);
}

/// While the loop has not ended, `finalize` has not been called, no final
/// state was published and nothing was resolved.
pub proof fn law_running_loop_has_not_finalized<M>(events: Seq<LoopEvent<M>>)
    requires
        run(events).phase != Phase::Finalizing,
        run(events).phase != Phase::Finished,
    ensures
        forall|k: int| 0 <= k < trace(events).len() ==> (#[trigger] trace(events)[k]).before_exit(),
{
    lemma_shaped(events);
}

/// An exit status, once decided, is never overwritten: whatever happens
/// later, the loop keeps it.
pub proof fn law_exit_status_is_final<M>(events: Seq<LoopEvent<M>>, later: Seq<LoopEvent<M>>)
    requires
        run(events).exit_status is Some,
    ensures
        run(events + later).exit_status == run(events).exit_status,
    decreases later.len(),
{
    if later.len() > 0 {
        law_exit_status_is_final(events, later.drop_last());
        assert((events + later).drop_last() == events + later.drop_last());
        law_run_is_well_formed(events + later.drop_last());
    }
}

/// A loop whose exit status is decided ends at its next iteration, whatever
/// its mailbox holds: the driver is told to call `finalize` with that status,
/// and once `finalize` has returned, it publishes the final state and resolves
/// with that status.
pub proof fn law_decided_loop_ends_at_the_next_iteration<M>(
    state: LoopState,
    status: ActorExitStatus,
    dispatch: Dispatch<M>,
)
    requires
        state.phase == Phase::Running,
        state.exit_status == Some(status),
    ensures
        state.effects(LoopEvent::Iterated(dispatch)) == seq![Effect::<M>::Finalize(status)],
        state.step(LoopEvent::Iterated(dispatch)).effects(LoopEvent::<M>::Finalized) == seq![
            Effect::<M>::PublishFinal,
            Effect::Resolve(status),
        ],
        state.step(LoopEvent::Iterated(dispatch)).step(LoopEvent::<M>::Finalized) == (LoopState {
            phase: Phase::Finished,
            exit_status: Some(status),
        }),
{
}

/// Only a failure and a panic are fatal. An exit trips the kill switch if and
/// only if its status is fatal (see [`crate::actor_context::ActorContext::exit`]).
pub proof fn law_only_failure_and_panic_are_fatal(error: String)
    ensures
        ActorExitStatus::Failure(error).fatal(),
        ActorExitStatus::Panicked.fatal(),
        !ActorExitStatus::Success.fatal(),
        !ActorExitStatus::Quit.fatal(),
        !ActorExitStatus::Killed.fatal(),
{
}

} // verus!

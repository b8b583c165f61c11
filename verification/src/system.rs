//! An actor among its senders: the mailbox, the kill switch, the lifecycle
//! flag and the loop as one state, moved by what the senders and the driver
//! do, in any order.

use vstd::prelude::*;
use crate::actor::ActorExitStatus;
use crate::actor::ActorState;
use crate::actor::Command;
use crate::async_actor::cycle_command;
use crate::async_actor::cycle_dispatch;
use crate::async_actor::cycle_mailbox;
use crate::async_actor::cycle_state;
use crate::async_actor::Action;
use crate::async_actor::Dispatch;
use crate::async_actor::LoopState;
use crate::async_actor::Phase;
use crate::history::run;
use crate::history::trace;
use crate::history::Effect;
use crate::history::LoopEvent;
use crate::mailbox::MailboxView;

verus! {

/// An actor and what surrounds it.
pub struct System<M> {
    pub mailbox: MailboxView<M>,
    /// The lifecycle flag of the actor's context.
    pub actor_state: ActorState,
    /// Whether the kill switch is tripped.
    pub dead: bool,
    pub actor_loop: LoopState,
}

/// What happens to an actor and around it.
pub enum SystemEvent<M> {
    /// A sender sends a message.
    Send(M),
    /// A sender sends a command.
    SendCommand(Command),
    /// A sender clones its handle.
    CloneHandle,
    /// A sender drops its handle.
    DropHandle,
    /// Someone trips the kill switch.
    Kill,
    /// `initialize` returns.
    Initialized(Result<(), ActorExitStatus>),
    /// The driver iterates.
    Iterate,
    /// `process_message` returns.
    Processed(Result<(), ActorExitStatus>),
    /// `finalize` returns, and the driver drops the inbox.
    Finalized,
}

impl<M> System<M> {
    /// An actor that was just spawned: its mailbox is empty and has two
    /// handles, the actor's own and the spawner's.
    pub open spec fn spawned(capacity: nat, dead: bool) -> Self {
        System {
            mailbox: MailboxView::empty(capacity).clone_handle(),
            actor_state: ActorState::Running,
            dead,
            actor_loop: LoopState::start(),
        }
    }

    /// What a receive cycle that starts now leaves to be done.
    pub open spec fn dispatch(self) -> Dispatch<M> {
        cycle_dispatch(self.mailbox, self.actor_state, self.dead)
    }

    /// What an iteration that starts now tells the driver to do.
    pub open spec fn action(self) -> Action<M> {
        self.actor_loop.action(self.dispatch())
    }

    /// What the event reports to the loop, if it is the driver's.
    pub open spec fn loop_event(self, event: SystemEvent<M>) -> Option<LoopEvent<M>> {
        match event {
            SystemEvent::Initialized(result) => Some(LoopEvent::Initialized(result)),
            SystemEvent::Iterate => Some(LoopEvent::Iterated(self.dispatch())),
            SystemEvent::Processed(result) => Some(LoopEvent::Processed(result)),
            SystemEvent::Finalized => Some(LoopEvent::Finalized),
            _ => None,
        }
    }

    /// The system after an iteration of a loop that is between two
    /// iterations: it ends the loop if the exit status is decided, and runs
    /// one receive cycle otherwise.
    pub open spec fn iterated(self) -> Self {
        match self.actor_loop.exit_status {
            Some(status) => System {
                actor_state: ActorState::Exit,
                dead: self.dead || status.fatal(),
                actor_loop: self.actor_loop.iterated(self.dispatch()),
                ..self
            },
            None => System {
                mailbox: cycle_mailbox(self.mailbox, self.actor_state, self.dead),
                actor_state: cycle_state(self.mailbox, self.actor_state, self.dead),
                dead: self.dead || cycle_command(self.mailbox, self.actor_state, self.dead)
                    == Some(Command::Kill),
                actor_loop: self.actor_loop.iterated(self.dispatch()),
            },
        }
    }

    /// The system after an event. What the driver reports out of turn
    /// changes nothing.
    pub open spec fn step(self, event: SystemEvent<M>) -> Self {
        match event {
            SystemEvent::Send(message) => System { mailbox: self.mailbox.send(message), ..self },
            SystemEvent::SendCommand(command) => System {
                mailbox: self.mailbox.send_command(command),
                ..self
            },
            SystemEvent::CloneHandle => System { mailbox: self.mailbox.clone_handle(), ..self },
            SystemEvent::DropHandle => System { mailbox: self.mailbox.drop_handle(), ..self },
            SystemEvent::Kill => System { dead: true, ..self },
            SystemEvent::Initialized(result) => System {
                actor_loop: self.actor_loop.step(LoopEvent::<M>::Initialized(result)),
                ..self
            },
            SystemEvent::Iterate => if self.actor_loop.phase == Phase::Running {
                self.iterated()
            } else {
                self
            },
            SystemEvent::Processed(result) => System {
                actor_loop: self.actor_loop.step(LoopEvent::<M>::Processed(result)),
                ..self
            },
            SystemEvent::Finalized => if self.actor_loop.phase == Phase::Finalizing {
                System {
                    mailbox: self.mailbox.drop_inbox(),
                    actor_loop: self.actor_loop.finalized(),
                    ..self
                }
            } else {
                self
            },
        }
    }

    /// What the driver does for the actor in answer to the event.
    pub open spec fn effects(self, event: SystemEvent<M>) -> Seq<Effect<M>> {
        match self.loop_event(event) {
            Some(loop_event) => self.actor_loop.effects(loop_event),
            None => Seq::empty(),
        }
    }

    /// The system after the events of a history, in order.
    pub open spec fn run(self, events: Seq<SystemEvent<M>>) -> Self
        decreases events.len(),
    {
        if events.len() == 0 {
            self
        } else {
            self.run(events.drop_last()).step(events.last())
        }
    }

    /// What the driver reported to the loop over a history.
    pub open spec fn loop_history(self, events: Seq<SystemEvent<M>>) -> Seq<LoopEvent<M>>
        decreases events.len(),
    {
        if events.len() == 0 {
            Seq::empty()
        } else {
            let earlier = self.loop_history(events.drop_last());
            match self.run(events.drop_last()).loop_event(events.last()) {
                Some(loop_event) => earlier.push(loop_event),
                None => earlier,
            }
        }
    }

    /// The messages that the mailbox took over a history, in order.
    pub open spec fn enqueued(self, events: Seq<SystemEvent<M>>) -> Seq<M>
        decreases events.len(),
    {
        if events.len() == 0 {
            Seq::empty()
        } else {
            let earlier = self.enqueued(events.drop_last());
            let now = self.run(events.drop_last());
            match events.last() {
                SystemEvent::Send(message) if now.mailbox.accepts_message() => earlier.push(
                    message,
                ),
                _ => earlier,
            }
        }
    }

    /// The messages that were handed to `process_message` over a history, in
    /// order.
    pub open spec fn processed(self, events: Seq<SystemEvent<M>>) -> Seq<M>
        decreases events.len(),
    {
        if events.len() == 0 {
            Seq::empty()
        } else {
            let earlier = self.processed(events.drop_last());
            let now = self.run(events.drop_last());
            match events.last() {
                SystemEvent::Iterate if now.actor_loop.phase == Phase::Running => match now.action() {
                    Action::ProcessMessage(message) => earlier.push(message),
                    _ => earlier,
                },
                _ => earlier,
            }
        }
    }

    /// How many iterations a history holds.
    pub open spec fn iterations(events: Seq<SystemEvent<M>>) -> nat
        decreases events.len(),
    {
        if events.len() == 0 {
            0
        } else if events.last() is Iterate {
            Self::iterations(events.drop_last()) + 1
        } else {
            Self::iterations(events.drop_last())
        }
    }
}

/// The loop of a system goes through a history of its own: what the driver
/// reported, with the dispatch of each iteration. So whatever holds of every
/// history of a loop holds of the loop of every spawned actor, whatever its
/// senders do meanwhile.
pub proof fn law_system_follows_its_loop<M>(start: System<M>, events: Seq<SystemEvent<M>>)
    requires
        start.actor_loop == LoopState::start(),
    ensures
        start.run(events).actor_loop == run(start.loop_history(events)),
    decreases events.len(),
{
    if events.len() > 0 {
        law_system_follows_its_loop(start, events.drop_last());
        let earlier = start.loop_history(events.drop_last());
        if let Some(loop_event) = start.run(events.drop_last()).loop_event(events.last()) {
            assert(earlier.push(loop_event).drop_last() == earlier);
        }
    }
}

/// The kill switch never untrips: whatever happens to a system whose switch
/// is tripped, the switch stays tripped.
pub proof fn law_kill_switch_never_untrips<M>(start: System<M>, events: Seq<SystemEvent<M>>)
    requires
        start.dead,
    ensures
        start.run(events).dead,
    decreases events.len(),
{
    if events.len() > 0 {
        law_kill_switch_never_untrips(start, events.drop_last());
    }
}

/// The inbox of a system is there until the loop has finished.
proof fn lemma_inbox_lives_as_long_as_the_loop<M>(start: System<M>, events: Seq<SystemEvent<M>>)
    requires
        start.mailbox.inbox_alive,
        start.actor_loop.phase != Phase::Finished,
    ensures
        start.run(events).mailbox.inbox_alive == (start.run(events).actor_loop.phase
            != Phase::Finished),
    decreases events.len(),
{
    if events.len() > 0 {
        lemma_inbox_lives_as_long_as_the_loop(start, events.drop_last());
    }
}

/// Messages are processed in the order in which they were sent, each of them
/// once. While the loop has not finished, what waited at the start and what
/// was enqueued since is what was handed to `process_message`, followed by
/// what waits now; and at any time, what was handed to `process_message` is
/// the beginning of what was there to process.
pub proof fn law_messages_are_processed_in_send_order<M>(
    start: System<M>,
    events: Seq<SystemEvent<M>>,
)
    requires
        start.mailbox.inbox_alive,
        start.actor_loop.phase != Phase::Finished,
    ensures
        start.run(events).actor_loop.phase != Phase::Finished ==> start.mailbox.messages
            + start.enqueued(events) == start.processed(events) + start.run(
            events,
        ).mailbox.messages,
        start.processed(events).is_prefix_of(start.mailbox.messages + start.enqueued(events)),
    decreases events.len(),
{
    if events.len() > 0 {
        let before = events.drop_last();
        law_messages_are_processed_in_send_order(start, before);
        lemma_inbox_lives_as_long_as_the_loop(start, before);
        let done = start.processed(before);
        let waiting = start.run(before).mailbox.messages;
        if let SystemEvent::Send(message) = events.last() {
            // What joins the back of the lane joins the back of the whole.
            assert(done + waiting.push(message) == (done + waiting).push(message));
        }
    }
}

/// No message overtakes a command: when an iteration hands a message to
/// `process_message`, no command waits.
pub proof fn law_no_message_overtakes_a_command<M>(system: System<M>)
    requires
        system.action() is ProcessMessage,
    ensures
        system.mailbox.commands.len() == 0,
        system.mailbox.messages.len() > 0,
        system.action() == Action::ProcessMessage(system.mailbox.messages[0]),
        system.actor_state == ActorState::Running,
        !system.dead,
{
}

/// Handlers are serialized: while `process_message` is under way, an
/// iteration changes nothing and hands over nothing. The next message is
/// handed over only after the driver reported the result of this one.
pub proof fn law_handlers_are_serialized<M>(system: System<M>)
    requires
        system.actor_loop.phase == Phase::Processing,
    ensures
        system.step(SystemEvent::Iterate) == system,
        system.effects(SystemEvent::Iterate) == Seq::<Effect<M>>::empty(),
{
}

/// A paused actor processes no message: whatever its mailbox holds, an
/// iteration hands over none and leaves the message lane alone.
pub proof fn law_paused_actor_processes_no_message<M>(system: System<M>)
    requires
        system.actor_state == ActorState::Paused,
    ensures
        !(system.action() is ProcessMessage),
        system.step(SystemEvent::Iterate).mailbox.messages == system.mailbox.messages,
{
}

/// Observing advances nothing: an iteration that receives an observe command
/// asks for a publication and leaves the loop, the lifecycle flag, the kill
/// switch and the messages that wait as they are.
pub proof fn law_observe_advances_nothing<M>(system: System<M>)
    requires
        system.actor_loop.phase == Phase::Running,
        system.actor_loop.exit_status is None,
        !system.dead,
        system.mailbox.commands.len() > 0,
        system.mailbox.commands[0] == Command::Observe,
    ensures
        system.action() == Action::<M>::Observe,
        system.iterated().actor_loop == system.actor_loop,
        system.iterated().actor_state == system.actor_state,
        system.iterated().dead == system.dead,
        system.iterated().mailbox.messages == system.mailbox.messages,
        system.iterated().mailbox.commands == system.mailbox.commands.drop_first(),
{
}

/// Where a loop that saw the kill switch tripped stands after so many
/// iterations.
spec fn killed_after(system: LoopState, iterations: nat) -> bool {
    if iterations == 0 {
        system.phase == Phase::Running && system.exit_status is None
    } else if iterations == 1 {
        system.phase == Phase::Running && system.exit_status == Some(ActorExitStatus::Killed)
    } else {
        (system.phase == Phase::Finalizing || system.phase == Phase::Finished)
            && system.exit_status == Some(ActorExitStatus::Killed)
    }
}

proof fn lemma_kill_ends_the_actor<M>(start: System<M>, events: Seq<SystemEvent<M>>)
    requires
        start.dead,
        start.actor_loop.phase == Phase::Running,
        start.actor_loop.exit_status is None,
    ensures
        killed_after(start.run(events).actor_loop, System::<M>::iterations(events)),
        start.run(events).dead,
        System::<M>::iterations(events) <= 1 ==> start.run(events).actor_state
            == start.actor_state,
        start.processed(events).len() == 0,
    decreases events.len(),
{
    if events.len() > 0 {
        lemma_kill_ends_the_actor(start, events.drop_last());
    }
}

/// A tripped kill switch ends an actor within two iterations. Whatever its
/// mailbox holds and whatever its senders do meanwhile, an actor that has
/// decided nothing and stands between two iterations when the switch is
/// tripped decides `Killed` at its first iteration and ends its loop at the
/// second, without processing another message.
pub proof fn law_kill_ends_the_actor_within_two_iterations<M>(
    start: System<M>,
    events: Seq<SystemEvent<M>>,
)
    requires
        start.dead,
        start.actor_loop.phase == Phase::Running,
        start.actor_loop.exit_status is None,
        System::<M>::iterations(events) >= 2,
    ensures
        start.run(events).actor_loop.exit_status == Some(ActorExitStatus::Killed),
        start.run(events).actor_loop.phase == Phase::Finalizing || start.run(
            events,
        ).actor_loop.phase == Phase::Finished,
        start.processed(events).len() == 0,
{
    lemma_kill_ends_the_actor(start, events);
}

/// An actor that only itself can address ends with `Success` within two
/// iterations, without processing a message: once nothing waits in its
/// mailbox and its own handle is the last one, and as long as the kill switch
/// is not tripped and nothing is sent, its first iteration decides `Success`
/// and its second ends the loop.
pub proof fn law_unaddressed_actor_exits_with_success<M>(system: System<M>)
    requires
        system.actor_loop.phase == Phase::Running,
        system.actor_loop.exit_status is None,
        !system.dead,
        system.mailbox.commands.len() == 0,
        system.mailbox.messages.len() == 0,
        system.mailbox.handles <= 1,
    ensures
        system.action() == Action::<M>::Continue,
        system.iterated().actor_loop == (LoopState {
            phase: Phase::Running,
            exit_status: Some(ActorExitStatus::Success),
        }),
        system.iterated().mailbox == system.mailbox,
        system.iterated().action() == Action::<M>::Finalize(ActorExitStatus::Success),
        system.iterated().iterated().actor_loop.phase == Phase::Finalizing,
        !system.iterated().iterated().dead,
{
}

/// The sends of `messages`, one after the other.
pub open spec fn sends<M>(messages: Seq<M>) -> Seq<SystemEvent<M>> {
    Seq::new(messages.len(), |i: int| SystemEvent::Send(messages[i]))
}

/// A spawned actor whose `initialize` fails with a fatal status trips the
/// kill switch and processes none of the messages that were sent to it: its
/// first iteration ends the loop, and what the driver does for it is the call
/// of `initialize`, the call of `finalize` with that status, the final
/// publication and the resolution with that status.
pub proof fn law_failed_initialize_trips_the_switch<M>(
    start: System<M>,
    status: ActorExitStatus,
    messages: Seq<M>,
)
    requires
        start.actor_loop == LoopState::start(),
    ensures
        ({
            let events = sends(messages) + seq![
                SystemEvent::Initialized(Err(status)),
                SystemEvent::Iterate,
                SystemEvent::Finalized,
            ];
            &&& start.run(events).actor_loop == (LoopState {
                phase: Phase::Finished,
                exit_status: Some(status),
            })
            &&& start.run(events).dead == (start.dead || status.fatal())
            &&& start.processed(events).len() == 0
            &&& trace(start.loop_history(events)) == seq![
                Effect::<M>::Initialize,
                Effect::Finalize(status),
                Effect::PublishFinal,
                Effect::Resolve(status),
            ]
        }),
{
    let sent = sends(messages);
    lemma_sends_leave_the_loop_alone(start, messages);
    let e1 = SystemEvent::<M>::Initialized(Err(status));
    let e2 = SystemEvent::<M>::Iterate;
    let e3 = SystemEvent::<M>::Finalized;
    let h1 = sent.push(e1);
    let h2 = h1.push(e2);
    let h3 = h2.push(e3);
    assert(h3 == sent + seq![e1, e2, e3]);
    assert(h1.drop_last() == sent);
    assert(h2.drop_last() == h1);
    assert(h3.drop_last() == h2);
    let s1 = start.run(h1);
    assert(start.processed(h2) == start.processed(h1));
    let l1 = LoopEvent::<M>::Initialized(Err(status));
    let l2 = LoopEvent::<M>::Iterated(s1.dispatch());
    let l3 = LoopEvent::<M>::Finalized;
    assert(start.loop_history(h1) == seq![l1]);
    assert(start.loop_history(h2) == seq![l1, l2]);
    assert(start.loop_history(h3) == seq![l1, l2, l3]);
    let g0 = Seq::<LoopEvent<M>>::empty();
    let g1 = seq![l1];
    let g2 = seq![l1, l2];
    let g3 = seq![l1, l2, l3];
    assert(g1.drop_last() == g0);
    assert(g2.drop_last() == g1);
    assert(g3.drop_last() == g2);
    assert(run(g0) == LoopState::start());
    assert(run(g1) == LoopState { phase: Phase::Running, exit_status: Some(status) });
    assert(trace(g0) == seq![Effect::<M>::Initialize]);
    assert(trace(g1) == seq![Effect::<M>::Initialize]);
    assert(trace(g2) == seq![Effect::<M>::Initialize, Effect::Finalize(status)]);
}

proof fn lemma_sends_leave_the_loop_alone<M>(start: System<M>, messages: Seq<M>)
    ensures
        ({
            let sent = sends(messages);
            &&& start.run(sent).actor_loop == start.actor_loop
            &&& start.run(sent).dead == start.dead
            &&& start.run(sent).actor_state == start.actor_state
            &&& start.loop_history(sent) == Seq::<LoopEvent<M>>::empty()
            &&& start.processed(sent).len() == 0
        }),
    decreases messages.len(),
{
    let sent = sends(messages);
    if messages.len() > 0 {
        lemma_sends_leave_the_loop_alone(start, messages.drop_last());
        assert(sent.drop_last() == sends(messages.drop_last()));
    }
}

} // verus!

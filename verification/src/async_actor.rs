//! The actor loop: what one receive cycle decides, and the lifecycle that
//! leads an actor from `initialize` to the resolution of its exit status.
//!
//! Nothing here waits. The driver of an actor owns the actor itself, calls
//! its handlers, yields to the executor between two iterations and sleeps
//! while its mailbox has nothing to deliver. After each of these it asks the
//! [`ActorLoop`] what comes next, and does exactly that.

use vstd::prelude::*;
use crate::actor::decided_by;
use crate::actor::ActorExitStatus;
use crate::actor::ActorState;
use crate::actor::Command;
use crate::actor::CommandOrMessage;
use crate::actor::RecvError;
use crate::actor_context::paused;
use crate::actor_context::resumed;
use crate::actor_context::ActorContext;
use crate::kill_switch::KillSwitch;
use crate::mailbox::create_mailbox;
use crate::mailbox::Mailbox;
use crate::mailbox::MailboxView;
use crate::progress::next_stamp;
use crate::system::System;

verus! {

/// What one receive cycle leaves to be done.
#[derive(Debug, PartialEq, Eq)]
pub enum Dispatch<M> {
    /// The cycle decided the exit status.
    Exit(ActorExitStatus),
    /// A message was received: `process_message` is to be called with it.
    Message(M),
    /// An observe command was received: a fresh observable state is to be
    /// published.
    Observe,
    /// Nothing deliverable waited, and senders remain.
    Idle,
    /// A command was processed; nothing is left to do.
    Continue,
}

/// What a command leaves to be done.
pub open spec fn command_dispatch<M>(command: Command) -> Dispatch<M> {
    match command {
        Command::Pause => Dispatch::Continue,
        Command::Resume => Dispatch::Continue,
        Command::Observe => Dispatch::Observe,
        Command::Quit => Dispatch::Exit(ActorExitStatus::Quit),
        Command::Kill => Dispatch::Exit(ActorExitStatus::Killed),
    }
}

/// The lifecycle flag after a command.
pub open spec fn state_after_command(state: ActorState, command: Command) -> ActorState {
    match command {
        Command::Pause => paused(state),
        Command::Resume => resumed(state),
        _ => state,
    }
}

/// Processes a command: pause and resume flip the lifecycle flag, observe
/// asks for a publication, quit decides `Quit`, and kill trips the switch and
/// decides `Killed`.
pub fn process_command<M>(
    command: Command,
    ctx: &mut ActorContext,
    kill_switch: &mut KillSwitch,
) -> (dispatch: Dispatch<M>)
    ensures
        dispatch == command_dispatch::<M>(command),
        final(ctx).state() == state_after_command(old(ctx).state(), command),
        final(ctx).stamp() == old(ctx).stamp(),
        final(kill_switch).tripped() == (old(kill_switch).tripped() || command == Command::Kill),
{
    match command {
        Command::Pause => {
            ctx.pause();
            Dispatch::Continue
        },
        Command::Resume => {
            ctx.resume();
            Dispatch::Continue
        },
        Command::Observe => Dispatch::Observe,
        Command::Quit => Dispatch::Exit(ActorExitStatus::Quit),
        Command::Kill => {
            kill_switch.kill();
            Dispatch::Exit(ActorExitStatus::Killed)
        },
    }
}

/// The command that a receive handed out, if it handed out one.
pub open spec fn received_command<M>(received: Result<CommandOrMessage<M>, RecvError>) -> Option<
    Command,
> {
    match received {
        Ok(CommandOrMessage::Command(command)) => Some(command),
        _ => None,
    }
}

/// What the outcome of a receive leaves to be done, given whether the kill
/// switch is tripped after the receive and whether the actor's own mailbox
/// handle is the last one.
///
/// A tripped switch decides `Killed`, whatever was received. Otherwise a
/// command is processed, a message goes to the actor, a disconnected inbox
/// decides `Success`, and so does a timeout when no sender is left.
pub open spec fn received_dispatch<M>(
    received: Result<CommandOrMessage<M>, RecvError>,
    dead: bool,
    last_mailbox: bool,
) -> Dispatch<M> {
    if dead {
        Dispatch::Exit(ActorExitStatus::Killed)
    } else {
        match received {
            Ok(CommandOrMessage::Command(command)) => command_dispatch(command),
            Ok(CommandOrMessage::Message(message)) => Dispatch::Message(message),
            Err(RecvError::Disconnected) => Dispatch::Exit(ActorExitStatus::Success),
            Err(RecvError::Timeout) => if last_mailbox {
                Dispatch::Exit(ActorExitStatus::Success)
            } else {
                Dispatch::Idle
            },
        }
    }
}

/// Dispatches the outcome of a receive: looks at the kill switch once more,
/// then acts on what was received.
pub fn dispatch<M>(
    received: Result<CommandOrMessage<M>, RecvError>,
    mailbox: &Mailbox<M>,
    ctx: &mut ActorContext,
    kill_switch: &mut KillSwitch,
) -> (dispatch: Dispatch<M>)
    ensures
        dispatch == received_dispatch(
            received,
            old(kill_switch).tripped(),
            mailbox@.is_last_mailbox(),
        ),
        final(ctx).stamp() == old(ctx).stamp(),
        final(ctx).state() == (match received_command(received) {
            Some(command) if !old(kill_switch).tripped() => state_after_command(
                old(ctx).state(),
                command,
            ),
            _ => old(ctx).state(),
        }),
        final(kill_switch).tripped() == (old(kill_switch).tripped() || received_command(received)
            == Some(Command::Kill)),
{
    if kill_switch.is_dead() {
        return Dispatch::Exit(ActorExitStatus::Killed);
    }
    match received {
        Ok(CommandOrMessage::Command(command)) => process_command(command, ctx, kill_switch),
        Ok(CommandOrMessage::Message(message)) => Dispatch::Message(message),
        Err(RecvError::Disconnected) => Dispatch::Exit(ActorExitStatus::Success),
        Err(RecvError::Timeout) => {
            if mailbox.is_last_mailbox() {
                // No one will be able to send more messages.
                Dispatch::Exit(ActorExitStatus::Success)
            } else {
                Dispatch::Idle
            }
        },
    }
}

/// What a receive cycle leaves to be done, given the mailbox, the lifecycle
/// flag and the kill switch at its start.
pub open spec fn cycle_dispatch<M>(mailbox: MailboxView<M>, state: ActorState, dead: bool)
    -> Dispatch<M> {
    if dead {
        Dispatch::Exit(ActorExitStatus::Killed)
    } else {
        received_dispatch(
            mailbox.recv_result(state == ActorState::Running),
            false,
            mailbox.is_last_mailbox(),
        )
    }
}

/// The command that a receive cycle processes, if it processes one.
pub open spec fn cycle_command<M>(mailbox: MailboxView<M>, state: ActorState, dead: bool)
    -> Option<Command> {
    if dead {
        None
    } else {
        received_command(mailbox.recv_result(state == ActorState::Running))
    }
}

/// The mailbox after a receive cycle.
pub open spec fn cycle_mailbox<M>(mailbox: MailboxView<M>, state: ActorState, dead: bool)
    -> MailboxView<M> {
    if dead {
        mailbox
    } else {
        mailbox.recv(state == ActorState::Running)
    }
}

/// The lifecycle flag after a receive cycle.
pub open spec fn cycle_state<M>(mailbox: MailboxView<M>, state: ActorState, dead: bool)
    -> ActorState {
    match cycle_command(mailbox, state, dead) {
        Some(command) => state_after_command(state, command),
        None => state,
    }
}

/// The progress stamp after a receive cycle: two stamps further, one for each
/// side of the receive, unless the kill switch ended the cycle at once.
pub open spec fn cycle_stamp(stamp: u64, dead: bool) -> u64 {
    if dead {
        stamp
    } else {
        next_stamp(next_stamp(stamp))
    }
}

/// Runs one receive cycle.
///
/// A tripped kill switch decides `Killed` at once. Otherwise the progress
/// beacon is stamped, the mailbox is asked for its next item (messages only
/// while the actor is running), the beacon is stamped again, and the outcome
/// is dispatched.
pub fn process_msg<M>(
    mailbox: &mut Mailbox<M>,
    ctx: &mut ActorContext,
    kill_switch: &mut KillSwitch,
) -> (dispatch: Dispatch<M>)
    ensures
        dispatch == cycle_dispatch(
            old(mailbox)@,
            old(ctx).state(),
            old(kill_switch).tripped(),
        ),
        final(mailbox)@ == cycle_mailbox(
            old(mailbox)@,
            old(ctx).state(),
            old(kill_switch).tripped(),
        ),
        final(ctx).state() == cycle_state(
            old(mailbox)@,
            old(ctx).state(),
            old(kill_switch).tripped(),
        ),
        final(ctx).stamp() == cycle_stamp(old(ctx).stamp(), old(kill_switch).tripped()),
        final(kill_switch).tripped() == (old(kill_switch).tripped() || cycle_command(
            old(mailbox)@,
            old(ctx).state(),
            old(kill_switch).tripped(),
        ) == Some(Command::Kill)),
{
    if kill_switch.is_dead() {
        return Dispatch::Exit(ActorExitStatus::Killed);
    }
    ctx.record_progress();
    let received = mailbox.recv_timeout(ctx.get_state() == ActorState::Running);
    ctx.record_progress();
    dispatch(received, mailbox, ctx, kill_switch)
}

/// Where an actor stands in its lifecycle.
#[derive(Clone, Copy, Debug, PartialEq, Eq, Structural)]
pub enum Phase {
    /// `initialize` is to be called.
    Initializing,
    /// Between two iterations of the loop.
    Running,
    /// `process_message` is under way.
    Processing,
    /// The loop has ended; `finalize` is to be called.
    Finalizing,
    /// `finalize` has returned; the exit status is resolved.
    Finished,
}

/// What the driver does in answer to an iteration of the loop.
#[derive(Debug, PartialEq, Eq)]
pub enum Action<M> {
    /// Call `process_message` with the message, then report its result.
    ProcessMessage(M),
    /// Publish a fresh observable state, then iterate.
    Observe,
    /// Wait until the mailbox has news or a short timeout passes, then
    /// iterate.
    Idle,
    /// Iterate.
    Continue,
    /// The loop has ended with this status: call `finalize` with it, then
    /// report that it returned.
    Finalize(ActorExitStatus),
}

/// The state of an [`ActorLoop`].
pub struct LoopState {
    pub phase: Phase,
    /// The exit status, once it is decided.
    pub exit_status: Option<ActorExitStatus>,
}

impl LoopState {
    /// The loop of an actor that was just spawned.
    pub open spec fn start() -> LoopState {
        LoopState { phase: Phase::Initializing, exit_status: None }
    }

    /// The loop after `initialize` returned `result`: an error is the exit
    /// status, as if the actor had decided to end at once.
    pub open spec fn initialized(self, result: Result<(), ActorExitStatus>) -> LoopState {
        LoopState { phase: Phase::Running, exit_status: decided_by(result) }
    }

    /// The loop after an iteration whose receive cycle, if it ran one, left
    /// `dispatch`. A decided exit status ends the loop without a receive
    /// cycle; a status that the cycle decides ends it at the next iteration.
    pub open spec fn iterated<M>(self, dispatch: Dispatch<M>) -> LoopState {
        match self.exit_status {
            Some(_) => LoopState { phase: Phase::Finalizing, ..self },
            None => match dispatch {
                Dispatch::Exit(status) => LoopState { exit_status: Some(status), ..self },
                Dispatch::Message(_) => LoopState { phase: Phase::Processing, ..self },
                _ => self,
            },
        }
    }

    /// What the driver is to do after that iteration.
    pub open spec fn action<M>(self, dispatch: Dispatch<M>) -> Action<M> {
        match self.exit_status {
            Some(status) => Action::Finalize(status),
            None => match dispatch {
                Dispatch::Exit(_) => Action::Continue,
                Dispatch::Message(message) => Action::ProcessMessage(message),
                Dispatch::Observe => Action::Observe,
                Dispatch::Idle => Action::Idle,
                Dispatch::Continue => Action::Continue,
            },
        }
    }

    /// The loop after `process_message` returned `result`.
    pub open spec fn processed(self, result: Result<(), ActorExitStatus>) -> LoopState {
        LoopState { phase: Phase::Running, exit_status: decided_by(result) }
    }

    /// The loop after `finalize` returned.
    pub open spec fn finalized(self) -> LoopState {
        LoopState { phase: Phase::Finished, ..self }
    }

    /// What holds of every loop that its spawner started: the exit status
    /// is undecided before and during a handler, and decided once the loop
    /// has ended.
    pub open spec fn inv(self) -> bool {
        match self.phase {
            Phase::Initializing | Phase::Processing => self.exit_status is None,
            Phase::Running => true,
            Phase::Finalizing | Phase::Finished => self.exit_status is Some,
        }
    }
}

/// The lifecycle of one actor: which handler comes next, and the exit status
/// once it is decided.
#[derive(Debug)]
pub struct ActorLoop {
    phase: Phase,
    exit_status: Option<ActorExitStatus>,
}

impl View for ActorLoop {
    type V = LoopState;

    closed spec fn view(&self) -> LoopState {
        LoopState { phase: self.phase, exit_status: self.exit_status }
    }
}

impl ActorLoop {
    #[verifier::type_invariant]
    spec fn well_formed(&self) -> bool {
        self@.inv()
    }

    /// The loop of a new actor. Its driver calls `initialize` next.
    pub fn new() -> (actor_loop: Self)
        ensures
            actor_loop@ == LoopState::start(),
    {
        ActorLoop { phase: Phase::Initializing, exit_status: None }
    }

    /// Reports the result of `initialize`. The loop starts to iterate.
    pub fn initialized(&mut self, result: Result<(), ActorExitStatus>)
        requires
            old(self)@.phase == Phase::Initializing,
        ensures
            final(self)@ == old(self)@.initialized(result),
    {
        self.phase = Phase::Running;
        self.exit_status = result.err();
    }

    /// Runs one iteration of the loop, after the driver has yielded to the
    /// executor.
    ///
    /// If the exit status is decided, the loop ends: the context records the
    /// exit, which trips the kill switch if and only if the status is fatal,
    /// and the driver is told to finalize. Otherwise one receive cycle runs,
    /// and the driver is told what it left to do. [`System::iterated`] says
    /// the same of the four values together.
    pub fn iterate<M>(
        &mut self,
        mailbox: &mut Mailbox<M>,
        ctx: &mut ActorContext,
        kill_switch: &mut KillSwitch,
    ) -> (action: Action<M>)
        requires
            old(self)@.phase == Phase::Running,
        ensures
            ({
                let before = System {
                    mailbox: old(mailbox)@,
                    actor_state: old(ctx).state(),
                    dead: old(kill_switch).tripped(),
                    actor_loop: old(self)@,
                };
                let after = System {
                    mailbox: final(mailbox)@,
                    actor_state: final(ctx).state(),
                    dead: final(kill_switch).tripped(),
                    actor_loop: final(self)@,
                };
                &&& after == before.iterated()
                &&& action == before.action()
            }),
            final(ctx).stamp() == (if old(self)@.exit_status is Some {
                old(ctx).stamp()
            } else {
                cycle_stamp(old(ctx).stamp(), old(kill_switch).tripped())
            }),
    {
        if let Some(exit_status) = &self.exit_status {
            let exit_status = exit_status.clone();
            ctx.exit(&exit_status, kill_switch);
            self.phase = Phase::Finalizing;
            return Action::Finalize(exit_status);
        }
        match process_msg(mailbox, ctx, kill_switch) {
            Dispatch::Exit(exit_status) => {
                self.exit_status = Some(exit_status);
                Action::Continue
            },
            Dispatch::Message(message) => {
                self.phase = Phase::Processing;
                Action::ProcessMessage(message)
            },
            Dispatch::Observe => Action::Observe,
            Dispatch::Idle => Action::Idle,
            Dispatch::Continue => Action::Continue,
        }
    }

    /// Reports the result of `process_message`. An error is the exit status;
    /// the message that caused it has been consumed.
    pub fn processed(&mut self, result: Result<(), ActorExitStatus>)
        requires
            old(self)@.phase == Phase::Processing,
        ensures
            final(self)@ == old(self)@.processed(result),
    {
        self.phase = Phase::Running;
        self.exit_status = result.err();
    }

    /// Reports that `finalize` returned, and resolves the exit status. What
    /// `finalize` returned is for the log: an error of it changes nothing.
    /// The driver publishes the final observable state and resolves its task
    /// with the status returned here.
    pub fn finalized(&mut self, result: Result<(), String>) -> (exit_status: ActorExitStatus)
        requires
            old(self)@.phase == Phase::Finalizing,
        ensures
            final(self)@ == old(self)@.finalized(),
            Some(exit_status) == old(self)@.exit_status,
    {
        proof {
            use_type_invariant(&*self);
        }
        self.phase = Phase::Finished;
        match &self.exit_status {
            Some(exit_status) => exit_status.clone(),
            None => ActorExitStatus::Success,
        }
    }

    /// Where the actor stands. The state of a loop always meets
    /// [`LoopState::inv`].
    pub fn phase(&self) -> (phase: Phase)
        ensures
            phase == self@.phase,
            self@.inv(),
    {
        proof {
            use_type_invariant(self);
        }
        self.phase
    }

    /// The exit status, if it is decided.
    pub fn exit_status(&self) -> (exit_status: Option<ActorExitStatus>)
        ensures
            exit_status == self@.exit_status,
    {
        match &self.exit_status {
            Some(exit_status) => Some(exit_status.clone()),
            None => None,
        }
    }
}

/// Everything that the loop of a spawned actor starts from.
pub struct Spawned<M> {
    /// The actor's mailbox, addressed by two handles: the actor's own, which
    /// its context keeps, and the spawner's.
    pub mailbox: Mailbox<M>,
    pub ctx: ActorContext,
    pub actor_loop: ActorLoop,
}

/// Sets up an actor whose queue holds `queue_capacity` messages: an empty
/// mailbox, a running context and a loop that awaits `initialize`.
pub fn spawn_async_actor<M>(queue_capacity: usize) -> (spawned: Spawned<M>)
    requires
        queue_capacity > 0,
    ensures
        spawned.mailbox@ == MailboxView::<M>::empty(queue_capacity as nat).clone_handle(),
        spawned.mailbox@.wf(),
        spawned.ctx.state() == ActorState::Running,
        spawned.ctx.stamp() == 0,
        spawned.actor_loop@ == LoopState::start(),
{
    let mut mailbox = create_mailbox(queue_capacity);
    mailbox.clone_handle();
    Spawned { mailbox, ctx: ActorContext::new(), actor_loop: ActorLoop::new() }
}

} // verus!

//! The mailbox: a bounded queue with a priority lane for commands.
//!
//! The queue is a plain value. A driver shares it between the senders and the
//! actor loop and turns its answers into waiting: a `Full` send suspends the
//! sender, a `Timeout` lets the loop look at the kill switch again.

use std::collections::VecDeque;
use vstd::prelude::*;
use crate::actor::Command;
use crate::actor::CommandOrMessage;
use crate::actor::RecvError;
use crate::actor::SendError;

verus! {

/// What a [`Mailbox`] holds.
#[verifier::ext_equal]
pub struct MailboxView<M> {
    /// The commands that wait, oldest first.
    pub commands: Seq<Command>,
    /// The messages that wait, oldest first.
    pub messages: Seq<M>,
    /// How many messages may wait.
    pub capacity: nat,
    /// How many send-side handles are outstanding.
    pub handles: nat,
    /// Whether the receive side is still there.
    pub inbox_alive: bool,
}

impl<M> MailboxView<M> {
    /// The message lane respects the capacity, which is positive.
    pub open spec fn wf(self) -> bool {
        &&& self.capacity > 0
        &&& self.messages.len() <= self.capacity
    }

    /// An empty mailbox with one send-side handle.
    pub open spec fn empty(capacity: nat) -> Self {
        MailboxView {
            commands: Seq::empty(),
            messages: Seq::empty(),
            capacity,
            handles: 1,
            inbox_alive: true,
        }
    }

    /// Whether a message that is sent now is enqueued.
    pub open spec fn accepts_message(self) -> bool {
        self.inbox_alive && self.messages.len() < self.capacity
    }

    /// The answer to a send of `message`.
    pub open spec fn send_result(self, message: M) -> Result<(), SendError<M>> {
        if !self.inbox_alive {
            Err(SendError::Disconnected(message))
        } else if self.messages.len() >= self.capacity {
            Err(SendError::Full(message))
        } else {
            Ok(())
        }
    }

    /// The mailbox after a send of `message`: the message joins the back of
    /// its lane if it is accepted.
    pub open spec fn send(self, message: M) -> Self {
        if self.accepts_message() {
            MailboxView { messages: self.messages.push(message), ..self }
        } else {
            self
        }
    }

    /// The mailbox after a send of `command`: the command joins the back of
    /// the priority lane unless the inbox is gone.
    pub open spec fn send_command(self, command: Command) -> Self {
        if self.inbox_alive {
            MailboxView { commands: self.commands.push(command), ..self }
        } else {
            self
        }
    }

    /// What a receive hands out: the oldest command if one waits; else, if
    /// messages are enabled, the oldest message; else nothing, for good if no
    /// send-side handle is left, and for now otherwise.
    pub open spec fn recv_result(self, message_enabled: bool) -> Result<
        CommandOrMessage<M>,
        RecvError,
    > {
        if self.commands.len() > 0 {
            Ok(CommandOrMessage::Command(self.commands[0]))
        } else if message_enabled && self.messages.len() > 0 {
            Ok(CommandOrMessage::Message(self.messages[0]))
        } else if self.handles == 0 {
            Err(RecvError::Disconnected)
        } else {
            Err(RecvError::Timeout)
        }
    }

    /// The mailbox after a receive: what was handed out has left its lane.
    pub open spec fn recv(self, message_enabled: bool) -> Self {
        if self.commands.len() > 0 {
            MailboxView { commands: self.commands.drop_first(), ..self }
        } else if message_enabled && self.messages.len() > 0 {
            MailboxView { messages: self.messages.drop_first(), ..self }
        } else {
            self
        }
    }

    /// Whether exactly one send-side handle is outstanding.
    pub open spec fn is_last_mailbox(self) -> bool {
        self.handles == 1
    }

    pub open spec fn clone_handle(self) -> Self {
        MailboxView { handles: self.handles + 1, ..self }
    }

    pub open spec fn drop_handle(self) -> Self {
        MailboxView { handles: (self.handles - 1) as nat, ..self }
    }

    /// The mailbox after its receive side went away: what waited is lost.
    pub open spec fn drop_inbox(self) -> Self {
        MailboxView {
            commands: Seq::empty(),
            messages: Seq::empty(),
            inbox_alive: false,
            ..self
        }
    }
}

/// A bounded queue of messages with a priority lane of commands, and the
/// count of the send-side handles that address it.
#[derive(Debug)]
pub struct Mailbox<M> {
    commands: VecDeque<Command>,
    messages: VecDeque<M>,
    capacity: usize,
    handles: usize,
    inbox_alive: bool,
}

impl<M> View for Mailbox<M> {
    type V = MailboxView<M>;

    closed spec fn view(&self) -> MailboxView<M> {
        MailboxView {
            commands: self.commands@,
            messages: self.messages@,
            capacity: self.capacity as nat,
            handles: self.handles as nat,
            inbox_alive: self.inbox_alive,
        }
    }
}

/// Creates the mailbox of an actor whose queue holds `capacity` messages. One
/// send-side handle addresses it.
pub fn create_mailbox<M>(capacity: usize) -> (mailbox: Mailbox<M>)
    requires
        capacity > 0,
    ensures
        mailbox@ == MailboxView::<M>::empty(capacity as nat),
        mailbox@.wf(),
{
    Mailbox {
        commands: VecDeque::new(),
        messages: VecDeque::new(),
        capacity,
        handles: 1,
        inbox_alive: true,
    }
}

impl<M> Mailbox<M> {
    /// Enqueues a message. A full mailbox hands the message back as `Full`:
    /// the sender suspends until a slot frees. A mailbox whose inbox is gone
    /// hands it back as `Disconnected`.
    pub fn send(&mut self, message: M) -> (sent: Result<(), SendError<M>>)
        ensures
            sent == old(self)@.send_result(message),
            final(self)@ == old(self)@.send(message),
            old(self)@.wf() ==> final(self)@.wf(),
    {
        if !self.inbox_alive {
            return Err(SendError::Disconnected(message));
        }
        if self.messages.len() >= self.capacity {
            return Err(SendError::Full(message));
        }
        self.messages.push_back(message);
        Ok(())
    }

    /// Enqueues a command on the priority lane, which has no bound.
    pub fn send_command(&mut self, command: Command) -> (sent: Result<(), SendError<Command>>)
        ensures
            sent == (if old(self)@.inbox_alive {
                Ok::<(), SendError<Command>>(())
            } else {
                Err::<(), SendError<Command>>(SendError::Disconnected(command))
            }),
            final(self)@ == old(self)@.send_command(command),
            old(self)@.wf() ==> final(self)@.wf(),
    {
        if !self.inbox_alive {
            return Err(SendError::Disconnected(command));
        }
        self.commands.push_back(command);
        Ok(())
    }

    /// Receives the next item without waiting. `Timeout` says that nothing
    /// deliverable waits now; a later receive may find something.
    pub fn recv_timeout(&mut self, message_enabled: bool) -> (received: Result<
        CommandOrMessage<M>,
        RecvError,
    >)
        ensures
            received == old(self)@.recv_result(message_enabled),
            final(self)@ == old(self)@.recv(message_enabled),
            old(self)@.wf() ==> final(self)@.wf(),
    {
        if let Some(command) = self.commands.pop_front() {
            return Ok(CommandOrMessage::Command(command));
        }
        if message_enabled {
            if let Some(message) = self.messages.pop_front() {
                return Ok(CommandOrMessage::Message(message));
            }
        }
        if self.handles == 0 {
            Err(RecvError::Disconnected)
        } else {
            Err(RecvError::Timeout)
        }
    }

    /// Whether the caller's send-side handle is the only one left.
    pub fn is_last_mailbox(&self) -> (last: bool)
        ensures
            last == self@.is_last_mailbox(),
    {
        self.handles == 1
    }

    /// Accounts for a new send-side handle.
    pub fn clone_handle(&mut self)
        requires
            old(self)@.handles < usize::MAX,
        ensures
            final(self)@ == old(self)@.clone_handle(),
            old(self)@.wf() ==> final(self)@.wf(),
    {
        self.handles = self.handles + 1;
    }

    /// Accounts for a send-side handle that went away.
    pub fn drop_handle(&mut self)
        requires
            old(self)@.handles > 0,
        ensures
            final(self)@ == old(self)@.drop_handle(),
            old(self)@.wf() ==> final(self)@.wf(),
    {
        self.handles = self.handles - 1;
    }

    /// Accounts for the receive side going away. What waited is dropped, and
    /// later sends are refused as `Disconnected`.
    pub fn drop_inbox(&mut self)
        ensures
            final(self)@ == old(self)@.drop_inbox(),
            old(self)@.wf() ==> final(self)@.wf(),
    {
        self.commands.clear();
        self.messages.clear();
        self.inbox_alive = false;
    }

    pub fn capacity(&self) -> (capacity: usize)
        ensures
            capacity == self@.capacity,
    {
        self.capacity
    }

    /// How many messages wait.
    pub fn len(&self) -> (len: usize)
        ensures
            len == self@.messages.len(),
    {
        self.messages.len()
    }

    /// How many commands wait.
    pub fn pending_commands(&self) -> (len: usize)
        ensures
            len == self@.commands.len(),
    {
        self.commands.len()
    }

    /// How many send-side handles are outstanding.
    pub fn handles(&self) -> (handles: usize)
        ensures
            handles == self@.handles,
    {
        self.handles
    }
}

/// One operation on a mailbox, as a history records it.
pub enum MailboxOp<M> {
    Send(M),
    SendCommand(Command),
    Recv { message_enabled: bool },
    CloneHandle,
    DropHandle,
}

impl<M> MailboxView<M> {
    /// The mailbox after `op`.
    pub open spec fn apply(self, op: MailboxOp<M>) -> Self {
        match op {
            MailboxOp::Send(message) => self.send(message),
            MailboxOp::SendCommand(command) => self.send_command(command),
            MailboxOp::Recv { message_enabled } => self.recv(message_enabled),
            MailboxOp::CloneHandle => self.clone_handle(),
            MailboxOp::DropHandle => self.drop_handle(),
        }
    }

    /// The mailbox after the operations of `ops`, in order.
    pub open spec fn apply_all(self, ops: Seq<MailboxOp<M>>) -> Self
        decreases ops.len(),
    {
        if ops.len() == 0 {
            self
        } else {
            self.apply_all(ops.drop_last()).apply(ops.last())
        }
    }

    /// The messages that the sends of `ops` enqueued, in order.
    pub open spec fn accepted_messages(self, ops: Seq<MailboxOp<M>>) -> Seq<M>
        decreases ops.len(),
    {
        if ops.len() == 0 {
            Seq::empty()
        } else {
            let earlier = self.accepted_messages(ops.drop_last());
            let now = self.apply_all(ops.drop_last());
            match ops.last() {
                MailboxOp::Send(message) if now.accepts_message() => earlier.push(message),
                _ => earlier,
            }
        }
    }

    /// The commands that the sends of `ops` enqueued, in order.
    pub open spec fn accepted_commands(self, ops: Seq<MailboxOp<M>>) -> Seq<Command>
        decreases ops.len(),
    {
        if ops.len() == 0 {
            Seq::empty()
        } else {
            let earlier = self.accepted_commands(ops.drop_last());
            let now = self.apply_all(ops.drop_last());
            match ops.last() {
                MailboxOp::SendCommand(command) if now.inbox_alive => earlier.push(command),
                _ => earlier,
            }
        }
    }

    /// The messages that the receives of `ops` handed out, in order.
    pub open spec fn delivered_messages(self, ops: Seq<MailboxOp<M>>) -> Seq<M>
        decreases ops.len(),
    {
        if ops.len() == 0 {
            Seq::empty()
        } else {
            let earlier = self.delivered_messages(ops.drop_last());
            let now = self.apply_all(ops.drop_last());
            match ops.last() {
                MailboxOp::Recv { message_enabled } => match now.recv_result(message_enabled) {
                    Ok(CommandOrMessage::Message(message)) => earlier.push(message),
                    _ => earlier,
                },
                _ => earlier,
            }
        }
    }

    /// The commands that the receives of `ops` handed out, in order.
    pub open spec fn delivered_commands(self, ops: Seq<MailboxOp<M>>) -> Seq<Command>
        decreases ops.len(),
    {
        if ops.len() == 0 {
            Seq::empty()
        } else {
            let earlier = self.delivered_commands(ops.drop_last());
            let now = self.apply_all(ops.drop_last());
            match ops.last() {
                MailboxOp::Recv { message_enabled } => match now.recv_result(message_enabled) {
                    Ok(CommandOrMessage::Command(command)) => earlier.push(command),
                    _ => earlier,
                },
                _ => earlier,
            }
        }
    }
}

/// No history overfills a mailbox: the capacity bounds what waits.
pub proof fn law_capacity_is_respected<M>(mailbox: MailboxView<M>, ops: Seq<MailboxOp<M>>)
    requires
        mailbox.wf(),
    ensures
        mailbox.apply_all(ops).wf(),
        mailbox.apply_all(ops).capacity == mailbox.capacity,
    decreases ops.len(),
{
    if ops.len() > 0 {
        law_capacity_is_respected(mailbox, ops.drop_last());
    }
}

/// A send into a mailbox that holds as many messages as its capacity allows
/// is refused as `Full` and leaves the mailbox alone; once a receive has
/// taken a message out, the same send is accepted.
pub proof fn law_full_mailbox_suspends_sender<M>(mailbox: MailboxView<M>, message: M)
    requires
        mailbox.wf(),
        mailbox.inbox_alive,
        mailbox.messages.len() == mailbox.capacity,
    ensures
        mailbox.send_result(message) == Err::<(), SendError<M>>(SendError::Full(message)),
        mailbox.send(message) == mailbox,
        mailbox.commands.len() == 0 ==> mailbox.recv(true).send_result(message) == Ok::<
            (),
            SendError<M>,
        >(()),
{
}

/// The sends of `messages`, one after the other.
pub open spec fn sends<M>(messages: Seq<M>) -> Seq<MailboxOp<M>> {
    Seq::new(messages.len(), |i: int| MailboxOp::Send(messages[i]))
}

/// An empty mailbox of capacity N takes N messages in a row, and refuses the
/// next as `Full`.
pub proof fn law_capacity_counts_sends<M>(capacity: nat, messages: Seq<M>, next: M)
    requires
        capacity > 0,
        messages.len() <= capacity,
    ensures
        MailboxView::<M>::empty(capacity).apply_all(sends(messages)).messages == messages,
        messages.len() < capacity ==> MailboxView::<M>::empty(capacity).apply_all(
            sends(messages),
        ).send_result(next) == Ok::<(), SendError<M>>(()),
        messages.len() == capacity ==> MailboxView::<M>::empty(capacity).apply_all(
            sends(messages),
        ).send_result(next) == Err::<(), SendError<M>>(SendError::Full(next)),
    decreases messages.len(),
{
    let start = MailboxView::<M>::empty(capacity);
    if messages.len() > 0 {
        law_capacity_counts_sends(capacity, messages.drop_last(), next);
        assert(sends(messages).drop_last() == sends(messages.drop_last()));
        lemma_sends_keep_the_rest(start, messages.drop_last());
    }
    lemma_sends_keep_the_rest(start, messages);
}

proof fn lemma_sends_keep_the_rest<M>(mailbox: MailboxView<M>, messages: Seq<M>)
    ensures
        mailbox.apply_all(sends(messages)).capacity == mailbox.capacity,
        mailbox.apply_all(sends(messages)).inbox_alive == mailbox.inbox_alive,
        mailbox.apply_all(sends(messages)).commands == mailbox.commands,
        mailbox.apply_all(sends(messages)).handles == mailbox.handles,
    decreases messages.len(),
{
    if messages.len() > 0 {
        lemma_sends_keep_the_rest(mailbox, messages.drop_last());
        assert(sends(messages).drop_last() == sends(messages.drop_last()));
    }
}

/// Messages leave a mailbox in the order in which they entered it, none is
/// lost and none is made up: in every history, what waited at the start and
/// what was enqueued since is what was handed out, followed by what waits.
pub proof fn law_messages_are_delivered_in_order<M>(
    mailbox: MailboxView<M>,
    ops: Seq<MailboxOp<M>>,
)
    ensures
        mailbox.messages + mailbox.accepted_messages(ops) == mailbox.delivered_messages(ops)
            + mailbox.apply_all(ops).messages,
    decreases ops.len(),
{
    if ops.len() > 0 {
        law_messages_are_delivered_in_order(mailbox, ops.drop_last());
        let now = mailbox.apply_all(ops.drop_last());
        let handed_out = mailbox.delivered_messages(ops.drop_last());
        if let MailboxOp::Send(message) = ops.last() {
            // What joins the back of the lane joins the back of the whole.
            assert(handed_out + now.messages.push(message) == (handed_out + now.messages).push(
                message,
            ));
        }
    }
}

/// Commands leave a mailbox in the order in which they entered it.
pub proof fn law_commands_are_delivered_in_order<M>(
    mailbox: MailboxView<M>,
    ops: Seq<MailboxOp<M>>,
)
    ensures
        mailbox.commands + mailbox.accepted_commands(ops) == mailbox.delivered_commands(ops)
            + mailbox.apply_all(ops).commands,
    decreases ops.len(),
{
    if ops.len() > 0 {
        law_commands_are_delivered_in_order(mailbox, ops.drop_last());
        let now = mailbox.apply_all(ops.drop_last());
        let handed_out = mailbox.delivered_commands(ops.drop_last());
        if let MailboxOp::SendCommand(command) = ops.last() {
            // What joins the back of the lane joins the back of the whole.
            assert(handed_out + now.commands.push(command) == (handed_out + now.commands).push(
                command,
            ));
        }
    }
}

/// Commands overtake messages: whenever a receive hands out a message, every
/// command that was enqueued before that receive has been handed out already.
pub proof fn law_commands_overtake_messages<M>(
    mailbox: MailboxView<M>,
    ops: Seq<MailboxOp<M>>,
    message_enabled: bool,
)
    requires
        mailbox.apply_all(ops).recv_result(message_enabled) matches Ok(
            CommandOrMessage::Message(_),
        ),
    ensures
        mailbox.delivered_commands(ops) == mailbox.commands + mailbox.accepted_commands(ops),
{
    law_commands_are_delivered_in_order(mailbox, ops);
}

} // verus!

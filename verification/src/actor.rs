//! The vocabulary shared by the mailbox, the context and the actor loop.

use vstd::prelude::*;

verus! {

/// The lifecycle flag stored in an actor's context.
#[derive(Clone, Copy, Debug, PartialEq, Eq, Structural)]
pub enum ActorState {
    /// Commands and messages are both delivered.
    Running,
    /// Only commands are delivered; messages stay queued.
    Paused,
    /// The loop has ended.
    Exit,
}

/// A control directive, delivered on the priority lane of a mailbox.
#[derive(Clone, Copy, Debug, PartialEq, Eq, Structural)]
pub enum Command {
    Pause,
    Resume,
    Observe,
    Quit,
    Kill,
}

/// An item carried by a mailbox.
#[derive(Debug, PartialEq, Eq)]
pub enum CommandOrMessage<M> {
    Command(Command),
    Message(M),
}

/// Why a timed receive handed out no item.
#[derive(Clone, Copy, Debug, PartialEq, Eq, Structural)]
pub enum RecvError {
    /// Nothing deliverable arrived in time.
    Timeout,
    /// Every send-side handle is gone and nothing deliverable is left.
    Disconnected,
}

/// Why a mailbox did not take an item. The item is handed back.
#[derive(Debug, PartialEq, Eq)]
pub enum SendError<T> {
    /// The message lane is at capacity: the sender suspends until a slot frees.
    Full(T),
    /// The inbox is gone.
    Disconnected(T),
}

/// The terminal outcome of an actor.
#[derive(Debug, PartialEq, Eq)]
pub enum ActorExitStatus {
    /// Natural completion: the mailbox was disconnected, or no sender is left.
    Success,
    /// A quit command was processed.
    Quit,
    /// The kill switch was seen tripped.
    Killed,
    /// `initialize` or `process_message` reported a fatal error.
    Failure(String),
    /// The actor's task panicked.
    Panicked,
}

impl Clone for ActorExitStatus {
    fn clone(&self) -> (copy: Self)
        ensures
            copy == *self,
    {
        match self {
            ActorExitStatus::Success => ActorExitStatus::Success,
            ActorExitStatus::Quit => ActorExitStatus::Quit,
            ActorExitStatus::Killed => ActorExitStatus::Killed,
            ActorExitStatus::Failure(error) => ActorExitStatus::Failure(error.clone()),
            ActorExitStatus::Panicked => ActorExitStatus::Panicked,
        }
    }
}

impl ActorExitStatus {
    /// Whether an exit with this status trips the kill switch: a failure and
    /// a panic do, the other three do not.
    pub open spec fn fatal(&self) -> bool {
        *self is Failure || *self is Panicked
    }

    /// The status of an actor whose handler reported `error`.
    pub fn failure(error: String) -> (status: Self)
        ensures
            status == ActorExitStatus::Failure(error),
    {
        ActorExitStatus::Failure(error)
    }

    #[verifier::when_used_as_spec(fatal)]
    pub fn is_fatal(&self) -> (fatal: bool)
        ensures
            fatal == self.fatal(),
    {
        match self {
            ActorExitStatus::Failure(_) => true,
            ActorExitStatus::Panicked => true,
            _ => false,
        }
    }

    pub fn is_success(&self) -> (success: bool)
        ensures
            success == (*self is Success),
    {
        match self {
            ActorExitStatus::Success => true,
            _ => false,
        }
    }
}

/// The exit status that a handler's result decides: its error, if it has one.
pub open spec fn decided_by(result: Result<(), ActorExitStatus>) -> Option<ActorExitStatus> {
    match result {
        Ok(_) => None,
        Err(status) => Some(status),
    }
}

} // verus!

//! The per-actor ambient state that the loop and the handlers share.

use vstd::prelude::*;
use crate::actor::ActorExitStatus;
use crate::actor::ActorState;
use crate::kill_switch::KillSwitch;
use crate::progress::next_stamp;
use crate::progress::Progress;

verus! {

/// The state that pausing leaves: a running actor pauses, any other stays.
pub open spec fn paused(state: ActorState) -> ActorState {
    if state == ActorState::Running {
        ActorState::Paused
    } else {
        state
    }
}

/// The state that resuming leaves: a paused actor runs, any other stays.
pub open spec fn resumed(state: ActorState) -> ActorState {
    if state == ActorState::Paused {
        ActorState::Running
    } else {
        state
    }
}

/// An actor's lifecycle flag and its progress beacon.
#[derive(Debug)]
pub struct ActorContext {
    state: ActorState,
    progress: Progress,
}

impl ActorContext {
    /// The lifecycle flag.
    pub closed spec fn state(&self) -> ActorState {
        self.state
    }

    /// The stamp of the progress beacon.
    pub closed spec fn stamp(&self) -> u64 {
        self.progress.stamp()
    }

    /// The context of an actor that starts: running, with a fresh beacon.
    pub fn new() -> (ctx: Self)
        ensures
            ctx.state() == ActorState::Running,
            ctx.stamp() == 0,
    {
        ActorContext { state: ActorState::Running, progress: Progress::new() }
    }

    pub fn get_state(&self) -> (state: ActorState)
        ensures
            state == self.state(),
    {
        self.state
    }

    pub fn set_state(&mut self, state: ActorState)
        ensures
            final(self).state() == state,
            final(self).stamp() == old(self).stamp(),
    {
        self.state = state;
    }

    /// The progress beacon, for a supervisor to read.
    pub fn progress(&self) -> (progress: &Progress)
        ensures
            progress.stamp() == self.stamp(),
    {
        &self.progress
    }

    /// Stamps the progress beacon.
    pub fn record_progress(&mut self)
        ensures
            final(self).state() == old(self).state(),
            final(self).stamp() == next_stamp(old(self).stamp()),
    {
        self.progress.record_progress();
    }

    /// Pauses a running actor.
    pub fn pause(&mut self)
        ensures
            final(self).state() == paused(old(self).state()),
            final(self).stamp() == old(self).stamp(),
    {
        if self.state == ActorState::Running {
            self.state = ActorState::Paused;
        }
    }

    /// Resumes a paused actor.
    pub fn resume(&mut self)
        ensures
            final(self).state() == resumed(old(self).state()),
            final(self).stamp() == old(self).stamp(),
    {
        if self.state == ActorState::Paused {
            self.state = ActorState::Running;
        }
    }

    /// Records the end of the loop: the state becomes `Exit`, and the kill
    /// switch is tripped if and only if the status is fatal. A switch that was
    /// tripped before stays so.
    pub fn exit(&mut self, exit_status: &ActorExitStatus, kill_switch: &mut KillSwitch)
        ensures
            final(self).state() == ActorState::Exit,
            final(self).stamp() == old(self).stamp(),
            final(kill_switch).tripped() == (old(kill_switch).tripped() || exit_status.fatal()),
    {
        self.state = ActorState::Exit;
        if exit_status.is_fatal() {
            kill_switch.kill();
        }
    }
}

impl Default for ActorContext {
    fn default() -> (ctx: Self)
        ensures
            ctx.state() == ActorState::Running,
            ctx.stamp() == 0,
    {
        ActorContext::new()
    }
}

} // verus!

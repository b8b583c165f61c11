//! The kill switch: a one-shot flag that ends every actor that observes it.

use vstd::prelude::*;

verus! {

/// A monotonic one-shot flag. Once tripped, it never untrips: no operation
/// of this type clears it.
#[derive(Debug)]
pub struct KillSwitch {
    dead: bool,
}

impl KillSwitch {
    /// Whether the switch has been tripped.
    pub closed spec fn tripped(&self) -> bool {
        self.dead
    }

    /// A switch that has not been tripped.
    pub fn new() -> (switch: Self)
        ensures
            !switch.tripped(),
    {
        KillSwitch { dead: false }
    }

    /// The switch after a kill: tripped.
    pub closed spec fn killed(&self) -> KillSwitch {
        KillSwitch { dead: true }
    }

    /// Trips the switch.
    pub fn kill(&mut self)
        ensures
            *final(self) == old(self).killed(),
            final(self).tripped(),
    {
        self.dead = true;
    }

    pub fn is_dead(&self) -> (dead: bool)
        ensures
            dead == self.tripped(),
    {
        self.dead
    }

    pub fn is_alive(&self) -> (alive: bool)
        ensures
            alive == !self.tripped(),
    {
        !self.dead
    }
}

impl Default for KillSwitch {
    fn default() -> (switch: Self)
        ensures
            !switch.tripped(),
    {
        KillSwitch::new()
    }
}

/// A kill trips the switch, and a second kill changes nothing: however often
/// the switch is killed, it is in the state that the first kill left.
pub proof fn law_kill_is_idempotent(switch: KillSwitch)
    ensures
        switch.killed().tripped(),
        switch.killed().killed() == switch.killed(),
        switch.tripped() ==> switch.killed() == switch,
{
}

} // verus!

//! The countdown that spaces gathers apart.
use vstd::prelude::*;

verus! {

/// A countdown of `duration` time units, of which `remaining` are left. It is
/// finished when nothing remains.
#[derive(Clone, Copy, Debug, PartialEq, Eq, Structural)]
pub struct Cooldown {
    pub duration: u64,
    pub remaining: u64,
}

impl Cooldown {
    /// What is left never exceeds the full duration.
    pub open spec fn wf(self) -> bool {
        self.remaining <= self.duration
    }

    pub open spec fn is_finished(self) -> bool {
        self.remaining == 0
    }

    /// The countdown after `dt` more time units have passed; it stops at zero.
    pub open spec fn ticked(self, dt: u64) -> Cooldown {
        Cooldown {
            remaining: if self.remaining <= dt { 0 } else { (self.remaining - dt) as u64 },
            ..self
        }
    }

    /// The countdown started over at its full duration.
    pub open spec fn restarted(self) -> Cooldown {
        Cooldown { remaining: self.duration, ..self }
    }

    /// A countdown of `duration` that has already run out, so that the first
    /// gather need not wait.
    pub fn new(duration: u64) -> (r: Cooldown)
        ensures
            r.wf(),
            r.duration == duration,
            r.is_finished(),
    {
        Cooldown { duration, remaining: 0 }
    }

    pub fn finished(&self) -> (r: bool)
        ensures
            r == self.is_finished(),
    {
        self.remaining == 0
    }

    /// Lets `dt` time units pass.
    pub fn tick(&mut self, dt: u64)
        requires
            old(self).wf(),
        ensures
            *final(self) == old(self).ticked(dt),
            final(self).wf(),
    {
        self.remaining = self.remaining.saturating_sub(dt);
    }

    /// Starts the countdown over.
    pub fn reset(&mut self)
        requires
            old(self).wf(),
        ensures
            *final(self) == old(self).restarted(),
            final(self).wf(),
    {
        self.remaining = self.duration;
    }
}

} // verus!

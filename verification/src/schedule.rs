//! The driving schedule of the deterministic contract: `initGame` once, then a fixed
//! number of input-free `tickGame` calls, then the frame is captured.

use vstd::prelude::*;

verus! {

/// What the driver does next.
#[derive(Clone, Copy, Debug, PartialEq, Eq)]
pub enum DriveStep {
    /// Call the module's `initGame` export.
    InitGame,
    /// Call the module's `tickGame` export, with no key events.
    TickGame,
    /// Stop driving and capture the last frame `drawFrame` delivered.
    Capture,
}

/// The step taken at position `k` (from zero) of a schedule of `ticks` ticks.
pub open spec fn step_at(ticks: nat, k: nat) -> DriveStep {
    if k == 0 {
        DriveStep::InitGame
    } else if k <= ticks {
        DriveStep::TickGame
    } else {
        DriveStep::Capture
    }
}

/// How many of the first `k` steps of a schedule of `ticks` ticks are ticks.
pub open spec fn ticks_among(ticks: nat, k: nat) -> nat
    decreases k,
{
    if k == 0 {
        0
    } else {
        ticks_among(ticks, (k - 1) as nat) + if step_at(ticks, (k - 1) as nat)
            == DriveStep::TickGame {
            1nat
        } else {
            0nat
        }
    }
}

/// The model of a schedule: its tick count and how many steps it has handed out.
pub struct ScheduleModel {
    pub ticks: nat,
    pub taken: nat,
}

/// Hands out the driving steps in order.
pub struct DriveSchedule {
    ticks: u32,
    started: bool,
    ticks_done: u32,
    taken: Ghost<nat>,
}

impl View for DriveSchedule {
    type V = ScheduleModel;

    closed spec fn view(&self) -> ScheduleModel {
        ScheduleModel { ticks: self.ticks as nat, taken: self.taken@ }
    }
}

impl DriveSchedule {
    #[verifier::type_invariant]
    spec fn well_formed(self) -> bool {
        &&& self.ticks_done <= self.ticks
        &&& self.started == (self.taken@ > 0)
        &&& self.taken@ > 0 ==> (self.ticks_done == if self.taken@ - 1 <= self.ticks {
            (self.taken@ - 1) as nat
        } else {
            self.ticks as nat
        })
    }

    /// A schedule of `ticks` input-free ticks that has handed out no step yet.
    pub fn new(ticks: u32) -> (s: DriveSchedule)
        ensures
            s@.ticks == ticks,
            s@.taken == 0,
    {
        DriveSchedule { ticks, started: false, ticks_done: 0, taken: Ghost(0) }
    }

    /// The next step: `initGame` first, then the ticks, then the capture from then on.
    pub fn next(&mut self) -> (step: DriveStep)
        ensures
            step == step_at(old(self)@.ticks, old(self)@.taken),
            old(self)@.taken == 0 ==> step == DriveStep::InitGame,
            1 <= old(self)@.taken <= old(self)@.ticks ==> step == DriveStep::TickGame,
            old(self)@.taken > old(self)@.ticks ==> step == DriveStep::Capture,
            final(self)@.ticks == old(self)@.ticks,
            final(self)@.taken == old(self)@.taken + 1,
    {
        proof {
            use_type_invariant(&*self);
        }
        let ghost taken = self.taken@;
        if !self.started {
            *self = DriveSchedule {
                ticks: self.ticks,
                started: true,
                ticks_done: 0,
                taken: Ghost(taken + 1),
            };
            DriveStep::InitGame
        } else if self.ticks_done < self.ticks {
            *self = DriveSchedule {
                ticks: self.ticks,
                started: true,
                ticks_done: self.ticks_done + 1,
                taken: Ghost(taken + 1),
            };
            DriveStep::TickGame
        } else {
            *self = DriveSchedule {
                ticks: self.ticks,
                started: true,
                ticks_done: self.ticks_done,
                taken: Ghost(taken + 1),
            };
            DriveStep::Capture
        }
    }
}

/// A schedule calls `initGame` exactly once, first, and then ticks exactly its tick
/// count before it captures: among its first `k` steps there are `min(k - 1, ticks)` ticks.
pub proof fn law_ticks_exactly_the_count(ticks: nat, k: nat)
    ensures
        step_at(ticks, 0) == DriveStep::InitGame,
        k > 0 ==> step_at(ticks, k) != DriveStep::InitGame,
        ticks_among(ticks, k) == if k == 0 {
            0
        } else if k - 1 <= ticks {
            (k - 1) as nat
        } else {
            ticks
        },
    decreases k,
{
    if k > 0 {
        law_ticks_exactly_the_count(ticks, (k - 1) as nat);
    }
}

} // verus!

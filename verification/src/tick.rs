//! The authoritative discrete simulation clock.
//!
//! Ticks advance by exactly one per fixed-duration simulation step; a
//! fixed-step accumulator turns variable frame time into whole steps so
//! that the cadence is independent of the render rate. While a rollback
//! replay is in progress, systems that ask "what tick am I simulating"
//! are answered with the replay cursor instead of the live tick.

use vstd::prelude::*;
use crate::rollback::RollbackState;

verus! {

/// Maintains the current tick. This component never fails, only
/// advances.
#[derive(Clone, Copy, Debug, PartialEq, Eq, Structural)]
pub struct TickManager {
    pub current: u64,
}

impl TickManager {
    pub fn new() -> (r: Self)
        ensures
            r.current == 0,
    {
        TickManager { current: 0 }
    }

    /// The current authoritative tick.
    pub fn tick(&self) -> (r: u64)
        ensures
            r == self.current,
    {
        self.current
    }

    /// Called exactly once per fixed-duration simulation step.
    pub fn advance(&mut self)
        requires
            old(self).current < u64::MAX,
        ensures
            final(self).current == old(self).current + 1,
    {
        self.current = self.current + 1;
    }

    /// The tick a simulation system should consider itself to be
    /// running at: the replay cursor while a rollback replay is in
    /// progress, the live tick otherwise.
    pub fn tick_or_rollback_tick(&self, rollback: &RollbackState) -> (r: u64)
        ensures
            r == tick_in_context(self.current, *rollback),
    {
        match rollback {
            RollbackState::Replaying { cursor } => *cursor,
            RollbackState::Live => self.current,
        }
    }
}

/// The tick visible to a system under the given rollback state.
pub open spec fn tick_in_context(live: u64, rollback: RollbackState) -> u64 {
    match rollback {
        RollbackState::Replaying { cursor } => cursor,
        RollbackState::Live => live,
    }
}

/// Turns irregular elapsed wall time into a whole number of fixed
/// simulation steps, carrying the remainder so that no fraction of a
/// step is ever lost or duplicated.
#[derive(Clone, Copy, Debug, PartialEq, Eq, Structural)]
pub struct FixedStepAccumulator {
    /// Length of one simulation step, in microseconds. Always positive.
    pub step_micros: u64,
    /// Wall time carried over from earlier frames, always less than one
    /// step.
    pub accumulated_micros: u64,
}

impl FixedStepAccumulator {
    pub open spec fn wf(self) -> bool {
        self.step_micros > 0 && self.accumulated_micros < self.step_micros
    }

    pub fn new(step_micros: u64) -> (r: Self)
        requires
            step_micros > 0,
        ensures
            r.wf(),
            r.step_micros == step_micros,
            r.accumulated_micros == 0,
    {
        FixedStepAccumulator { step_micros, accumulated_micros: 0 }
    }

    /// Accounts for `elapsed_micros` of wall time and returns how many
    /// whole simulation steps must now be run. The remainder is kept
    /// for the next frame.
    pub fn add_time(&mut self, elapsed_micros: u64) -> (steps: u64)
        requires
            old(self).wf(),
            old(self).accumulated_micros + elapsed_micros <= u64::MAX,
        ensures
            final(self).wf(),
            final(self).step_micros == old(self).step_micros,
            steps == (old(self).accumulated_micros + elapsed_micros) / (
            old(self).step_micros as int),
            final(self).accumulated_micros == (old(self).accumulated_micros + elapsed_micros) % (
            old(self).step_micros as int),
    {
        let total: u64 = self.accumulated_micros + elapsed_micros;
        let steps: u64 = total / self.step_micros;
        self.accumulated_micros = total % self.step_micros;
        steps
    }
}

} // verus!

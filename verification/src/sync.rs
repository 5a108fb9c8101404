//! Application of incoming replicated values.
//!
//! Once per tick, before the simulation systems run, the drained
//! inbound values are pushed through here: the registry decides
//! whether the local role may accept the value at all, a `Simple`
//! value overwrites the live copy last-writer-wins by tick stamp, and
//! a `Predicted` value goes to the rollback controller as a
//! correction candidate.

use vstd::prelude::*;
use crate::identity::NetworkRole;
use crate::registry::{resolve_apply_spec, ApplyDecision, ReplicationRegistry};
use crate::rollback::{
    replay_spec, within_tolerance, CorrectionOutcome, RollbackController, RollbackState,
};

verus! {

/// The live copy of a `Simple` attribute: the authority's last value
/// and the tick it was stamped with.
#[derive(Clone, Copy, Debug, PartialEq, Eq, Structural)]
pub struct SimpleValue {
    pub value: i64,
    pub stamp: u64,
}

/// What an incoming replicated value ended up doing.
#[derive(Clone, Copy, Debug, PartialEq, Eq, Structural)]
pub enum AppliedAs {
    /// The registry refused it: unregistered attribute, a direction
    /// that does not permit this role to receive, or an unreplicated
    /// mode on the wire.
    Rejected,
    /// A `Simple` value, newer than the live copy: overwritten.
    Overwritten,
    /// A `Simple` value older than the live copy: last writer wins,
    /// the stale value is ignored.
    Stale,
    /// A `Predicted` value that agreed with the prediction: no replay.
    CorrectionConverged,
    /// A `Predicted` value that diverged: rolled back and replayed.
    CorrectionReplayed,
    /// A `Predicted` value for a tick that left the window: dropped
    /// with a desync warning.
    CorrectionOutOfWindow,
}

/// Routes one incoming replicated value the way its registration
/// demands: rejected values change nothing, `Simple` values settle
/// last-writer-wins into the live copy, `Predicted` values run the
/// rollback controller's correction path and always leave it `Live`.
pub fn apply_incoming(
    registry: &ReplicationRegistry,
    role: NetworkRole,
    attr: u64,
    tick: u64,
    value: i64,
    simple: &mut SimpleValue,
    controller: &mut RollbackController,
) -> (r: AppliedAs)
    requires
        registry.wf(),
        old(controller).wf(),
        old(controller).state == RollbackState::Live,
    ensures
        final(controller).wf(),
        final(controller).state == RollbackState::Live,
        final(controller).tolerance == old(controller).tolerance,
        final(controller).window.depth == old(controller).window.depth,
        final(controller).window.start_tick == old(controller).window.start_tick,
        final(controller).window.spec_current_tick() == old(controller).window.spec_current_tick(),
        forall|u: int|
            final(controller).window.in_window(u) ==> final(controller).window.input_at(u) == old(controller).window.input_at(u),
        !registry.spec_has(attr) ==> r == AppliedAs::Rejected && *final(simple) == *old(simple)
            && *final(controller) == *old(controller),
        forall|i: int|
            0 <= i < registry.entries@.len() && registry.entries@[i].attr == attr ==> {
                let decision = resolve_apply_spec(
                    role,
                    registry.entries@[i].direction,
                    registry.entries@[i].sync_mode,
                );
                &&& decision == ApplyDecision::Reject ==> r == AppliedAs::Rejected && *final(simple)
                    == *old(simple) && *final(controller) == *old(controller)
                &&& decision == ApplyDecision::Overwrite ==> {
                    &&& *final(controller) == *old(controller)
                    &&& tick >= old(simple).stamp ==> r == AppliedAs::Overwritten && *final(simple)
                        == (SimpleValue { value, stamp: tick })
                    &&& tick < old(simple).stamp ==> r == AppliedAs::Stale && *final(simple)
                        == *old(simple)
                }
                &&& decision == ApplyDecision::CorrectionCandidate ==> {
                    &&& *final(simple) == *old(simple)
                    &&& !old(controller).window.in_window(tick as int) ==> r
                        == AppliedAs::CorrectionOutOfWindow && *final(controller) == *old(controller)
                    &&& old(controller).window.in_window(tick as int) && within_tolerance(
                        value,
                        old(controller).window.snap_at(tick as int),
                        old(controller).tolerance,
                    ) ==> r == AppliedAs::CorrectionConverged && *final(controller) == *old(controller)
                    &&& old(controller).window.in_window(tick as int) && !within_tolerance(
                        value,
                        old(controller).window.snap_at(tick as int),
                        old(controller).tolerance,
                    ) ==> {
                        &&& r == AppliedAs::CorrectionReplayed
                        &&& forall|u: int|
                            old(controller).window.start_tick <= u < tick ==> final(controller).window.frame_at(u) == old(controller).window.frame_at(u)
                        &&& forall|u: int|
                            tick <= u <= old(controller).window.spec_current_tick() ==> final(controller).window.snap_at(u) == replay_spec(
                                value,
                                old(controller).window.recorded_inputs(tick as int, u),
                            )
                    }
                }
            },
{
    match registry.decide(role, attr) {
        ApplyDecision::Reject => AppliedAs::Rejected,
        ApplyDecision::Overwrite => {
            if tick >= simple.stamp {
                *simple = SimpleValue { value, stamp: tick };
                AppliedAs::Overwritten
            } else {
                AppliedAs::Stale
            }
        },
        ApplyDecision::CorrectionCandidate => {
            match controller.apply_correction(tick, value) {
                CorrectionOutcome::DesyncWarning => AppliedAs::CorrectionOutOfWindow,
                CorrectionOutcome::Converged => AppliedAs::CorrectionConverged,
                CorrectionOutcome::Replayed => AppliedAs::CorrectionReplayed,
            }
        },
    }
}

} // verus!

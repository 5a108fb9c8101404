//! Reconciliation of predicted state with authoritative corrections.
//!
//! A bounded window of recent per-tick snapshots is kept for a
//! predicted attribute, together with the input recorded at each tick.
//! When an authoritative value for a historical tick arrives and
//! differs from what was predicted beyond the configured tolerance,
//! the controller rewinds to that tick, overwrites the snapshot with
//! the authoritative value, and replays the deterministic step
//! function forward over the recorded input history until it catches
//! up with the live tick. A correction for a tick that has already
//! left the window is dropped with a desync warning and mutates
//! nothing.

use vstd::prelude::*;

verus! {

/// Whether the simulation is stepping live or re-simulating a
/// historical range after a correction.
#[derive(Clone, Copy, Debug, PartialEq, Eq, Structural)]
pub enum RollbackState {
    /// Normal forward simulation at the live tick.
    Live,
    /// Re-simulating; `cursor` is the tick whose snapshot was computed
    /// last.
    Replaying { cursor: u64 },
}

impl RollbackState {
    pub fn is_replaying(&self) -> (r: bool)
        ensures
            r == (self is Replaying),
    {
        matches!(self, RollbackState::Replaying { .. })
    }
}

/// The deterministic per-tick step function of the predicted
/// attribute: the value grows by one on a tick whose input was
/// pressed, and wraps at the end of the integer range so that the step
/// is total. Determinism of replay rests on this being a function of
/// (value, input) alone.
pub open spec fn step_spec(v: i64, pressed: bool) -> i64 {
    if pressed {
        if v == i64::MAX {
            i64::MIN
        } else {
            (v + 1) as i64
        }
    } else {
        v
    }
}

/// Runs [`step_spec`] over a whole input history, oldest input first.
pub open spec fn replay_spec(base: i64, inputs: Seq<bool>) -> i64
    decreases inputs.len(),
{
    if inputs.len() == 0 {
        base
    } else {
        step_spec(replay_spec(base, inputs.drop_last()), inputs.last())
    }
}

/// Replaying is a mathematical function of the base snapshot and the
/// input sequence alone: identical inputs always reproduce identical
/// results, which is what makes corrections converge instead of
/// thrashing.
pub proof fn lemma_replay_deterministic(
    base_a: i64,
    base_b: i64,
    inputs_a: Seq<bool>,
    inputs_b: Seq<bool>,
)
    requires
        base_a == base_b,
        inputs_a == inputs_b,
    ensures
        replay_spec(base_a, inputs_a) == replay_spec(base_b, inputs_b),
{
}

/// One step of the deterministic simulation.
pub fn step(v: i64, pressed: bool) -> (r: i64)
    ensures
        r == step_spec(v, pressed),
{
    if pressed {
        if v == i64::MAX {
            i64::MIN
        } else {
            v + 1
        }
    } else {
        v
    }
}

/// Replays a whole input history from a base snapshot, oldest input
/// first.
pub fn replay(base: i64, inputs: &Vec<bool>) -> (r: i64)
    ensures
        r == replay_spec(base, inputs@),
{
    let mut v: i64 = base;
    let mut k: usize = 0;
    while k < inputs.len()
        invariant
            k <= inputs@.len(),
            v == replay_spec(base, inputs@.take(k as int)),
        decreases inputs@.len() - k,
    {
        proof {
            assert(inputs@.take(k + 1).drop_last() =~= inputs@.take(k as int));
            assert(inputs@.take(k + 1).last() == inputs@[k as int]);
        }
        v = step(v, inputs[k]);
        k = k + 1;
    }
    proof {
        assert(inputs@.take(inputs@.len() as int) =~= inputs@);
    }
    v
}

/// The snapshot recorded for one tick: the predicted value and the
/// input that produced it from the previous tick's value.
#[derive(Clone, Copy, Debug, PartialEq, Eq, Structural)]
pub struct Frame {
    pub snap: i64,
    pub input: bool,
}

/// An ordered buffer, indexed by tick, of recent snapshots of the
/// predicted attribute, bounded to `depth` past ticks: once warm it
/// covers exactly the contiguous range from `current_tick() - depth`
/// to `current_tick()`, and advancing evicts the oldest tick without
/// ever leaving a gap.
pub struct RollbackWindow {
    /// Oldest tick still held.
    pub start_tick: u64,
    /// `frames[k]` belongs to tick `start_tick + k`.
    pub frames: Vec<Frame>,
    /// Maximum number of past ticks kept besides the current one.
    pub depth: usize,
}

impl RollbackWindow {
    pub open spec fn wf(self) -> bool {
        &&& self.depth >= 1
        &&& 1 <= self.frames@.len() <= self.depth + 1
        &&& self.start_tick + self.frames@.len() - 1 <= u64::MAX
    }

    /// The newest tick held; the window always reaches the live tick.
    pub open spec fn spec_current_tick(self) -> u64 {
        (self.start_tick + self.frames@.len() - 1) as u64
    }

    pub open spec fn in_window(self, t: int) -> bool {
        self.start_tick <= t <= self.spec_current_tick()
    }

    pub open spec fn frame_at(self, t: int) -> Frame {
        self.frames@[t - self.start_tick]
    }

    pub open spec fn snap_at(self, t: int) -> i64 {
        self.frame_at(t).snap
    }

    pub open spec fn input_at(self, t: int) -> bool {
        self.frame_at(t).input
    }

    /// The inputs recorded for ticks `t + 1 ..= u`, oldest first: the
    /// history a replay from base tick `t` re-applies.
    pub open spec fn recorded_inputs(self, t: int, u: int) -> Seq<bool> {
        Seq::new((u - t) as nat, |k: int| self.input_at(t + 1 + k))
    }

    /// A fresh window holding only the base tick.
    pub fn new(depth: usize, base_tick: u64, base_snap: i64) -> (w: Self)
        requires
            depth >= 1,
        ensures
            w.wf(),
            w.depth == depth,
            w.start_tick == base_tick,
            w.spec_current_tick() == base_tick,
            w.snap_at(base_tick as int) == base_snap,
    {
        let mut frames: Vec<Frame> = Vec::new();
        frames.push(Frame { snap: base_snap, input: false });
        RollbackWindow { start_tick: base_tick, frames, depth }
    }

    pub fn current_tick(&self) -> (t: u64)
        requires
            self.wf(),
        ensures
            t == self.spec_current_tick(),
    {
        self.start_tick + (self.frames.len() - 1) as u64
    }

    /// The buffered snapshot for tick `t`, if `t` is still in the
    /// window.
    pub fn get(&self, t: u64) -> (r: Option<i64>)
        requires
            self.wf(),
        ensures
            self.in_window(t as int) ==> r == Some(self.snap_at(t as int)),
            !self.in_window(t as int) ==> r is None,
    {
        if t >= self.start_tick && t - self.start_tick < self.frames.len() as u64 {
            Some(self.frames[(t - self.start_tick) as usize].snap)
        } else {
            None
        }
    }

    /// Steps the simulation one tick forward under `input`: records
    /// the new predicted snapshot for the next tick and, if the window
    /// is full, evicts exactly the oldest tick, keeping the range
    /// contiguous.
    pub fn advance(&mut self, input: bool)
        requires
            old(self).wf(),
            old(self).spec_current_tick() < u64::MAX,
        ensures
            final(self).wf(),
            final(self).depth == old(self).depth,
            final(self).spec_current_tick() == old(self).spec_current_tick() + 1,
            final(self).start_tick == if old(self).frames@.len() <= old(self).depth {
                old(self).start_tick
            } else {
                (old(self).start_tick + 1) as u64
            },
            final(self).snap_at(final(self).spec_current_tick() as int) == step_spec(
                old(self).snap_at(old(self).spec_current_tick() as int),
                input,
            ),
            final(self).input_at(final(self).spec_current_tick() as int) == input,
            forall|t: int|
                final(self).start_tick <= t <= old(self).spec_current_tick() ==> final(self).frame_at(t) == old(self).frame_at(t),
    {
        let prev: i64 = self.frames[self.frames.len() - 1].snap;
        let next: i64 = step(prev, input);
        self.frames.push(Frame { snap: next, input });
        if self.frames.len() - 1 > self.depth {
            self.frames.remove(0);
            self.start_tick = self.start_tick + 1;
        }
    }
}

/// The window never has a gap: a tick is buffered exactly when it lies
/// in the contiguous range from `start_tick` to the current tick, and
/// once the window is warm that range is exactly
/// `[current_tick - depth, current_tick]`.
pub proof fn lemma_window_contiguous(w: RollbackWindow, t: int)
    requires
        w.wf(),
    ensures
        w.in_window(t) <==> w.spec_current_tick() - (w.frames@.len() - 1) <= t
            <= w.spec_current_tick(),
        w.frames@.len() == w.depth + 1 ==> (w.in_window(t) <==> w.spec_current_tick() - w.depth
            <= t <= w.spec_current_tick()),
{
}

/// What became of an authoritative correction.
#[derive(Clone, Copy, Debug, PartialEq, Eq, Structural)]
pub enum CorrectionOutcome {
    /// The corrected tick had already left the window; the correction
    /// was dropped, nothing changed, and a desync was reported.
    DesyncWarning,
    /// The prediction already agreed within tolerance; no replay.
    Converged,
    /// The prediction had diverged; the window was rewound and
    /// replayed to the live tick.
    Replayed,
}

/// Agreement up to the configured tolerance (exact for `tolerance ==
/// 0`, the right choice for discrete state).
pub open spec fn within_tolerance(authoritative: i64, predicted: i64, tolerance: i64) -> bool {
    -tolerance <= authoritative - predicted <= tolerance
}

/// The reconciliation engine for one predicted attribute: buffers
/// recent snapshots, detects divergence from authoritative
/// corrections, and replays deterministically when needed.
pub struct RollbackController {
    pub window: RollbackWindow,
    /// How far an authoritative value may differ from the prediction
    /// before a replay is triggered. Never negative.
    pub tolerance: i64,
    pub state: RollbackState,
}

impl RollbackController {
    pub open spec fn wf(self) -> bool {
        self.window.wf() && self.tolerance >= 0
    }

    pub fn new(depth: usize, tolerance: i64, base_tick: u64, base_snap: i64) -> (c: Self)
        requires
            depth >= 1,
            tolerance >= 0,
        ensures
            c.wf(),
            c.state == RollbackState::Live,
            c.tolerance == tolerance,
            c.window.depth == depth,
            c.window.start_tick == base_tick,
            c.window.spec_current_tick() == base_tick,
            c.window.snap_at(base_tick as int) == base_snap,
    {
        RollbackController {
            window: RollbackWindow::new(depth, base_tick, base_snap),
            tolerance,
            state: RollbackState::Live,
        }
    }

    /// Live forward prediction: advances the window one tick under the
    /// local input.
    pub fn advance_tick(&mut self, input: bool)
        requires
            old(self).wf(),
            old(self).state == RollbackState::Live,
            old(self).window.spec_current_tick() < u64::MAX,
        ensures
            final(self).wf(),
            final(self).state == RollbackState::Live,
            final(self).tolerance == old(self).tolerance,
            final(self).window.depth == old(self).window.depth,
            final(self).window.spec_current_tick() == old(self).window.spec_current_tick() + 1,
            final(self).window.snap_at(final(self).window.spec_current_tick() as int) == step_spec(
                old(self).window.snap_at(old(self).window.spec_current_tick() as int),
                input,
            ),
            final(self).window.input_at(final(self).window.spec_current_tick() as int) == input,
            forall|t: int|
                final(self).window.start_tick <= t <= old(self).window.spec_current_tick()
                    ==> final(self).window.frame_at(t) == old(self).window.frame_at(t),
    {
        self.window.advance(input);
    }

    /// Starts a replay at tick `t`: overwrites the buffered snapshot
    /// with the authoritative value and leaves the replay cursor on
    /// `t`.
    pub fn begin_replay(&mut self, t: u64, authoritative: i64)
        requires
            old(self).wf(),
            old(self).state == RollbackState::Live,
            old(self).window.in_window(t as int),
        ensures
            final(self).wf(),
            final(self).state == (RollbackState::Replaying { cursor: t }),
            final(self).tolerance == old(self).tolerance,
            final(self).window.depth == old(self).window.depth,
            final(self).window.start_tick == old(self).window.start_tick,
            final(self).window.spec_current_tick() == old(self).window.spec_current_tick(),
            final(self).window.snap_at(t as int) == authoritative,
            forall|u: int|
                final(self).window.in_window(u) && u != t ==> final(self).window.frame_at(u) == old(self).window.frame_at(u),
            forall|u: int|
                final(self).window.in_window(u) ==> final(self).window.input_at(u) == old(self).window.input_at(u),
    {
        let idx: usize = (t - self.window.start_tick) as usize;
        let kept: bool = self.window.frames[idx].input;
        self.window.frames[idx] = Frame { snap: authoritative, input: kept };
        self.state = RollbackState::Replaying { cursor: t };
    }

    /// One replay transition: re-runs the deterministic step function
    /// for the tick after the cursor, using the corrected snapshot at
    /// the cursor and the originally recorded input, and moves the
    /// cursor forward.
    pub fn replay_step(&mut self)
        requires
            old(self).wf(),
            old(self).state matches RollbackState::Replaying { cursor } && old(self).window.in_window(cursor as int) && cursor < old(self).window.spec_current_tick(),
        ensures
            final(self).wf(),
            old(self).state matches RollbackState::Replaying { cursor } ==> {
                &&& final(self).state == (RollbackState::Replaying { cursor: (cursor + 1) as u64 })
                &&& final(self).window.snap_at(cursor + 1) == step_spec(
                    old(self).window.snap_at(cursor as int),
                    old(self).window.input_at(cursor + 1),
                )
                &&& forall|u: int|
                    final(self).window.in_window(u) && u != cursor + 1 ==> final(self).window.frame_at(u) == old(self).window.frame_at(u)
            },
            final(self).tolerance == old(self).tolerance,
            final(self).window.depth == old(self).window.depth,
            final(self).window.start_tick == old(self).window.start_tick,
            final(self).window.spec_current_tick() == old(self).window.spec_current_tick(),
            forall|u: int|
                final(self).window.in_window(u) ==> final(self).window.input_at(u) == old(self).window.input_at(u),
    {
        let cursor: u64 = match self.state {
            RollbackState::Replaying { cursor } => cursor,
            RollbackState::Live => 0,
        };
        let idx: usize = (cursor - self.window.start_tick) as usize;
        let base: i64 = self.window.frames[idx].snap;
        let input: bool = self.window.frames[idx + 1].input;
        let corrected: i64 = step(base, input);
        self.window.frames[idx + 1] = Frame { snap: corrected, input };
        self.state = RollbackState::Replaying { cursor: cursor + 1 };
    }

    /// Ends a replay whose cursor has caught up with the live tick.
    pub fn finish_replay(&mut self)
        requires
            old(self).wf(),
            old(self).state == (RollbackState::Replaying {
                cursor: old(self).window.spec_current_tick(),
            }),
        ensures
            final(self).wf(),
            final(self).state == RollbackState::Live,
            final(self).tolerance == old(self).tolerance,
            final(self).window == old(self).window,
    {
        self.state = RollbackState::Live;
    }

    /// Handles an authoritative correction `authoritative` for tick
    /// `t`. A correction for a tick outside the window is dropped
    /// with a desync warning; one that agrees with the buffered
    /// prediction within tolerance is a no-op; a diverging one rewinds
    /// to `t` and deterministically replays the recorded inputs up to
    /// the live tick, always returning to `Live`.
    pub fn apply_correction(&mut self, t: u64, authoritative: i64) -> (out: CorrectionOutcome)
        requires
            old(self).wf(),
            old(self).state == RollbackState::Live,
        ensures
            final(self).wf(),
            final(self).state == RollbackState::Live,
            final(self).tolerance == old(self).tolerance,
            final(self).window.depth == old(self).window.depth,
            final(self).window.start_tick == old(self).window.start_tick,
            final(self).window.spec_current_tick() == old(self).window.spec_current_tick(),
            !old(self).window.in_window(t as int) ==> out == CorrectionOutcome::DesyncWarning
                && *final(self) == *old(self),
            old(self).window.in_window(t as int) && within_tolerance(
                authoritative,
                old(self).window.snap_at(t as int),
                old(self).tolerance,
            ) ==> out == CorrectionOutcome::Converged && *final(self) == *old(self),
            old(self).window.in_window(t as int) && !within_tolerance(
                authoritative,
                old(self).window.snap_at(t as int),
                old(self).tolerance,
            ) ==> {
                &&& out == CorrectionOutcome::Replayed
                &&& forall|u: int|
                    old(self).window.start_tick <= u < t ==> final(self).window.frame_at(u) == old(self).window.frame_at(u)
                &&& forall|u: int|
                    t <= u <= old(self).window.spec_current_tick() ==> final(self).window.snap_at(u)
                        == replay_spec(authoritative, old(self).window.recorded_inputs(t as int, u))
            },
            forall|u: int|
                final(self).window.in_window(u) ==> final(self).window.input_at(u) == old(self).window.input_at(u),
    {
        let current: u64 = self.window.current_tick();
        if t < self.window.start_tick || t > current {
            return CorrectionOutcome::DesyncWarning;
        }
        let predicted: i64 = self.window.frames[(t - self.window.start_tick) as usize].snap;
        let diff: i128 = authoritative as i128 - predicted as i128;
        if -(self.tolerance as i128) <= diff && diff <= self.tolerance as i128 {
            return CorrectionOutcome::Converged;
        }
        let ghost orig = *self;
        self.begin_replay(t, authoritative);
        proof {
            assert(self.window.recorded_inputs(t as int, t as int) =~= Seq::<bool>::empty());
        }
        let mut cursor: u64 = t;
        while cursor < current
            invariant
                self.wf(),
                self.tolerance == orig.tolerance,
                self.window.depth == orig.window.depth,
                self.window.start_tick == orig.window.start_tick,
                self.window.spec_current_tick() == orig.window.spec_current_tick(),
                current == orig.window.spec_current_tick(),
                orig.window.in_window(t as int),
                t <= cursor <= current,
                self.state == (RollbackState::Replaying { cursor }),
                forall|u: int|
                    self.window.in_window(u) ==> self.window.input_at(u) == orig.window.input_at(u),
                forall|u: int|
                    orig.window.start_tick <= u < t ==> self.window.frame_at(u)
                        == orig.window.frame_at(u),
                forall|u: int|
                    t <= u <= cursor ==> self.window.snap_at(u) == replay_spec(
                        authoritative,
                        orig.window.recorded_inputs(t as int, u),
                    ),
            decreases current - cursor,
        {
            let ghost cur = cursor as int;
            let ghost pre = *self;
            self.replay_step();
            cursor = cursor + 1;
            proof {
                let c1 = cur + 1;
                let rec1 = orig.window.recorded_inputs(t as int, c1);
                assert(rec1.len() == c1 - t);
                assert(rec1.drop_last() =~= orig.window.recorded_inputs(t as int, cur));
                assert(rec1.last() == orig.window.input_at(c1));
                assert(replay_spec(authoritative, rec1) == step_spec(
                    replay_spec(authoritative, rec1.drop_last()),
                    rec1.last(),
                ));
                assert(self.window.snap_at(c1) == step_spec(
                    pre.window.snap_at(cur),
                    pre.window.input_at(c1),
                ));
                assert(pre.window.input_at(c1) == orig.window.input_at(c1));
                assert(self.window.snap_at(c1) == replay_spec(authoritative, rec1));
                assert forall|u: int| t <= u <= c1 implies self.window.snap_at(u) == replay_spec(
                    authoritative,
                    orig.window.recorded_inputs(t as int, u),
                ) by {
                    if u < c1 {
                        assert(self.window.in_window(u));
                        assert(self.window.frame_at(u) == pre.window.frame_at(u));
                        assert(pre.window.snap_at(u) == replay_spec(
                            authoritative,
                            orig.window.recorded_inputs(t as int, u),
                        ));
                    }
                }
            }
        }
        self.finish_replay();
        CorrectionOutcome::Replayed
    }
}

} // verus!

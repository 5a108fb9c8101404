//! Per-tick capture and replication of abstract action state.
//!
//! Device polling lives outside this crate; what enters here is the
//! abstract fact "this input code is down". A binding table maps input
//! codes to the closed set of actions, per-tick activation flags are
//! derived from the previous tick's state, and each tick's input is
//! stamped with the tick and encoded for the wire. Entities that are
//! newly predicted and still lack an action state are given a neutral
//! default before any system reads them.

use vstd::prelude::*;
use crate::channel::ChannelManager;
use crate::errors::{DecodeError, SendError};

verus! {

/// The closed set of abstract actions this simulation knows. Actions
/// must be enumerable so that they can be serialized and replayed.
#[derive(Clone, Copy, Debug, PartialEq, Eq, Structural)]
pub enum TestActions {
    Test,
}

/// How an action is controlled: every action here is a button, either
/// pressed or not.
#[derive(Clone, Copy, Debug, PartialEq, Eq, Structural)]
pub enum InputControlKind {
    Button,
}

/// Abstract code of the primary pointer button, as the input layer
/// reports it.
pub const MOUSE_LEFT_CODE: u64 = 0;

impl TestActions {
    /// Every action of this set is button-like.
    pub fn input_control_kind(&self) -> (k: InputControlKind)
        ensures
            k == InputControlKind::Button,
    {
        match self {
            TestActions::Test => InputControlKind::Button,
        }
    }

    /// The binding table a fresh entity starts with: the primary
    /// pointer button drives `Test`.
    pub fn default_input_map() -> (m: InputMap)
        ensures
            m.bindings@ == seq![(MOUSE_LEFT_CODE, TestActions::Test)],
    {
        let mut m = InputMap::new();
        m.insert(TestActions::Test, MOUSE_LEFT_CODE);
        proof {
            assert(m.bindings@ =~= seq![(MOUSE_LEFT_CODE, TestActions::Test)]);
        }
        m
    }
}

/// The input-to-action binding table, built at startup.
pub struct InputMap {
    pub bindings: Vec<(u64, TestActions)>,
}

impl InputMap {
    pub fn new() -> (m: Self)
        ensures
            m.bindings@.len() == 0,
    {
        InputMap { bindings: Vec::new() }
    }

    /// Binds an input code to an action.
    pub fn insert(&mut self, action: TestActions, code: u64)
        ensures
            final(self).bindings@ == old(self).bindings@.push((code, action)),
    {
        self.bindings.push((code, action));
    }

    /// The action bound to an input code, by its first binding.
    pub fn action_for(&self, code: u64) -> (r: Option<TestActions>)
        ensures
            match r {
                Some(a) => exists|i: int|
                    0 <= i < self.bindings@.len() && self.bindings@[i] == (code, a) && forall|j: int|
                        0 <= j < i ==> self.bindings@[j].0 != code,
                None => forall|j: int| 0 <= j < self.bindings@.len() ==> self.bindings@[j].0 != code,
            },
    {
        let mut i: usize = 0;
        while i < self.bindings.len()
            invariant
                i <= self.bindings@.len(),
                forall|j: int| 0 <= j < i ==> self.bindings@[j].0 != code,
            decreases self.bindings@.len() - i,
        {
            if self.bindings[i].0 == code {
                return Some(self.bindings[i].1);
            }
            i = i + 1;
        }
        None
    }
}

/// Per-tick activation flags of one button-like action.
#[derive(Clone, Copy, Debug, PartialEq, Eq, Structural)]
pub struct ActionState {
    pub pressed: bool,
    pub just_pressed: bool,
    pub just_released: bool,
}

/// The neutral state a newly observed entity starts from.
pub open spec fn neutral_action_state() -> ActionState {
    ActionState { pressed: false, just_pressed: false, just_released: false }
}

impl Default for ActionState {
    /// A neutral, nothing-pressed state.
    fn default() -> (r: Self)
        ensures
            r == neutral_action_state(),
    {
        ActionState { pressed: false, just_pressed: false, just_released: false }
    }
}

impl ActionState {
    /// Runs one tick of edge detection: `just_pressed` and
    /// `just_released` compare this tick's raw button state with the
    /// previous tick's.
    pub fn update(&mut self, pressed_now: bool)
        ensures
            final(self).pressed == pressed_now,
            final(self).just_pressed == (pressed_now && !old(self).pressed),
            final(self).just_released == (!pressed_now && old(self).pressed),
    {
        self.just_pressed = pressed_now && !self.pressed;
        self.just_released = !pressed_now && self.pressed;
        self.pressed = pressed_now;
    }

    /// Whether `action` went down on this very tick.
    pub fn just_pressed(&self, action: &TestActions) -> (r: bool)
        ensures
            r == self.just_pressed,
    {
        match action {
            TestActions::Test => self.just_pressed,
        }
    }
}

/// One tick's captured input for one entity, stamped with the tick it
/// belongs to.
#[derive(Clone, Copy, Debug, PartialEq, Eq, Structural)]
pub struct InputFrame {
    pub tick: u64,
    pub pressed: bool,
}

/// Tag distinguishing input-frame payloads from anything else on the
/// wire.
pub const INPUT_FRAME_TAG: u64 = 0x8000_0000_0000_0000;

/// Largest tick an input frame can carry.
pub const INPUT_FRAME_MAX_TICK: u64 = 0x4000_0000_0000_0000;

/// The wire word an input frame encodes to.
pub open spec fn encode_input_spec(f: InputFrame) -> u64 {
    (INPUT_FRAME_TAG + f.tick * 2 + if f.pressed {
        1u64
    } else {
        0u64
    }) as u64
}

/// The input frame a wire word decodes to, if it carries the tag.
pub open spec fn decode_input_spec(w: u64) -> Result<InputFrame, DecodeError> {
    if w < INPUT_FRAME_TAG {
        Err(DecodeError::MalformedPayload)
    } else {
        Ok(InputFrame { tick: ((w - INPUT_FRAME_TAG) / 2) as u64, pressed: (w - INPUT_FRAME_TAG) % 2 == 1 })
    }
}

/// Encodes a stamped input for the wire.
pub fn encode_input(f: &InputFrame) -> (w: u64)
    requires
        f.tick < INPUT_FRAME_MAX_TICK,
    ensures
        w == encode_input_spec(*f),
{
    INPUT_FRAME_TAG + f.tick * 2 + if f.pressed {
        1u64
    } else {
        0u64
    }
}

/// Decodes a wire word back into a stamped input; a word without the
/// input-frame tag is malformed and costs only this one message.
pub fn decode_input(w: u64) -> (r: Result<InputFrame, DecodeError>)
    ensures
        r == decode_input_spec(w),
{
    if w < INPUT_FRAME_TAG {
        Err(DecodeError::MalformedPayload)
    } else {
        let rest: u64 = w - INPUT_FRAME_TAG;
        Ok(InputFrame { tick: rest / 2, pressed: rest % 2 == 1 })
    }
}

/// Encoding then decoding gives back exactly the frame that was
/// captured: replicated inputs reach the other side unchanged, which
/// replay determinism depends on.
pub proof fn lemma_input_codec_round_trip(f: InputFrame)
    requires
        f.tick < INPUT_FRAME_MAX_TICK,
    ensures
        decode_input_spec(encode_input_spec(f)) == Ok::<InputFrame, DecodeError>(f),
{
}

/// What the input layer knows of one entity when looking for missing
/// action states.
#[derive(Clone, Copy, Debug, PartialEq, Eq, Structural)]
pub struct EntityStatus {
    pub id: u64,
    /// The entity is simulated predictively on this peer.
    pub predicted: bool,
    /// The entity carries the replicated attribute this core tracks.
    pub has_data: bool,
    /// The entity already owns an action state.
    pub has_action_state: bool,
}

/// An entity must be given a default action state before its first
/// tick runs when it is predicted, carries the tracked attribute, and
/// has none yet.
pub open spec fn needs_action_state(e: EntityStatus) -> bool {
    e.predicted && e.has_data && !e.has_action_state
}

/// The ids of the entities that must be initialized, in input order.
pub open spec fn missing_action_states_spec(s: Seq<EntityStatus>) -> Seq<u64>
    decreases s.len(),
{
    if s.len() == 0 {
        Seq::empty()
    } else if needs_action_state(s.last()) {
        missing_action_states_spec(s.drop_last()).push(s.last().id)
    } else {
        missing_action_states_spec(s.drop_last())
    }
}

/// Finds every entity that became predicted without an action state
/// yet; each one is to be initialized with the neutral default state
/// and the default input map before the next tick runs.
pub fn spawn_missing_action_states(entities: &Vec<EntityStatus>) -> (out: Vec<u64>)
    ensures
        out@ == missing_action_states_spec(entities@),
{
    let mut out: Vec<u64> = Vec::new();
    let mut k: usize = 0;
    while k < entities.len()
        invariant
            k <= entities@.len(),
            out@ == missing_action_states_spec(entities@.take(k as int)),
        decreases entities@.len() - k,
    {
        proof {
            assert(entities@.take(k + 1).drop_last() =~= entities@.take(k as int));
            assert(entities@.take(k + 1).last() == entities@[k as int]);
        }
        let e = entities[k];
        if e.predicted && e.has_data && !e.has_action_state {
            out.push(e.id);
        }
        k = k + 1;
    }
    proof {
        assert(entities@.take(entities@.len() as int) =~= entities@);
    }
    out
}

/// The consuming side's record of per-tick inputs for one entity:
/// contiguous from `start_tick`, one raw button state per tick.
pub struct InputBuffer {
    pub start_tick: u64,
    pub pressed: Vec<bool>,
}

impl InputBuffer {
    pub fn new(start_tick: u64) -> (b: Self)
        ensures
            b.start_tick == start_tick,
            b.pressed@.len() == 0,
    {
        InputBuffer { start_tick, pressed: Vec::new() }
    }

    /// Records the input for the next tick; the buffer stays
    /// contiguous because ticks are recorded strictly in order.
    pub fn record(&mut self, pressed: bool)
        ensures
            final(self).start_tick == old(self).start_tick,
            final(self).pressed@ == old(self).pressed@.push(pressed),
    {
        self.pressed.push(pressed);
    }

    /// The most recently known input at or before `tick`: the exact
    /// record when `tick` is in the buffer, the newest record when
    /// `tick` runs ahead of what arrived (prediction keeps using the
    /// last known input), nothing when the buffer has no tick that
    /// early.
    pub open spec fn latest_spec(self, tick: u64) -> Option<bool> {
        if self.pressed@.len() == 0 || tick < self.start_tick {
            None
        } else if tick - self.start_tick < self.pressed@.len() {
            Some(self.pressed@[tick - self.start_tick])
        } else {
            Some(self.pressed@.last())
        }
    }

    /// Executable form of [`InputBuffer::latest_spec`].
    pub fn latest_at(&self, tick: u64) -> (r: Option<bool>)
        requires
            self.start_tick + self.pressed@.len() <= u64::MAX,
        ensures
            r == self.latest_spec(tick),
    {
        if self.pressed.len() == 0 || tick < self.start_tick {
            return None;
        }
        let offset: u64 = tick - self.start_tick;
        if offset < self.pressed.len() as u64 {
            Some(self.pressed[offset as usize])
        } else {
            Some(self.pressed[self.pressed.len() - 1])
        }
    }
}

/// Authoring side of input replication, run once per simulation tick:
/// stamps the locally captured action state with the current tick and
/// hands it to the channel layer on the dedicated input channel. On
/// an undeclared channel or after a disconnect nothing is sent or
/// changed.
pub fn replicate_input(net: &mut ChannelManager, channel_id: u64, state: &ActionState, tick: u64)
    -> (r: Result<usize, SendError>)
    requires
        old(net).wf(),
        tick < INPUT_FRAME_MAX_TICK,
    ensures
        final(net).wf(),
        final(net).disconnected == old(net).disconnected,
        r is Err ==> *final(net) == *old(net),
        old(net).disconnected ==> r == Result::<usize, SendError>::Err(SendError::Disconnected),
        !old(net).disconnected && !old(net).spec_has_channel(channel_id) ==> r == Result::<
            usize,
            SendError,
        >::Err(SendError::UnknownChannel),
        !old(net).disconnected && old(net).spec_has_channel(channel_id) ==> {
            &&& final(net).channels@.len() == old(net).channels@.len()
            &&& forall|i: int|
                0 <= i < old(net).channels@.len() && old(net).channels@[i].id != channel_id
                    ==> final(net).channels@[i] == old(net).channels@[i]
            &&& forall|i: int|
                0 <= i < old(net).channels@.len() && old(net).channels@[i].id == channel_id ==> {
                    &&& r == Result::<usize, SendError>::Ok(
                        old(net).channels@[i].sent_log@.len() as usize,
                    )
                    &&& final(net).channels@[i].sent_log@ == old(net).channels@[i].sent_log@.push(
                        encode_input_spec(InputFrame { tick, pressed: state.pressed }),
                    )
                }
        },
{
    let frame = InputFrame { tick, pressed: state.pressed };
    let word: u64 = encode_input(&frame);
    net.send(channel_id, word)
}

/// Consuming side of input replication: drives an entity's per-tick
/// action state from the most recently known replicated input,
/// pressing nothing while no input for that entity has arrived yet.
pub fn drive_from_buffer(state: &mut ActionState, buffer: &InputBuffer, tick: u64)
    requires
        buffer.start_tick + buffer.pressed@.len() <= u64::MAX,
    ensures
        final(state).pressed == (buffer.latest_spec(tick) == Some(true)),
        final(state).just_pressed == ((buffer.latest_spec(tick) == Some(true)) && !old(
            state,
        ).pressed),
        final(state).just_released == (!(buffer.latest_spec(tick) == Some(true)) && old(
            state,
        ).pressed),
{
    let pressed: bool = match buffer.latest_at(tick) {
        Option::Some(v) => v,
        Option::None => false,
    };
    state.update(pressed);
}

} // verus!

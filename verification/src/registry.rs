//! The replication registry: a declarative table that assigns each
//! networked attribute a direction (who may author it) and a sync mode
//! (whether it is replicated, and whether it participates in
//! prediction and rollback), and the pure rules that decide how an
//! incoming value is applied.

use vstd::prelude::*;
use crate::errors::ConfigError;
use crate::identity::NetworkRole;

verus! {

/// Who is allowed to author an attribute's canonical value.
#[derive(Clone, Copy, Debug, PartialEq, Eq, Structural)]
pub enum Direction {
    ServerToClient,
    ClientToServer,
    Bidirectional,
}

/// How an attribute is synchronized. `NotReplicated` values never
/// travel; `Simple` values are overwritten by the authority;
/// `Predicted` values are predicted locally and corrected by rollback.
#[derive(Clone, Copy, Debug, PartialEq, Eq, Structural)]
pub enum SyncMode {
    NotReplicated,
    Simple,
    Predicted,
}

/// What to do with an incoming replicated value.
#[derive(Clone, Copy, Debug, PartialEq, Eq, Structural)]
pub enum ApplyDecision {
    /// The local role is not a legal receiver of this attribute, or
    /// the attribute is not replicated at all.
    Reject,
    /// Overwrite the local value with the authoritative one.
    Overwrite,
    /// Hand the value to the rollback controller as a correction
    /// candidate.
    CorrectionCandidate,
}

/// Whether `role` is a legal receiver for an attribute of the given
/// direction.
pub open spec fn receiver_allowed(role: NetworkRole, direction: Direction) -> bool {
    match direction {
        Direction::ServerToClient => role == NetworkRole::Client,
        Direction::ClientToServer => role == NetworkRole::Server,
        Direction::Bidirectional => true,
    }
}

/// Whether `role` is a legal author for an attribute of the given
/// direction.
pub open spec fn author_allowed(role: NetworkRole, direction: Direction) -> bool {
    match direction {
        Direction::ServerToClient => role == NetworkRole::Server,
        Direction::ClientToServer => role == NetworkRole::Client,
        Direction::Bidirectional => true,
    }
}

/// The application rule: a value is accepted only if the local role is
/// a legal receiver and the attribute is replicated; an accepted value
/// is an authoritative overwrite for `Simple` attributes and a
/// rollback-correction candidate for `Predicted` ones.
pub open spec fn resolve_apply_spec(
    role: NetworkRole,
    direction: Direction,
    mode: SyncMode,
) -> ApplyDecision {
    if mode == SyncMode::NotReplicated {
        ApplyDecision::Reject
    } else if !receiver_allowed(role, direction) {
        ApplyDecision::Reject
    } else if mode == SyncMode::Simple {
        ApplyDecision::Overwrite
    } else {
        ApplyDecision::CorrectionCandidate
    }
}

/// Decides, from the local role and an attribute's configured
/// direction and sync mode, whether an incoming value is accepted and
/// how it is applied.
pub fn resolve_apply(role: NetworkRole, direction: Direction, mode: SyncMode) -> (d: ApplyDecision)
    ensures
        d == resolve_apply_spec(role, direction, mode),
{
    match mode {
        SyncMode::NotReplicated => ApplyDecision::Reject,
        SyncMode::Simple => {
            if receiver_allowed_exec(role, direction) {
                ApplyDecision::Overwrite
            } else {
                ApplyDecision::Reject
            }
        },
        SyncMode::Predicted => {
            if receiver_allowed_exec(role, direction) {
                ApplyDecision::CorrectionCandidate
            } else {
                ApplyDecision::Reject
            }
        },
    }
}

/// Executable form of [`receiver_allowed`].
pub fn receiver_allowed_exec(role: NetworkRole, direction: Direction) -> (r: bool)
    ensures
        r == receiver_allowed(role, direction),
{
    match direction {
        Direction::ServerToClient => matches!(role, NetworkRole::Client),
        Direction::ClientToServer => matches!(role, NetworkRole::Server),
        Direction::Bidirectional => true,
    }
}

/// Whether the local role should put this attribute on the wire at
/// all: only a legal author sends, and only replicated modes travel.
pub fn should_send(role: NetworkRole, direction: Direction, mode: SyncMode) -> (r: bool)
    ensures
        r == (author_allowed(role, direction) && mode != SyncMode::NotReplicated),
{
    let authoring: bool = match direction {
        Direction::ServerToClient => matches!(role, NetworkRole::Server),
        Direction::ClientToServer => matches!(role, NetworkRole::Client),
        Direction::Bidirectional => true,
    };
    authoring && !matches!(mode, SyncMode::NotReplicated)
}

/// For a `Bidirectional` attribute both sides may author; conflicts
/// are settled last-writer-wins by tick timestamp, ties going to the
/// incoming value.
pub fn last_writer_wins(local_stamp: u64, incoming_stamp: u64) -> (r: bool)
    ensures
        r == (incoming_stamp >= local_stamp),
{
    incoming_stamp >= local_stamp
}

/// An attribute registered `ServerToClient` is never accepted as an
/// authoritative update by the server role, whatever its sync mode.
pub proof fn lemma_direction_enforced(mode: SyncMode)
    ensures
        resolve_apply_spec(NetworkRole::Server, Direction::ServerToClient, mode)
            == ApplyDecision::Reject,
{
}

/// Outside `Bidirectional`, authoring and accepting are disjoint: a
/// role that may author an attribute is never a legal receiver of it,
/// so no role both writes and blindly accepts the same value.
pub proof fn lemma_author_receiver_disjoint(role: NetworkRole, direction: Direction)
    requires
        direction != Direction::Bidirectional,
    ensures
        author_allowed(role, direction) ==> !receiver_allowed(role, direction),
{
}

/// One registered attribute: its id, direction, and sync mode.
#[derive(Clone, Copy, Debug, PartialEq, Eq, Structural)]
pub struct Registration {
    pub attr: u64,
    pub direction: Direction,
    pub sync_mode: SyncMode,
}

/// The startup-phase table of registrations. It accumulates
/// declarations and is sealed before the simulation loop starts; late
/// or duplicate registration is a configuration error.
pub struct ReplicationRegistry {
    pub entries: Vec<Registration>,
    pub sealed: bool,
}

impl ReplicationRegistry {
    /// No two entries register the same attribute.
    pub open spec fn wf(self) -> bool {
        forall|i: int, j: int|
            0 <= i < j < self.entries@.len() ==> self.entries@[i].attr != self.entries@[j].attr
    }

    pub open spec fn spec_has(self, attr: u64) -> bool {
        exists|i: int| 0 <= i < self.entries@.len() && self.entries@[i].attr == attr
    }

    pub fn new() -> (r: Self)
        ensures
            r.wf(),
            !r.sealed,
            r.entries@.len() == 0,
    {
        ReplicationRegistry { entries: Vec::new(), sealed: false }
    }

    /// Index of the entry for `attr`, if any.
    fn find(&self, attr: u64) -> (r: Option<usize>)
        ensures
            match r {
                Some(i) => i < self.entries@.len() && self.entries@[i as int].attr == attr,
                None => !self.spec_has(attr),
            },
    {
        let mut i: usize = 0;
        while i < self.entries.len()
            invariant
                i <= self.entries@.len(),
                forall|j: int| 0 <= j < i ==> self.entries@[j].attr != attr,
            decreases self.entries@.len() - i,
        {
            if self.entries[i].attr == attr {
                return Some(i);
            }
            i = i + 1;
        }
        None
    }

    /// Registers an attribute once, at startup. Registering after the
    /// table was sealed, or registering the same attribute twice, is a
    /// configuration error and leaves the table unchanged.
    pub fn register(&mut self, attr: u64, direction: Direction, sync_mode: SyncMode) -> (r: Result<
        (),
        ConfigError,
    >)
        requires
            old(self).wf(),
        ensures
            final(self).wf(),
            final(self).sealed == old(self).sealed,
            old(self).sealed ==> r == Result::<(), ConfigError>::Err(ConfigError::RegistrySealed)
                && final(self).entries@ == old(self).entries@,
            !old(self).sealed && old(self).spec_has(attr) ==> r == Result::<(), ConfigError>::Err(
                ConfigError::DuplicateRegistration,
            ) && final(self).entries@ == old(self).entries@,
            !old(self).sealed && !old(self).spec_has(attr) ==> r == Result::<(), ConfigError>::Ok(())
                && final(self).entries@ == old(self).entries@.push(
                Registration { attr, direction, sync_mode },
            ),
    {
        if self.sealed {
            return Err(ConfigError::RegistrySealed);
        }
        if self.find(attr).is_some() {
            return Err(ConfigError::DuplicateRegistration);
        }
        self.entries.push(Registration { attr, direction, sync_mode });
        Ok(())
    }

    /// Freezes the table before the simulation loop starts.
    pub fn seal(&mut self)
        ensures
            final(self).sealed,
            final(self).entries@ == old(self).entries@,
    {
        self.sealed = true;
    }

    /// The configured (direction, sync mode) of an attribute, if it
    /// was registered.
    pub fn lookup(&self, attr: u64) -> (r: Option<(Direction, SyncMode)>)
        requires
            self.wf(),
        ensures
            match r {
                Some(p) => exists|i: int|
                    0 <= i < self.entries@.len() && self.entries@[i].attr == attr
                        && self.entries@[i].direction == p.0 && self.entries@[i].sync_mode == p.1,
                None => !self.spec_has(attr),
            },
    {
        match self.find(attr) {
            Some(i) => {
                let e = self.entries[i];
                Some((e.direction, e.sync_mode))
            },
            None => None,
        }
    }

    /// Decides how an incoming value for `attr` is applied by a peer
    /// running as `role`: a value for an unregistered attribute is
    /// rejected, otherwise the registered direction and sync mode
    /// decide.
    pub fn decide(&self, role: NetworkRole, attr: u64) -> (d: ApplyDecision)
        requires
            self.wf(),
        ensures
            !self.spec_has(attr) ==> d == ApplyDecision::Reject,
            forall|i: int|
                0 <= i < self.entries@.len() && self.entries@[i].attr == attr ==> d
                    == resolve_apply_spec(
                    role,
                    self.entries@[i].direction,
                    self.entries@[i].sync_mode,
                ),
    {
        match self.lookup(attr) {
            Some((direction, mode)) => resolve_apply(role, direction, mode),
            None => ApplyDecision::Reject,
        }
    }
}

} // verus!

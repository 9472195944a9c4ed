//! Shared data model: identities, resource references, permission levels,
//! change events from the membership feed, and the error taxonomy.

use vstd::prelude::*;

verus! {

/// An opaque authenticated principal reference, modeled by its numeric
/// user identifier.
pub type Identity = u64;

/// The kind of a resource a permission applies to; the kind determines
/// which permission cache and which access-control strategies apply.
#[derive(Clone, Copy, Debug, PartialEq, Eq, Structural)]
pub enum ResourceKind {
    Collab,
    Workspace,
}

/// A typed resource reference: a collaboration object or a workspace,
/// named by its numeric identifier.
#[derive(Clone, Copy, Debug, PartialEq, Eq, Structural)]
pub struct ResourceRef {
    pub kind: ResourceKind,
    pub id: u64,
}

/// An ordered permission level; `NoAccess` also serves as the negative-cache
/// value for identities with no recorded membership.
#[derive(Clone, Copy, Debug, PartialEq, Eq, Structural)]
pub enum PermissionLevel {
    NoAccess,
    Read,
    ReadWrite,
    Owner,
}

impl PermissionLevel {
    /// The position of this level in the order
    /// `NoAccess < Read < ReadWrite < Owner`.
    pub open spec fn rank(self) -> int {
        match self {
            PermissionLevel::NoAccess => 0,
            PermissionLevel::Read => 1,
            PermissionLevel::ReadWrite => 2,
            PermissionLevel::Owner => 3,
        }
    }

    /// Whether a held level grants at least `required`.
    pub open spec fn spec_satisfies(self, required: PermissionLevel) -> bool {
        self.rank() >= required.rank()
    }

    /// Decides whether this held level grants at least `required`.
    pub fn satisfies(self, required: PermissionLevel) -> (r: bool)
        ensures
            r == self.spec_satisfies(required),
    {
        self.rank_exec() >= required.rank_exec()
    }

    fn rank_exec(self) -> (r: u8)
        ensures
            r as int == self.rank(),
    {
        match self {
            PermissionLevel::NoAccess => 0,
            PermissionLevel::Read => 1,
            PermissionLevel::ReadWrite => 2,
            PermissionLevel::Owner => 3,
        }
    }
}

/// What a membership mutation did to one (identity, resource) pair.
#[derive(Clone, Copy, Debug, PartialEq, Eq, Structural)]
pub enum ChangeAction {
    Added(PermissionLevel),
    Updated(PermissionLevel),
    Removed,
}

/// One membership mutation from the change feed, tagged with the feed's
/// monotonically increasing version number. Ordering is only meaningful
/// among events for the same (identity, resource) key.
#[derive(Clone, Copy, Debug, PartialEq, Eq, Structural)]
pub struct ChangeEvent {
    pub identity: Identity,
    pub resource: ResourceRef,
    pub action: ChangeAction,
    pub version: u64,
}

impl ChangeEvent {
    /// The permission level the key holds once this event is applied;
    /// a removal leaves the key at `NoAccess`.
    pub open spec fn spec_new_level(self) -> PermissionLevel {
        match self.action {
            ChangeAction::Added(l) => l,
            ChangeAction::Updated(l) => l,
            ChangeAction::Removed => PermissionLevel::NoAccess,
        }
    }

    /// Returns the permission level the key holds once this event is applied.
    pub fn new_level(&self) -> (r: PermissionLevel)
        ensures
            r == self.spec_new_level(),
    {
        match self.action {
            ChangeAction::Added(l) => l,
            ChangeAction::Updated(l) => l,
            ChangeAction::Removed => PermissionLevel::NoAccess,
        }
    }
}

/// The independent topics the change feed multiplexes over one connection.
#[derive(Clone, Copy, Debug, PartialEq, Eq, Structural)]
pub enum FeedTopic {
    CollabMembership,
    WorkspaceMembership,
}

/// The error taxonomy of the core.
#[derive(Clone, Copy, Debug, PartialEq, Eq, Structural)]
pub enum CoreError {
    /// The credential hub holds no credential.
    NoCredential,
    /// A subscriber fell behind the broadcast buffer and lost this many
    /// transitions; it must re-read credential state before trusting it.
    MissedTransitions(u64),
    /// The authoritative permission store could not be read.
    StoreUnavailable,
    /// The change feed connection dropped; transient, triggers a reconnect.
    FeedDisconnected,
    /// No registered strategy understands the resource reference.
    UnknownResourceKind,
}

} // verus!

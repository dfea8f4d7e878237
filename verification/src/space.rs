//! Virtual-desktop membership tracking: keep the overlay present on whatever
//! desktop the user is currently viewing, by pinning it to every space at
//! creation or by reacting to each desktop-change notification.

use vstd::prelude::*;
use crate::surface::SpaceMembership;

verus! {

/// An opaque identifier for a virtual desktop, compared by equality only and
/// never ordered.
#[derive(Clone, Copy, Debug, PartialEq, Eq, Hash, Structural)]
pub struct SpaceDescriptor {
    pub raw: u64,
}

/// How the follow strategy reattaches the surface on a desktop change.
#[derive(Clone, Copy, Debug, PartialEq, Eq, Structural)]
pub enum FollowMode {
    /// Move the surface directly to the newly active desktop.
    MoveSurface,
    /// Terminate and relaunch the process, for compositors that refuse
    /// cross-space migration of a live surface.
    Respawn,
}

/// One of two mutually exclusive strategies, chosen by configuration and
/// never mixed.
#[derive(Clone, Copy, Debug, PartialEq, Eq, Structural)]
pub enum SpaceStrategy {
    /// Mark the surface as belonging to all spaces at creation; no runtime
    /// action and no subscription.
    Pin,
    /// Subscribe to desktop-change notifications and reattach on each one.
    Follow(FollowMode),
}

/// The single action a handled notification demands of the caller.
#[derive(Clone, Copy, Debug, PartialEq, Eq, Structural)]
pub enum SpaceAction {
    /// Move the surface to this desktop.
    MoveToSpace(SpaceDescriptor),
    /// Signal the supervisor that a deliberate respawn is underway, spawn
    /// the replacement, then exit the current process.
    RespawnProcess,
}

/// The surface membership the chosen strategy asks for at creation time:
/// all-spaces membership under the pin strategy, a single pinned space under
/// the follow strategy.
pub fn initial_membership(strategy: SpaceStrategy) -> (m: SpaceMembership)
    ensures
        (m is AllSpaces) == (strategy is Pin),
        (m is Pinned) == (strategy is Follow),
{
    match strategy {
        SpaceStrategy::Pin => SpaceMembership::AllSpaces,
        SpaceStrategy::Follow(_) => SpaceMembership::Pinned,
    }
}

/// Whether the strategy subscribes to desktop-change notifications at all.
pub fn subscribes_to_changes(strategy: SpaceStrategy) -> (r: bool)
    ensures
        r == (strategy is Follow),
{
    match strategy {
        SpaceStrategy::Pin => false,
        SpaceStrategy::Follow(_) => true,
    }
}

/// The follow strategy's notification handler: one action per notification,
/// never zero and never more than one.
pub struct SpaceTracker {
    mode: FollowMode,
    changes_handled: u64,
    actions_issued: u64,
}

impl SpaceTracker {
    /// The configured reattachment mode.
    pub closed spec fn mode(self) -> FollowMode {
        self.mode
    }

    /// How many desktop-change notifications have been handled.
    pub closed spec fn changes_handled(self) -> u64 {
        self.changes_handled
    }

    /// How many reattachment actions have been issued.
    pub closed spec fn actions_issued(self) -> u64 {
        self.actions_issued
    }

    /// Every handled notification has issued exactly one action.
    pub open spec fn wf(self) -> bool {
        self.actions_issued() == self.changes_handled()
    }

    /// A fresh tracker that has handled no notification.
    pub fn new(mode: FollowMode) -> (r: SpaceTracker)
        ensures
            r.wf(),
            r.mode() == mode,
            r.changes_handled() == 0,
    {
        SpaceTracker { mode, changes_handled: 0, actions_issued: 0 }
    }

    /// Reads how many notifications have been handled so far.
    pub fn handled_count(&self) -> (n: u64)
        ensures
            n == self.changes_handled(),
    {
        self.changes_handled
    }

    /// Handles one desktop-change notification: exactly one action comes
    /// back — move the surface to the now-active desktop, or respawn the
    /// process — according to the configured mode.
    pub fn on_space_change(&mut self, now_active: SpaceDescriptor) -> (action: SpaceAction)
        requires
            old(self).wf(),
            old(self).changes_handled() < u64::MAX,
        ensures
            final(self).wf(),
            final(self).mode() == old(self).mode(),
            final(self).changes_handled() == old(self).changes_handled() + 1,
            final(self).actions_issued() == old(self).actions_issued() + 1,
            action == (match old(self).mode() {
                FollowMode::MoveSurface => SpaceAction::MoveToSpace(now_active),
                FollowMode::Respawn => SpaceAction::RespawnProcess,
            }),
    {
        self.changes_handled = self.changes_handled + 1;
        self.actions_issued = self.actions_issued + 1;
        match self.mode {
            FollowMode::MoveSurface => SpaceAction::MoveToSpace(now_active),
            FollowMode::Respawn => SpaceAction::RespawnProcess,
        }
    }
}

/// One step of the deliberate-respawn path. The supervisor must learn that a
/// clean respawn is underway before the replacement starts and before the
/// current process exits, since this exit is not an error.
#[derive(Clone, Copy, Debug, PartialEq, Eq, Structural)]
pub enum RespawnStep {
    SignalSupervisor,
    SpawnReplacement,
    ExitCurrent,
}

/// The order in which a respawn is carried out: signal first, then spawn the
/// replacement, then exit.
pub fn respawn_sequence() -> (steps: Vec<RespawnStep>)
    ensures
        steps@ =~= seq![
            RespawnStep::SignalSupervisor,
            RespawnStep::SpawnReplacement,
            RespawnStep::ExitCurrent,
        ],
{
    let mut steps: Vec<RespawnStep> = Vec::new();
    steps.push(RespawnStep::SignalSupervisor);
    steps.push(RespawnStep::SpawnReplacement);
    steps.push(RespawnStep::ExitCurrent);
    steps
}

} // verus!

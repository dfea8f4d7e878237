//! The non-activating overlay surface: the declarative properties it holds
//! for its whole life, the handle slot it is published through, and the
//! collection-behavior bits the compositor is told at creation.

use vstd::prelude::*;

verus! {

/// The greatest stacking level a surface can be created at.
pub const MAX_WINDOW_LEVEL: i64 = 2147483647;

/// Collection-behavior bit: the surface joins every space.
pub const BEHAVIOR_ALL_SPACES: u64 = 1;
/// Collection-behavior bit: the surface is skipped by window cycling.
pub const BEHAVIOR_IGNORES_CYCLE: u64 = 4;
/// Collection-behavior bit: the surface stays put when spaces are rearranged.
pub const BEHAVIOR_STATIONARY: u64 = 16;
/// Collection-behavior bit: the surface is auxiliary to the full-screen UI.
pub const BEHAVIOR_AUXILIARY: u64 = 256;
/// Collection-behavior bit: the surface takes no part in window tiling.
pub const BEHAVIOR_DISALLOWS_TILING: u64 = 2048;

/// Whether a surface belongs to every virtual desktop or to a single one.
#[derive(Clone, Copy, Debug, PartialEq, Eq, Structural)]
pub enum SpaceMembership {
    AllSpaces,
    Pinned,
}

/// The collection-behavior bitmask for the chosen flags. The five flag bits
/// are distinct powers of two, so the mask is their plain sum.
pub fn collection_behavior(
    all_spaces: bool,
    ignores_cycle: bool,
    stationary: bool,
    auxiliary: bool,
    disallows_tiling: bool,
) -> (bits: u64)
    ensures
        bits == (if all_spaces { BEHAVIOR_ALL_SPACES } else { 0 })
            + (if ignores_cycle { BEHAVIOR_IGNORES_CYCLE } else { 0 })
            + (if stationary { BEHAVIOR_STATIONARY } else { 0 })
            + (if auxiliary { BEHAVIOR_AUXILIARY } else { 0 })
            + (if disallows_tiling { BEHAVIOR_DISALLOWS_TILING } else { 0 }),
{
    let mut bits: u64 = 0;
    if all_spaces {
        bits = bits + BEHAVIOR_ALL_SPACES;
    }
    if ignores_cycle {
        bits = bits + BEHAVIOR_IGNORES_CYCLE;
    }
    if stationary {
        bits = bits + BEHAVIOR_STATIONARY;
    }
    if auxiliary {
        bits = bits + BEHAVIOR_AUXILIARY;
    }
    if disallows_tiling {
        bits = bits + BEHAVIOR_DISALLOWS_TILING;
    }
    bits
}

/// The behavior bits an overlay surface is created with: on every space,
/// skipped by cycling, stationary, auxiliary, and never tiled.
pub fn overlay_behavior_bits() -> (bits: u64)
    ensures
        bits == 2325,
{
    collection_behavior(true, true, true, true, true)
}

/// Capability policy a surface answers the window system with. The answers
/// are fixed per concrete surface type and hold for the surface's whole
/// life.
pub trait SurfaceCapabilities {
    /// Whether this surface is ever eligible to become the key or main
    /// window.
    spec fn focus_eligible(&self) -> bool;

    /// Whether this surface accepts a click arriving while it is not
    /// focused, without that click activating it.
    spec fn first_click(&self) -> bool;

    /// Answers the window system's key/main-window eligibility query.
    fn can_become_focused(&self) -> (r: bool)
        ensures
            r == self.focus_eligible(),
    ;

    /// Answers the window system's first-click query.
    fn accepts_first_click(&self) -> (r: bool)
        ensures
            r == self.first_click(),
    ;
}

/// The overlay surface's own lifelong properties, set once at creation.
/// Only the stacking level and the space membership ever change afterwards;
/// the level is owned by the arbiter and the membership by the space
/// tracker.
pub struct OverlaySurface {
    level: i64,
    membership: SpaceMembership,
    excluded_from_capture: bool,
    has_shadow: bool,
    draggable: bool,
}

impl OverlaySurface {
    /// The current stacking level.
    pub closed spec fn level(self) -> i64 {
        self.level
    }

    /// The current space membership.
    pub closed spec fn membership(self) -> SpaceMembership {
        self.membership
    }

    /// Whether the surface is hidden from screen-capture enumeration.
    pub closed spec fn excluded_from_capture(self) -> bool {
        self.excluded_from_capture
    }

    /// Whether the surface casts a shadow.
    pub closed spec fn has_shadow(self) -> bool {
        self.has_shadow
    }

    /// Whether the surface can be dragged by its background.
    pub closed spec fn draggable(self) -> bool {
        self.draggable
    }

    /// For as long as it is alive, the overlay stays out of screen-capture
    /// enumeration and draggable by its background.
    pub open spec fn wf(self) -> bool {
        self.excluded_from_capture() && self.draggable()
    }

    /// Creates the overlay's lifelong property record: capture-excluded,
    /// shadowed, draggable, at the given level and membership.
    pub fn create(level: i64, membership: SpaceMembership) -> (s: OverlaySurface)
        ensures
            s.wf(),
            s.level() == level,
            s.membership() == membership,
            s.has_shadow(),
    {
        OverlaySurface {
            level,
            membership,
            excluded_from_capture: true,
            has_shadow: true,
            draggable: true,
        }
    }

    /// Reads the current stacking level.
    pub fn current_level(&self) -> (r: i64)
        ensures
            r == self.level(),
    {
        self.level
    }

    /// Reads the current space membership.
    pub fn current_membership(&self) -> (m: SpaceMembership)
        ensures
            m == self.membership(),
    {
        self.membership
    }

    /// Applies a new stacking level; every other property is kept.
    pub fn set_level(&mut self, level: i64)
        ensures
            final(self).level() == level,
            final(self).membership() == old(self).membership(),
            final(self).excluded_from_capture() == old(self).excluded_from_capture(),
            final(self).has_shadow() == old(self).has_shadow(),
            final(self).draggable() == old(self).draggable(),
    {
        self.level = level;
    }

    /// Applies a new space membership; every other property is kept.
    pub fn set_membership(&mut self, membership: SpaceMembership)
        ensures
            final(self).membership() == membership,
            final(self).level() == old(self).level(),
            final(self).excluded_from_capture() == old(self).excluded_from_capture(),
            final(self).has_shadow() == old(self).has_shadow(),
            final(self).draggable() == old(self).draggable(),
    {
        self.membership = membership;
    }
}

impl SurfaceCapabilities for OverlaySurface {
    /// The overlay never reports itself eligible for key or main status.
    open spec fn focus_eligible(&self) -> bool {
        false
    }

    /// The overlay accepts a first click without activating.
    open spec fn first_click(&self) -> bool {
        true
    }

    fn can_become_focused(&self) -> (r: bool) {
        false
    }

    fn accepts_first_click(&self) -> (r: bool) {
        true
    }
}

/// The overlay never takes keyboard focus yet always takes the first click:
/// these answers are fixed, whatever state the surface is in.
pub proof fn lemma_overlay_refuses_focus(s: OverlaySurface)
    ensures
        !s.focus_eligible(),
        s.first_click(),
{
}

/// The slot a created surface's handle is published through, readable from
/// any thread. A zero handle means "not yet ready" and readers treat it as
/// a no-op, never as an error; at most one live handle is ever published.
pub struct HandleSlot {
    raw: u64,
}

impl HandleSlot {
    /// Whether a handle has been published.
    pub closed spec fn published(self) -> bool {
        self.raw != 0
    }

    /// The published handle.
    pub closed spec fn handle(self) -> u64 {
        self.raw
    }

    /// An empty slot: nothing published yet.
    pub fn empty() -> (s: HandleSlot)
        ensures
            !s.published(),
    {
        HandleSlot { raw: 0 }
    }

    /// Publishes the one live handle. Publication happens once: the slot
    /// must still be empty.
    pub fn publish(&mut self, handle: u64)
        requires
            !old(self).published(),
            handle != 0,
        ensures
            final(self).published(),
            final(self).handle() == handle,
    {
        self.raw = handle;
    }

    /// Reads the slot: `None` exactly while no handle is published.
    pub fn read(&self) -> (r: Option<u64>)
        ensures
            (match r {
                None => !self.published(),
                Some(h) => self.published() && h == self.handle() && h != 0,
            }),
    {
        if self.raw == 0 {
            None
        } else {
            Some(self.raw)
        }
    }
}

} // verus!

//! Level arbitration: the escalation loop that keeps the overlay's stacking
//! level strictly above the highest competing surface, recomputed fresh on
//! every tick because competitors may themselves escalate.

use vstd::prelude::*;

verus! {

/// The stacking level floor the arbiter falls back to when no competitor can
/// be seen.
pub const DEFAULT_LEVEL_FLOOR: i64 = 2500;

/// How many ticks pass between two diagnostic reports.
pub const DEFAULT_DIAGNOSTIC_PERIOD: u64 = 20;

/// One enumerated on-screen surface: its opaque identity and its stacking
/// layer (higher draws above lower).
#[derive(Clone, Copy, Debug, PartialEq, Eq, Structural)]
pub struct SurfaceInfo {
    pub id: u32,
    pub layer: i32,
}

/// The greatest stacking layer among the snapshot's surfaces other than the
/// overlay itself, or `None` when every entry is the overlay's own.
pub open spec fn max_competitor_layer(snapshot: Seq<SurfaceInfo>, self_id: u32) -> Option<i32>
    decreases snapshot.len(),
{
    if snapshot.len() == 0 {
        None
    } else {
        let rest = max_competitor_layer(snapshot.drop_last(), self_id);
        let last = snapshot.last();
        if last.id == self_id {
            rest
        } else {
            match rest {
                None => Some(last.layer),
                Some(m) => Some(if last.layer > m { last.layer } else { m }),
            }
        }
    }
}

/// The level the arbiter wants this tick: one above the highest competing
/// layer, or the configured floor when no competitor is found.
pub open spec fn desired_level(max_layer: Option<i32>, floor: i64) -> int {
    match max_layer {
        Some(l) => l + 1,
        None => floor as int,
    }
}

/// Scans a snapshot for the highest layer among surfaces other than the
/// overlay's own, returning one entry that holds it.
pub fn highest_competitor(snapshot: &Vec<SurfaceInfo>, self_id: u32) -> (r: Option<SurfaceInfo>)
    ensures
        (match r {
            None => max_competitor_layer(snapshot@, self_id) is None,
            Some(e) => {
                &&& max_competitor_layer(snapshot@, self_id) == Some(e.layer)
                &&& snapshot@.contains(e)
                &&& e.id != self_id
            },
        }),
{
    let mut best: Option<SurfaceInfo> = None;
    let mut i: usize = 0;
    while i < snapshot.len()
        invariant
            i <= snapshot.len(),
            (match best {
                None => max_competitor_layer(snapshot@.take(i as int), self_id) is None,
                Some(e) => {
                    &&& max_competitor_layer(snapshot@.take(i as int), self_id) == Some(e.layer)
                    &&& snapshot@.contains(e)
                    &&& e.id != self_id
                },
            }),
        decreases snapshot.len() - i,
    {
        let entry = snapshot[i];
        proof {
            assert(snapshot@.take(i + 1).drop_last() =~= snapshot@.take(i as int));
            assert(snapshot@.take(i + 1).last() == snapshot@[i as int]);
            assert(snapshot@.contains(snapshot@[i as int]));
        }
        if entry.id != self_id {
            best = match best {
                None => Some(entry),
                Some(b) => if entry.layer > b.layer { Some(entry) } else { Some(b) },
            };
        }
        i = i + 1;
    }
    proof {
        assert(snapshot@.take(snapshot@.len() as int) =~= snapshot@);
    }
    best
}

/// Over one tick against a snapshot holding a single competitor, the
/// requested level is exactly one above that competitor's layer; against an
/// empty snapshot it is exactly the configured floor.
pub proof fn lemma_tick_level_single_competitor(competitor: SurfaceInfo, self_id: u32, floor: i64)
    requires
        competitor.id != self_id,
    ensures
        desired_level(max_competitor_layer(seq![competitor], self_id), floor) == competitor.layer + 1,
        desired_level(max_competitor_layer(Seq::<SurfaceInfo>::empty(), self_id), floor) == floor as int,
{
    assert(seq![competitor].drop_last() =~= Seq::<SurfaceInfo>::empty());
    assert(seq![competitor].last() == competitor);
}

/// Whatever the snapshot, the level the arbiter asks for is strictly above
/// the highest competing layer whenever a competitor is visible at all.
pub proof fn lemma_tick_stays_above(snapshot: Seq<SurfaceInfo>, self_id: u32, floor: i64)
    ensures
        (match max_competitor_layer(snapshot, self_id) {
            Some(m) => desired_level(Some(m), floor) > m,
            None => true,
        }),
{
}

/// A competitor escalates by one each tick.
pub open spec fn escalates_by_one(layers: Seq<i32>) -> bool {
    forall|i: int, j: int|
        0 <= i && j == i + 1 && j < layers.len() ==> #[trigger] layers[j] == #[trigger] layers[i] + 1
}

/// Repeated ticks against a competitor that itself escalates by one each
/// tick converge: after every tick the level requested for the surface is
/// strictly greater than the competitor's layer at that tick, assuming no
/// clamping.
pub proof fn lemma_escalation_converges(competitor_id: u32, self_id: u32, layers: Seq<i32>, floor: i64)
    requires
        competitor_id != self_id,
        escalates_by_one(layers),
    ensures
        forall|i: int| 0 <= i < layers.len()
            ==> desired_level(
                max_competitor_layer(
                    #[trigger] seq![SurfaceInfo { id: competitor_id, layer: layers[i] }],
                    self_id,
                ),
                floor,
            ) > layers[i],
{
    assert forall|i: int| 0 <= i < layers.len()
        implies desired_level(
            max_competitor_layer(
                seq![SurfaceInfo { id: competitor_id, layer: layers[i] }],
                self_id,
            ),
            floor,
        ) > layers[i] by {
        lemma_tick_level_single_competitor(
            SurfaceInfo { id: competitor_id, layer: layers[i] },
            self_id,
            floor,
        );
    }
}

/// What the arbiter decides to do with one tick.
pub enum TickPlan {
    /// No surface handle is published yet: do nothing, retry next tick.
    Skip,
    /// The probe could not enumerate surfaces: reorder the overlay to the
    /// absolute front without computing a level, and retry next tick.
    ReorderFront { diagnose: bool },
    /// Apply this level, then reorder the overlay above the topmost surface;
    /// the reorder is issued even when the overlay is already topmost.
    SetLevelAndReorder { level: i64, diagnose: bool },
}

/// Whether the compositor silently clamped an applied level below the
/// requested one.
#[derive(Clone, Copy, Debug, PartialEq, Eq, Structural)]
pub enum LevelStatus {
    Applied,
    Clamped,
}

/// Compares the level read back after a set-level call with the one
/// requested: the condition is `Clamped` exactly when the compositor kept
/// the surface lower than asked. Clamping is reported, never fatal.
pub fn verify_applied(requested: i64, actual: i64) -> (r: LevelStatus)
    ensures
        (r is Clamped) == (actual < requested),
{
    if actual < requested {
        LevelStatus::Clamped
    } else {
        LevelStatus::Applied
    }
}

/// The escalation loop's per-tick policy: probe, compute, apply, retry
/// forever. Failure is local to a tick and surfaces only through
/// rate-limited diagnostics.
pub struct LevelArbiter {
    floor: i64,
    diagnostic_period: u64,
    ticks: u64,
}

impl LevelArbiter {
    /// The configured floor level.
    pub closed spec fn floor(self) -> i64 {
        self.floor
    }

    /// How many ticks pass between two diagnostic reports.
    pub closed spec fn diagnostic_period(self) -> u64 {
        self.diagnostic_period
    }

    /// How many ticks have run.
    pub closed spec fn ticks(self) -> u64 {
        self.ticks
    }

    /// A well-formed arbiter reports diagnostics at a positive period.
    pub open spec fn wf(self) -> bool {
        self.diagnostic_period() > 0
    }

    /// A fresh arbiter that has not ticked yet.
    pub fn new(floor: i64, diagnostic_period: u64) -> (r: LevelArbiter)
        requires
            diagnostic_period > 0,
        ensures
            r.wf(),
            r.floor() == floor,
            r.diagnostic_period() == diagnostic_period,
            r.ticks() == 0,
    {
        LevelArbiter { floor, diagnostic_period, ticks: 0 }
    }

    /// Reads how many ticks have run so far.
    pub fn tick_count(&self) -> (n: u64)
        ensures
            n == self.ticks(),
    {
        self.ticks
    }

    /// One arbitration tick. A null (unpublished) handle is a no-op, not an
    /// error; a failed probe falls back to reordering to the absolute front;
    /// otherwise the plan requests exactly one above the highest competing
    /// layer, or the floor when no competitor is visible. Diagnostics are due
    /// once per period.
    pub fn tick(&mut self, handle: Option<u32>, probe: Option<&Vec<SurfaceInfo>>) -> (plan: TickPlan)
        requires
            old(self).wf(),
            old(self).ticks() < u64::MAX,
        ensures
            final(self).wf(),
            final(self).floor() == old(self).floor(),
            final(self).diagnostic_period() == old(self).diagnostic_period(),
            final(self).ticks() == old(self).ticks() + 1,
            (plan is Skip) == (handle is None),
            (match plan {
                TickPlan::Skip => handle is None,
                TickPlan::ReorderFront { diagnose } => {
                    &&& handle is Some
                    &&& probe is None
                    &&& diagnose == (final(self).ticks() % final(self).diagnostic_period() == 0)
                },
                TickPlan::SetLevelAndReorder { level, diagnose } => {
                    &&& handle is Some
                    &&& probe matches Some(snapshot)
                        && level == desired_level(
                            max_competitor_layer(snapshot@, handle->0),
                            old(self).floor(),
                        )
                    &&& diagnose == (final(self).ticks() % final(self).diagnostic_period() == 0)
                },
            }),
    {
        self.ticks = self.ticks + 1;
        let diagnose = self.ticks % self.diagnostic_period == 0;
        match handle {
            None => TickPlan::Skip,
            Some(self_id) => {
                match probe {
                    None => TickPlan::ReorderFront { diagnose },
                    Some(snapshot) => {
                        let level = match highest_competitor(snapshot, self_id) {
                            Some(top) => top.layer as i64 + 1,
                            None => self.floor,
                        };
                        TickPlan::SetLevelAndReorder { level, diagnose }
                    },
                }
            },
        }
    }
}

} // verus!

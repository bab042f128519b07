//! Decisions about a single block column: whether it offers a respawn
//! position, and at which height a spawn settles. Each is a state machine
//! that says what it needs to know about the world next; the caller looks it
//! up and hands the answer back.

use vstd::prelude::*;
use crate::math::{BlockPos, Vector3};

verus! {

/// The column being searched and the world it stands in.
#[derive(Clone, Copy, Debug, PartialEq, Eq, Structural)]
pub struct ColumnSite {
    pub x: i32,
    pub z: i32,
    /// The lowest block height of the world.
    pub bottom_y: i32,
    /// Whether the dimension has a ceiling (as the nether does).
    pub has_ceiling: bool,
}

/// What the search for a respawn position in a column needs to know next.
#[derive(Clone, Copy, Debug, PartialEq, Eq, Structural)]
pub enum ColumnSearch {
    /// The motion-blocking heightmap height of the column.
    TopHeight,
    /// The world-surface heightmap height of the column; `top` is the highest
    /// block the search starts from.
    SurfaceHeight { top: i32 },
    /// Whether the block at `y` blocks movement, looking down from just below
    /// `surface` for the ocean floor.
    OceanFloor { top: i32, surface: i32, y: i32 },
    /// Whether there is a fluid at `y`.
    Fluid { y: i32 },
    /// Whether the top face of the block at `y` is solid.
    SolidTop { y: i32 },
}

/// The outcome of one step of the search for a respawn position.
#[derive(Clone, Copy, Debug, PartialEq, Eq, Structural)]
pub enum ColumnStep {
    Ask(ColumnSearch),
    /// Players respawn standing at this block.
    Found(BlockPos),
    /// The column offers no respawn position.
    Refused,
}

/// The highest top from which the scan's start, one above it, is an `i32`.
pub open spec fn top_in_range(top: int) -> bool {
    top <= i32::MAX - 1
}

/// The downward scan for a standing block starts one above the top.
pub open spec fn scan_from_top(top: int) -> ColumnStep {
    ColumnStep::Ask(ColumnSearch::Fluid { y: (top + 1) as i32 })
}

/// The step once the top of the column is known.
pub open spec fn after_top(site: ColumnSite, top: int) -> ColumnStep {
    if top < site.bottom_y {
        ColumnStep::Refused
    } else if !site.has_ceiling {
        ColumnStep::Ask(ColumnSearch::SurfaceHeight { top: top as i32 })
    } else {
        scan_from_top(top)
    }
}

/// The step once the ocean floor below `surface` is known: a column whose
/// surface lies above its ocean floor is under water and refused.
pub open spec fn after_floor(top: int, surface: int, floor: int) -> ColumnStep {
    if surface > floor {
        ColumnStep::Refused
    } else {
        scan_from_top(top)
    }
}

/// The step once the surface height is known: the ocean floor is looked for
/// only when the surface is not above the top.
pub open spec fn after_surface(site: ColumnSite, top: int, surface: int) -> ColumnStep {
    if surface <= top {
        if surface > site.bottom_y {
            ColumnStep::Ask(
                ColumnSearch::OceanFloor { top: top as i32, surface: surface as i32, y: (surface - 1) as i32 },
            )
        } else {
            after_floor(top, surface, site.bottom_y as int)
        }
    } else {
        scan_from_top(top)
    }
}

/// The step after the answer `yes` to the question of `search`.
pub open spec fn after_answer(site: ColumnSite, search: ColumnSearch, yes: bool) -> ColumnStep {
    match search {
        ColumnSearch::OceanFloor { top, surface, y } => {
            if yes {
                after_floor(top as int, surface as int, y + 1)
            } else if y - 1 >= site.bottom_y {
                ColumnStep::Ask(ColumnSearch::OceanFloor { top, surface, y: (y - 1) as i32 })
            } else {
                after_floor(top as int, surface as int, site.bottom_y as int)
            }
        },
        ColumnSearch::Fluid { y } => {
            if yes {
                ColumnStep::Refused
            } else {
                ColumnStep::Ask(ColumnSearch::SolidTop { y })
            }
        },
        ColumnSearch::SolidTop { y } => {
            if yes {
                ColumnStep::Found(BlockPos(Vector3 { x: site.x, y: (y + 1) as i32, z: site.z }))
            } else if y - 1 >= site.bottom_y {
                ColumnStep::Ask(ColumnSearch::Fluid { y: (y - 1) as i32 })
            } else {
                ColumnStep::Refused
            }
        },
        _ => ColumnStep::Refused,
    }
}

/// The questions a search can be asked in, with their heights in range.
pub open spec fn column_search_valid(site: ColumnSite, search: ColumnSearch) -> bool {
    match search {
        ColumnSearch::TopHeight => !site.has_ceiling,
        ColumnSearch::SurfaceHeight { top } => site.bottom_y <= top && top_in_range(top as int)
            && !site.has_ceiling,
        ColumnSearch::OceanFloor { top, surface, y } => site.bottom_y <= y < surface <= top
            && top_in_range(top as int),
        ColumnSearch::Fluid { y } => site.bottom_y <= y,
        ColumnSearch::SolidTop { y } => site.bottom_y <= y,
    }
}

pub open spec fn column_step_valid(site: ColumnSite, step: ColumnStep) -> bool {
    match step {
        ColumnStep::Ask(search) => column_search_valid(site, search),
        _ => true,
    }
}

impl ColumnSearch {
    /// Starts the search of a column. In a dimension with a ceiling the top
    /// is the generator's spawn height; elsewhere it is looked up.
    pub fn start(site: ColumnSite, generator_spawn_height: i32) -> (step: ColumnStep)
        requires
            site.has_ceiling ==> top_in_range(generator_spawn_height as int),
        ensures
            step == (if site.has_ceiling {
                after_top(site, generator_spawn_height as int)
            } else {
                ColumnStep::Ask(ColumnSearch::TopHeight)
            }),
            column_step_valid(site, step),
    {
        if site.has_ceiling {
            Self::top_known(site, generator_spawn_height)
        } else {
            ColumnStep::Ask(ColumnSearch::TopHeight)
        }
    }

    fn top_known(site: ColumnSite, top: i32) -> (step: ColumnStep)
        requires
            top_in_range(top as int),
        ensures
            step == after_top(site, top as int),
            column_step_valid(site, step),
    {
        if top < site.bottom_y {
            ColumnStep::Refused
        } else if !site.has_ceiling {
            ColumnStep::Ask(ColumnSearch::SurfaceHeight { top })
        } else {
            ColumnStep::Ask(ColumnSearch::Fluid { y: top + 1 })
        }
    }

    fn floor_known(site: ColumnSite, top: i32, surface: i32, floor: i32) -> (step: ColumnStep)
        requires
            site.bottom_y <= top,
            top_in_range(top as int),
        ensures
            step == after_floor(top as int, surface as int, floor as int),
            column_step_valid(site, step),
    {
        if surface > floor {
            ColumnStep::Refused
        } else {
            ColumnStep::Ask(ColumnSearch::Fluid { y: top + 1 })
        }
    }

    /// The next step after the heightmap height asked for.
    pub fn on_height(self, site: ColumnSite, height: i32) -> (step: ColumnStep)
        requires
            column_search_valid(site, self),
            self is TopHeight ==> top_in_range(height as int),
            self is TopHeight || self is SurfaceHeight,
        ensures
            step == (match self {
                ColumnSearch::SurfaceHeight { top } => after_surface(site, top as int, height as int),
                _ => after_top(site, height as int),
            }),
            column_step_valid(site, step),
    {
        match self {
            ColumnSearch::SurfaceHeight { top } => {
                if height <= top {
                    if height > site.bottom_y {
                        ColumnStep::Ask(ColumnSearch::OceanFloor { top, surface: height, y: height - 1 })
                    } else {
                        Self::floor_known(site, top, height, site.bottom_y)
                    }
                } else {
                    ColumnStep::Ask(ColumnSearch::Fluid { y: top + 1 })
                }
            },
            _ => Self::top_known(site, height),
        }
    }

    /// The next step after the yes-or-no answer to the question asked:
    /// whether the block blocks movement, whether there is fluid, or whether
    /// the block's top face is solid.
    pub fn on_answer(self, site: ColumnSite, yes: bool) -> (step: ColumnStep)
        requires
            column_search_valid(site, self),
            !(self is TopHeight || self is SurfaceHeight),
            !(self == (ColumnSearch::SolidTop { y: i32::MAX }) && yes),
        ensures
            step == after_answer(site, self, yes),
            column_step_valid(site, step),
    {
        match self {
            ColumnSearch::OceanFloor { top, surface, y } => {
                if yes {
                    Self::floor_known(site, top, surface, y + 1)
                } else if y > site.bottom_y {
                    ColumnStep::Ask(ColumnSearch::OceanFloor { top, surface, y: y - 1 })
                } else {
                    Self::floor_known(site, top, surface, site.bottom_y)
                }
            },
            ColumnSearch::Fluid { y } => {
                if yes {
                    ColumnStep::Refused
                } else {
                    ColumnStep::Ask(ColumnSearch::SolidTop { y })
                }
            },
            ColumnSearch::SolidTop { y } => {
                if yes {
                    ColumnStep::Found(BlockPos::new(site.x, y + 1, site.z))
                } else if y > site.bottom_y {
                    ColumnStep::Ask(ColumnSearch::Fluid { y: y - 1 })
                } else {
                    ColumnStep::Refused
                }
            },
            _ => ColumnStep::Refused,
        }
    }
}

/// A bound on the questions still to come once the top of a column is known.
pub open spec fn column_measure(site: ColumnSite, search: ColumnSearch) -> int {
    match search {
        ColumnSearch::TopHeight => 0,
        ColumnSearch::SurfaceHeight { top } => 3 * (top - site.bottom_y) + 5,
        ColumnSearch::OceanFloor { top, y, .. } => 2 * (top - site.bottom_y) + 4 + (y - site.bottom_y),
        ColumnSearch::Fluid { y } => 2 * (y - site.bottom_y) + 1,
        ColumnSearch::SolidTop { y } => 2 * (y - site.bottom_y),
    }
}

/// The search of a column ends: once the top is known, every answer either
/// ends the search or leads to a question whose bound is smaller and still
/// non-negative.
pub proof fn column_search_terminates(site: ColumnSite, search: ColumnSearch, height: i32, yes: bool)
    requires
        column_search_valid(site, search),
        !(search is TopHeight),
    ensures
        column_measure(site, search) >= 0,
        search is SurfaceHeight ==> match after_surface(site, search->SurfaceHeight_top as int, height as int) {
            ColumnStep::Ask(next) => 0 <= column_measure(site, next) < column_measure(site, search),
            _ => true,
        },
        !(search is SurfaceHeight) ==> match after_answer(site, search, yes) {
            ColumnStep::Ask(next) => 0 <= column_measure(site, next) < column_measure(site, search),
            _ => true,
        },
{
}

/// Under water the search gives up: once a block below the surface has been
/// found open to movement, whatever the blocks further down, the column ends
/// up refused and its standing blocks are never looked at.
pub proof fn open_block_below_surface_refuses(site: ColumnSite, search: ColumnSearch, yes: bool)
    requires
        column_search_valid(site, search),
        search matches ColumnSearch::OceanFloor { surface, y, .. } && y < surface - 1,
    ensures
        match after_answer(site, search, yes) {
            ColumnStep::Ask(next) => next matches ColumnSearch::OceanFloor { y: y2, .. } && y2
                == search->OceanFloor_y - 1,
            ColumnStep::Refused => true,
            ColumnStep::Found(_) => false,
        },
{
}

/// The block right below the surface decides whether a column whose surface
/// is not above its top is searched for a standing block: when it blocks
/// movement the scan starts at once.
pub proof fn blocking_block_below_surface_scans(site: ColumnSite, search: ColumnSearch)
    requires
        column_search_valid(site, search),
        search matches ColumnSearch::OceanFloor { surface, y, .. } && y == surface - 1,
    ensures
        after_answer(site, search, true) == scan_from_top(search->OceanFloor_top as int),
{
}

/// Where players settle when placed at a height: the search first rises
/// through occupied positions, then sinks through free ones.
#[derive(Clone, Copy, Debug, PartialEq, Eq, Structural)]
pub enum HeightFixup {
    /// Asking whether the position at `y` is free (no collision, no liquid)
    /// while rising.
    Rising { y: i32 },
    /// Asking whether the position at `y` is free while sinking.
    Sinking { y: i32 },
}

/// The outcome of one step of the height fixup.
#[derive(Clone, Copy, Debug, PartialEq, Eq, Structural)]
pub enum FixupStep {
    Probe(HeightFixup),
    /// Players stand at this height.
    Settled(i32),
}

/// Sinking resumes from `y` while it is above the bottom.
pub open spec fn sink_from(bottom_y: int, y: int) -> FixupStep {
    if y > bottom_y {
        FixupStep::Probe(HeightFixup::Sinking { y: y as i32 })
    } else {
        FixupStep::Settled((y + 1) as i32)
    }
}

/// The step after learning whether the probed position is free.
pub open spec fn after_probe(fixup: HeightFixup, bottom_y: int, top_y: int, free: bool) -> FixupStep {
    match fixup {
        HeightFixup::Rising { y } => {
            if !free && y < top_y {
                FixupStep::Probe(HeightFixup::Rising { y: (y + 1) as i32 })
            } else {
                sink_from(bottom_y, y - 1)
            }
        },
        HeightFixup::Sinking { y } => {
            if free {
                sink_from(bottom_y, y - 1)
            } else {
                FixupStep::Settled((y + 1) as i32)
            }
        },
    }
}

pub open spec fn fixup_valid(fixup: HeightFixup, bottom_y: int) -> bool {
    match fixup {
        HeightFixup::Rising { y } => true,
        HeightFixup::Sinking { y } => bottom_y < y < i32::MAX,
    }
}

impl HeightFixup {
    /// Starts at the suggested height.
    pub fn start(spawn_y: i32) -> (fixup: Self)
        ensures
            fixup == (HeightFixup::Rising { y: spawn_y }),
    {
        HeightFixup::Rising { y: spawn_y }
    }

    /// The next step after learning whether the probed position is free.
    pub fn on_probe(self, bottom_y: i32, top_y: i32, free: bool) -> (step: FixupStep)
        requires
            fixup_valid(self, bottom_y as int),
            self == (HeightFixup::Rising { y: i32::MIN }) ==> !free && i32::MIN < top_y,
        ensures
            step == after_probe(self, bottom_y as int, top_y as int, free),
            step matches FixupStep::Probe(next) ==> fixup_valid(next, bottom_y as int),
    {
        match self {
            HeightFixup::Rising { y } => {
                if !free && y < top_y {
                    FixupStep::Probe(HeightFixup::Rising { y: y + 1 })
                } else {
                    let y = y - 1;
                    if y > bottom_y {
                        FixupStep::Probe(HeightFixup::Sinking { y })
                    } else {
                        FixupStep::Settled(y + 1)
                    }
                }
            },
            HeightFixup::Sinking { y } => {
                if free {
                    let y = y - 1;
                    if y > bottom_y {
                        FixupStep::Probe(HeightFixup::Sinking { y })
                    } else {
                        FixupStep::Settled(y + 1)
                    }
                } else {
                    FixupStep::Settled(y + 1)
                }
            },
        }
    }
}

/// A bound on the probes still to come in a height fixup.
pub open spec fn fixup_measure(fixup: HeightFixup, bottom_y: int, top_y: int) -> int {
    match fixup {
        HeightFixup::Rising { y } => if y < top_y {
            2 * (top_y - y) + (y - bottom_y) + 1
        } else {
            y - bottom_y + 1
        },
        HeightFixup::Sinking { y } => y - bottom_y,
    }
}

/// A height fixup ends: in a world whose bottom is not above its top, each
/// probe either settles or leads to a probe with a smaller, non-negative
/// bound.
pub proof fn height_fixup_terminates(fixup: HeightFixup, bottom_y: int, top_y: int, free: bool)
    requires
        i32::MIN <= bottom_y <= top_y <= i32::MAX,
        fixup_valid(fixup, bottom_y),
    ensures
        fixup_measure(fixup, bottom_y, top_y) > 0,
        after_probe(fixup, bottom_y, top_y, free) matches FixupStep::Probe(next) ==> 0
            < fixup_measure(next, bottom_y, top_y) < fixup_measure(fixup, bottom_y, top_y),
{
}

/// Players settle on a floor: sinking stops at the first position found
/// occupied, settling right above it, and never below one above the bottom.
pub proof fn height_fixup_settles_above_floor(fixup: HeightFixup, bottom_y: int, top_y: int, free: bool)
    requires
        i32::MIN <= bottom_y <= i32::MAX,
        fixup_valid(fixup, bottom_y),
        fixup is Sinking,
    ensures
        after_probe(fixup, bottom_y, top_y, free) matches FixupStep::Settled(r) ==> r > bottom_y && (
        !free ==> r == fixup->Sinking_y + 1) && (free ==> r == bottom_y + 1),
{
}

/// While rising, an occupied position below the top leads to a probe of the
/// position exactly one block higher: no position is skipped.
pub proof fn rising_probes_next_block(y: i32, bottom_y: int, top_y: int)
    requires
        y < top_y <= i32::MAX,
    ensures
        after_probe(HeightFixup::Rising { y }, bottom_y, top_y, false) == FixupStep::Probe(
            HeightFixup::Rising { y: (y + 1) as i32 },
        ),
        (y + 1) as i32 == y + 1,
{
}

/// The height a fixup settles at when every probe of a position `y` is
/// answered by `free(y)`, within `fuel` probes; `None` when it needs more.
pub open spec fn fixup_run(
    fixup: HeightFixup,
    bottom_y: int,
    top_y: int,
    free: spec_fn(int) -> bool,
    fuel: nat,
) -> Option<int>
    decreases fuel,
{
    if fuel == 0 {
        None
    } else {
        let y = match fixup {
            HeightFixup::Rising { y } => y,
            HeightFixup::Sinking { y } => y,
        };
        match after_probe(fixup, bottom_y, top_y, free(y as int)) {
            FixupStep::Settled(h) => Some(h as int),
            FixupStep::Probe(next) => fixup_run(next, bottom_y, top_y, free, (fuel - 1) as nat),
        }
    }
}

proof fn lemma_sinking_run(y: int, bottom_y: int, top_y: int, free: spec_fn(int) -> bool, fuel: nat)
    requires
        i32::MIN <= bottom_y < y < i32::MAX,
        fuel >= y - bottom_y,
    ensures
        fixup_run(HeightFixup::Sinking { y: y as i32 }, bottom_y, top_y, free, fuel) matches Some(h)
            && bottom_y < h <= y + 1 && (forall|z: int| h <= z <= y ==> #[trigger] free(z)) && (h - 1
            <= bottom_y || !free(h - 1)),
    decreases y - bottom_y,
{
    if free(y) && y - 1 > bottom_y {
        lemma_sinking_run(y - 1, bottom_y, top_y, free, (fuel - 1) as nat);
        let h = fixup_run(HeightFixup::Sinking { y: (y - 1) as i32 }, bottom_y, top_y, free, (fuel - 1) as nat)->0;
        assert forall|z: int| h <= z <= y implies #[trigger] free(z) by {
            if z < y {
                assert(h <= z <= y - 1);
            }
        }
    }
}

proof fn lemma_rising_run(
    start: int,
    y: int,
    bottom_y: int,
    top_y: int,
    free: spec_fn(int) -> bool,
    fuel: nat,
) -> (f: int)
    requires
        i32::MIN <= bottom_y <= top_y <= i32::MAX,
        i32::MIN <= start <= y <= i32::MAX,
        forall|z: int| start <= z < y ==> !#[trigger] free(z) && z < top_y,
        fuel >= fixup_measure(HeightFixup::Rising { y: y as i32 }, bottom_y, top_y),
    ensures
        start <= f,
        forall|z: int| start <= z < f ==> !#[trigger] free(z) && z < top_y,
        free(f) || f >= top_y,
        fixup_run(HeightFixup::Rising { y: y as i32 }, bottom_y, top_y, free, fuel) matches Some(h)
            && h <= f && (h > bottom_y || h == f) && (forall|z: int| h <= z < f ==> #[trigger] free(z))
            && (h - 1 <= bottom_y || !free(h - 1)),
    decreases fuel,
{
    if !free(y) && y < top_y {
        let f = lemma_rising_run(start, y + 1, bottom_y, top_y, free, (fuel - 1) as nat);
        f
    } else {
        if y - 1 > bottom_y {
            lemma_sinking_run(y - 1, bottom_y, top_y, free, (fuel - 1) as nat);
        }
        y
    }
}

/// Where a fixup from `start` settles, every probe of a position `y` being
/// answered by `free(y)`. It rises one block at a time through the occupied
/// positions below the top, up to the first position `f` at or above the
/// start that is free or at the top, skipping none; then it sinks through
/// the free positions below `f`, settling right above the first occupied one
/// or one above the bottom. So when the start is occupied the players stand at
/// `f`, the first free position above it, and when it is free they drop to the
/// floor beneath it. The fixup always settles within its probe bound.
pub proof fn height_fixup_settles_at_first_free_then_floor(
    start: i32,
    bottom_y: int,
    top_y: int,
    free: spec_fn(int) -> bool,
)
    requires
        i32::MIN <= bottom_y <= top_y <= i32::MAX,
    ensures
        fixup_run(
            HeightFixup::Rising { y: start },
            bottom_y,
            top_y,
            free,
            fixup_measure(HeightFixup::Rising { y: start }, bottom_y, top_y) as nat,
        ) matches Some(h) && exists|f: int|
            #![trigger free(f)]
            start <= f && (forall|z: int| start <= z < f ==> !#[trigger] free(z) && z < top_y) && (free(f)
                || f >= top_y) && h <= f && (h > bottom_y || h == f) && (forall|z: int|
                h <= z < f ==> #[trigger] free(z)) && (h - 1 <= bottom_y || !free(h - 1)),
        !free(start as int) && start < top_y ==> (fixup_run(
            HeightFixup::Rising { y: start },
            bottom_y,
            top_y,
            free,
            fixup_measure(HeightFixup::Rising { y: start }, bottom_y, top_y) as nat,
        ) matches Some(h) && h > start && !free(h - 1) && (free(h) || h == top_y)),
{
    let fuel = fixup_measure(HeightFixup::Rising { y: start }, bottom_y, top_y) as nat;
    let f = lemma_rising_run(start as int, start as int, bottom_y, top_y, free, fuel);
    assert((start as int) as i32 == start);
    let h = fixup_run(HeightFixup::Rising { y: start }, bottom_y, top_y, free, fuel)->0;
    assert(free(f) || f >= top_y);
    if !free(start as int) && start < top_y {
        assert(f > start);
        if h < f {
            assert(free(f - 1));
            assert(!free(f - 1));
        }
        assert(h == f);
        assert(!free(f - 1));
    }
}

} // verus!

use pumpkin_spawn::column::{ColumnSearch, ColumnSite, ColumnStep, FixupStep, HeightFixup};
use pumpkin_spawn::math::BlockPos;

/// A column described by its heights and blocks, answering the search.
struct Column {
    motion_blocking: i32,
    surface: i32,
    blocks_movement: Vec<i32>,
    fluid: Vec<i32>,
    solid: Vec<i32>,
}

fn run(site: ColumnSite, spawn_height: i32, column: &Column) -> (ColumnStep, usize) {
    let mut step = ColumnSearch::start(site, spawn_height);
    let mut questions = 0;
    while let ColumnStep::Ask(search) = step {
        questions += 1;
        step = match search {
            ColumnSearch::TopHeight => search.on_height(site, column.motion_blocking),
            ColumnSearch::SurfaceHeight { .. } => search.on_height(site, column.surface),
            ColumnSearch::OceanFloor { y, .. } => {
                search.on_answer(site, column.blocks_movement.contains(&y))
            }
            ColumnSearch::Fluid { y } => search.on_answer(site, column.fluid.contains(&y)),
            ColumnSearch::SolidTop { y } => search.on_answer(site, column.solid.contains(&y)),
        };
    }
    (step, questions)
}

fn overworld_site() -> ColumnSite {
    ColumnSite { x: 3, z: -7, bottom_y: -64, has_ceiling: false }
}

#[test]
fn dry_land_gives_position_above_the_ground() {
    let column = Column {
        motion_blocking: 70,
        surface: 70,
        blocks_movement: vec![69],
        fluid: vec![],
        solid: vec![69],
    };
    let (step, _) = run(overworld_site(), 0, &column);
    assert_eq!(step, ColumnStep::Found(BlockPos::new(3, 70, -7)));
}

#[test]
fn ocean_column_is_refused() {
    // water from 40 to 62: the surface is above the ocean floor
    let column = Column {
        motion_blocking: 63,
        surface: 63,
        blocks_movement: vec![39],
        fluid: (40..63).collect(),
        solid: vec![39],
    };
    let (step, _) = run(overworld_site(), 0, &column);
    assert_eq!(step, ColumnStep::Refused);
}

#[test]
fn fluid_above_ground_stops_the_scan() {
    let column = Column {
        motion_blocking: 60,
        surface: 65,
        blocks_movement: vec![],
        fluid: vec![61],
        solid: vec![59],
    };
    let (step, questions) = run(overworld_site(), 0, &column);
    assert_eq!(step, ColumnStep::Refused);
    assert_eq!(questions, 3);
}

#[test]
fn column_below_the_world_is_refused() {
    let column = Column {
        motion_blocking: -70,
        surface: -70,
        blocks_movement: vec![],
        fluid: vec![],
        solid: vec![],
    };
    assert_eq!(run(overworld_site(), 0, &column).0, ColumnStep::Refused);
}

#[test]
fn ceiling_dimension_starts_at_generator_height() {
    let site = ColumnSite { x: 0, z: 0, bottom_y: 0, has_ceiling: true };
    assert_eq!(ColumnSearch::start(site, 100), ColumnStep::Ask(ColumnSearch::Fluid { y: 101 }));
    let column = Column {
        motion_blocking: 0,
        surface: 0,
        blocks_movement: vec![],
        fluid: vec![],
        solid: vec![31],
    };
    assert_eq!(run(site, 100, &column).0, ColumnStep::Found(BlockPos::new(0, 32, 0)));
}

#[test]
fn empty_column_is_refused_at_the_bottom() {
    let site = ColumnSite { x: 0, z: 0, bottom_y: 0, has_ceiling: true };
    let column = Column {
        motion_blocking: 0,
        surface: 0,
        blocks_movement: vec![],
        fluid: vec![],
        solid: vec![],
    };
    let (step, questions) = run(site, 3, &column);
    assert_eq!(step, ColumnStep::Refused);
    // fluid and top face asked for heights 4 down to 0
    assert_eq!(questions, 10);
}

fn fixup(start: i32, bottom: i32, top: i32, free: impl Fn(i32) -> bool) -> i32 {
    let mut fixup = HeightFixup::start(start);
    loop {
        let y = match fixup {
            HeightFixup::Rising { y } | HeightFixup::Sinking { y } => y,
        };
        match fixup.on_probe(bottom, top, free(y)) {
            FixupStep::Probe(next) => fixup = next,
            FixupStep::Settled(y) => return y,
        }
    }
}

#[test]
fn fixup_rises_out_of_the_ground_then_sinks_to_the_floor() {
    // solid up to 63, free above
    assert_eq!(fixup(50, -64, 320, |y| y >= 64), 64);
    // floating start sinks down to the floor
    assert_eq!(fixup(100, -64, 320, |y| y >= 64), 64);
    // a cave: free from 30 to 40
    assert_eq!(fixup(35, -64, 320, |y| (30..=40).contains(&y)), 30);
}

#[test]
fn fixup_stops_at_world_limits() {
    // nothing free: rises to the top, settles there
    assert_eq!(fixup(0, 0, 10, |_| false), 10);
    // everything free: sinks to one above the bottom
    assert_eq!(fixup(5, 0, 10, |_| true), 1);
}

#[test]
fn top_just_below_the_limit_is_searched() {
    let site = ColumnSite { x: 0, z: 0, bottom_y: 0, has_ceiling: true };
    assert_eq!(
        ColumnSearch::start(site, i32::MAX - 1),
        ColumnStep::Ask(ColumnSearch::Fluid { y: i32::MAX })
    );
    let step = ColumnSearch::Fluid { y: i32::MAX }.on_answer(site, false);
    assert_eq!(step, ColumnStep::Ask(ColumnSearch::SolidTop { y: i32::MAX }));
    let step = ColumnSearch::SolidTop { y: i32::MAX }.on_answer(site, false);
    assert_eq!(step, ColumnStep::Ask(ColumnSearch::Fluid { y: i32::MAX - 1 }));
}

#[test]
fn fixup_rises_from_the_lowest_height() {
    assert_eq!(fixup(i32::MIN, -64, 320, |y| y >= 64), 64);
}

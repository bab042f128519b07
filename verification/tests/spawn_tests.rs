use pumpkin_spawn::math::{BlockPos, Vector2};
use pumpkin_spawn::spawn::respawn::{
    candidate_position, get_coprime, respawn_candidate_count, respawn_candidate_targets,
    respawn_candidates_fit, respawn_search_radius,
};
use pumpkin_spawn::spawn::search::FirstFound;
use pumpkin_spawn::spawn::spiral::{
    block_to_chunk, chunk_center, chunk_columns, initial_spawn_chunks, spiral_offsets,
};
use pumpkin_spawn::spawn::{
    default_gamemode, initial_spawn_start, respawn_search_applies, DefaultSpawnCheck, GameMode,
    InitialSpawnResult, InitialSpawnStart,
};
use pumpkin_spawn::world_info::RespawnData;
use std::collections::HashSet;

#[test]
fn spiral_offsets_match_vanilla_order() {
    let expected = vec![
        Vector2::new(0, 0),
        Vector2::new(1, 0),
        Vector2::new(1, 1),
        Vector2::new(0, 1),
        Vector2::new(-1, 1),
        Vector2::new(-1, 0),
        Vector2::new(-1, -1),
        Vector2::new(0, -1),
        Vector2::new(1, -1),
        Vector2::new(2, -1),
        Vector2::new(2, 0),
        Vector2::new(2, 1),
    ];

    assert_eq!(spiral_offsets(11)[..expected.len()], expected);
}

#[test]
fn respawn_candidate_permutation_matches_vanilla_math() {
    let spawn = BlockPos::new(100, 64, -20);
    let radius = 2;
    let candidate_count = ((radius * 2 + 1) * (radius * 2 + 1)).min(1024);
    let coprime = get_coprime(candidate_count);
    let offset = 7;
    let expected = vec![(100, -21), (102, -18), (99, -19), (101, -21), (98, -22)];

    let actual = (0..expected.len() as i32)
        .map(|index| candidate_position(spawn, radius, offset, coprime, index))
        .collect::<Vec<_>>();

    assert_eq!(actual, expected);
}

#[test]
fn get_coprime_small_and_large_windows() {
    assert_eq!(get_coprime(1), 0);
    assert_eq!(get_coprime(9), 8);
    assert_eq!(get_coprime(16), 15);
    assert_eq!(get_coprime(17), 17);
    assert_eq!(get_coprime(1024), 17);
}

#[test]
fn candidate_count_is_capped() {
    assert_eq!(respawn_candidate_count(0), 1);
    assert_eq!(respawn_candidate_count(1), 9);
    assert_eq!(respawn_candidate_count(15), 961);
    assert_eq!(respawn_candidate_count(16), 1024);
    assert_eq!(respawn_candidate_count(1000), 1024);
}

#[test]
fn search_radius_rules() {
    // the game rule, when the border is far
    assert_eq!(respawn_search_radius(10, 1000), 10);
    // a negative rule counts as 0
    assert_eq!(respawn_search_radius(-5, 1000), 0);
    // never beyond the border
    assert_eq!(respawn_search_radius(10, 4), 4);
    // 1 when the border is at most one block away
    assert_eq!(respawn_search_radius(10, 1), 1);
    assert_eq!(respawn_search_radius(0, -7), 1);
}

fn every_cell_once(spawn: BlockPos, radius: i32) {
    let targets = respawn_candidate_targets(spawn, radius);
    let side = (2 * radius + 1) as usize;
    assert_eq!(targets.len(), side * side);
    let distinct: HashSet<(i32, i32)> = targets.iter().copied().collect();
    assert_eq!(distinct.len(), targets.len());
    for (x, z) in targets {
        assert!((x - spawn.0.x).abs() <= radius);
        assert!((z - spawn.0.z).abs() <= radius);
    }
}

#[test]
fn respawn_candidates_visit_every_cell_once() {
    for radius in [0, 1, 2, 5, 7, 9, 15] {
        every_cell_once(BlockPos::new(-40, 70, 300), radius);
    }
}

#[test]
fn respawn_candidates_repeat_at_radius_eight() {
    // 17 divides the window of 289 cells, so the walk closes after 17 steps
    let spawn = BlockPos::new(0, 64, 0);
    let targets = respawn_candidate_targets(spawn, 8);
    assert_eq!(targets.len(), 289);
    let distinct: HashSet<(i32, i32)> = targets.iter().copied().collect();
    assert_eq!(distinct.len(), 17);
    assert_eq!(targets[0], targets[17]);
}

#[test]
fn respawn_candidates_large_radius_are_distinct() {
    let spawn = BlockPos::new(5, 64, 5);
    let targets = respawn_candidate_targets(spawn, 20);
    assert_eq!(targets.len(), 1024);
    let distinct: HashSet<(i32, i32)> = targets.iter().copied().collect();
    assert_eq!(distinct.len(), 1024);
}

#[test]
fn respawn_candidates_start_at_a_random_offset_in_the_window() {
    let spawn = BlockPos::new(0, 64, 0);
    let targets = respawn_candidate_targets(spawn, 2);
    // the first candidate is the window cell of the offset drawn
    let first = targets[0];
    let value = (first.1 + 2) * 5 + (first.0 + 2);
    assert!((0..25).contains(&value));
    for (index, target) in targets.iter().enumerate() {
        assert_eq!(*target, candidate_position(spawn, 2, value, 17, index as i32));
    }
}

#[test]
fn spiral_fills_the_square() {
    let offsets = spiral_offsets(11);
    assert_eq!(offsets.len(), 121);
    let distinct: HashSet<(i32, i32)> = offsets.iter().map(|v| (v.x, v.y)).collect();
    assert_eq!(distinct.len(), 121);
    for pair in offsets.windows(2) {
        assert_eq!((pair[0].x - pair[1].x).abs() + (pair[0].y - pair[1].y).abs(), 1);
    }
    assert!(offsets.iter().all(|v| v.x.abs() <= 5 && v.y.abs() <= 5));
    assert!(spiral_offsets(0).is_empty());
    assert_eq!(spiral_offsets(-3).len(), 9);
}

#[test]
fn initial_spawn_chunks_surround_climate_chunk() {
    let chunks = initial_spawn_chunks(Vector2::new(10, -3));
    assert_eq!(chunks.len(), 121);
    assert_eq!(chunks[0], Vector2::new(10, -3));
    assert_eq!(chunks[1], Vector2::new(11, -3));
    assert_eq!(chunks[120], Vector2::new(15, -8));
}

#[test]
fn chunk_helpers() {
    assert_eq!(block_to_chunk(0), 0);
    assert_eq!(block_to_chunk(15), 0);
    assert_eq!(block_to_chunk(16), 1);
    assert_eq!(block_to_chunk(-1), -1);
    assert_eq!(block_to_chunk(-16), -1);
    assert_eq!(block_to_chunk(-17), -2);
    assert_eq!(chunk_center(Vector2::new(1, -2)), (24, -24));
    let columns = chunk_columns(Vector2::new(-1, 2));
    assert_eq!(columns.len(), 256);
    assert_eq!(columns[0], (-16, 32));
    assert_eq!(columns[1], (-16, 33));
    assert_eq!(columns[16], (-15, 32));
    assert_eq!(columns[255], (-1, 47));
}

#[test]
fn initial_spawn_start_and_result() {
    assert_eq!(
        initial_spawn_start(Vector2::new(2, 3), 64, -64),
        InitialSpawnStart::At(BlockPos::new(40, 64, 56))
    );
    assert_eq!(
        initial_spawn_start(Vector2::new(2, 3), -100, -64),
        InitialSpawnStart::NeedsSurfaceHeightAt { x: 40, z: 56 }
    );
    let start = BlockPos::new(40, 64, 56);
    let found = BlockPos::new(41, 70, 57);
    assert_eq!(InitialSpawnResult::new(Vector2::new(2, 3), start, Some(found)).spawn, found);
    assert_eq!(InitialSpawnResult::new(Vector2::new(2, 3), start, None).spawn, start);
}

#[test]
fn default_spawn_kept_inside_border_and_moved_outside() {
    let stored = RespawnData::overworld(BlockPos::new(5, 70, 5));
    let kept = DefaultSpawnCheck::check(stored.clone(), true, 0, 0).resolve(99);
    assert_eq!(kept, stored);
    let check = DefaultSpawnCheck::check(stored.clone(), false, 100, -100);
    assert_eq!(
        check,
        DefaultSpawnCheck::NeedsHeightAt { stored: stored.clone(), x: 100, z: -100 }
    );
    let moved = check.resolve(63);
    assert_eq!(moved.pos, BlockPos::new(100, 63, -100));
    assert_eq!(moved.dimension, "minecraft:overworld");
}

#[test]
fn gamemode_and_search_choice() {
    assert_eq!(default_gamemode(None), GameMode::Survival);
    assert_eq!(default_gamemode(Some(GameMode::Creative)), GameMode::Creative);
    assert!(respawn_search_applies(true, GameMode::Survival));
    assert!(!respawn_search_applies(true, GameMode::Adventure));
    assert!(!respawn_search_applies(false, GameMode::Survival));
}

#[test]
fn candidates_fit_bounds() {
    assert!(respawn_candidates_fit(BlockPos::new(0, 64, 0), 10));
    assert!(!respawn_candidates_fit(BlockPos::new(0, 64, 0), -1));
    assert!(!respawn_candidates_fit(BlockPos::new(0, 64, 0), 23170));
    // at radius 16 the window of 1024 cells reaches 32 columns east and 31 rows south
    assert!(respawn_candidates_fit(BlockPos::new(i32::MAX - 32, 64, i32::MAX - 31), 16));
    assert!(!respawn_candidates_fit(BlockPos::new(i32::MAX - 31, 64, 0), 16));
    assert!(!respawn_candidates_fit(BlockPos::new(0, 64, i32::MAX - 30), 16));
    assert!(!respawn_candidates_fit(BlockPos::new(i32::MIN + 15, 64, 0), 16));
    let targets = respawn_candidate_targets(BlockPos::new(i32::MAX - 32, 64, i32::MAX - 31), 16);
    assert_eq!(targets.len(), 1024);
}

#[test]
fn first_found_stops_at_the_first_position() {
    let mut search = FirstFound::new(vec![10, 20, 30, 40]);
    let mut asked = vec![];
    while let Some(c) = search.next() {
        asked.push(c);
        search.report(if c >= 30 { Some(BlockPos::new(c, 0, 0)) } else { None });
    }
    assert_eq!(asked, vec![10, 20, 30]);
    assert_eq!(search.outcome(), Some(BlockPos::new(30, 0, 0)));
    let mut none = FirstFound::new(vec![1, 2]);
    while let Some(_) = none.next() {
        none.report(None);
    }
    assert_eq!(none.outcome(), None);
}

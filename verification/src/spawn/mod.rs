//! Choosing where players spawn: the initial spawn of a new world, the
//! default spawn kept inside the world border, and the respawn search around
//! it. The searches themselves look blocks up in the world; the decisions
//! they make are here and in `crate::column`.

pub mod respawn;
pub mod search;
pub mod spiral;

use vstd::prelude::*;
use crate::math::{BlockPos, Vector2};
use crate::world_info::RespawnData;
use crate::spawn::spiral::{chunk_center, chunk_min_block};

verus! {

/// The game mode of a player.
#[derive(Clone, Copy, Debug, PartialEq, Eq, Structural)]
pub enum GameMode {
    Survival,
    Creative,
    Adventure,
    Spectator,
}

/// The default game mode of new players: the server's, or survival when the
/// server is gone.
pub fn default_gamemode(server_default: Option<GameMode>) -> (mode: GameMode)
    ensures
        mode == (match server_default {
            Some(m) => m,
            None => GameMode::Survival,
        }),
{
    match server_default {
        Some(mode) => mode,
        None => GameMode::Survival,
    }
}

/// Whether a respawn position is searched for around the world spawn; in a
/// dimension without skylight, or when players default to adventure mode,
/// they are placed at the world spawn itself.
pub fn respawn_search_applies(has_skylight: bool, default_mode: GameMode) -> (applies: bool)
    ensures
        applies == (has_skylight && default_mode != GameMode::Adventure),
{
    has_skylight && !matches!(default_mode, GameMode::Adventure)
}

/// What the default spawn needs once checked against the world border.
#[derive(Clone, Debug, PartialEq)]
pub enum DefaultSpawnCheck {
    /// The stored spawn lies inside the border and is used as it is.
    Keep(RespawnData),
    /// The stored spawn lies outside the border; it moves to the border's
    /// centre column, at the height of the motion-blocking heightmap there.
    NeedsHeightAt { stored: RespawnData, x: i32, z: i32 },
}

impl DefaultSpawnCheck {
    /// Checks the stored default spawn against the world border.
    pub fn check(stored: RespawnData, border_contains_spawn: bool, border_center_x: i32, border_center_z: i32) -> (c: Self)
        ensures
            border_contains_spawn ==> c == DefaultSpawnCheck::Keep(stored),
            !border_contains_spawn ==> c == (DefaultSpawnCheck::NeedsHeightAt {
                stored: stored,
                x: border_center_x,
                z: border_center_z,
            }),
    {
        if border_contains_spawn {
            DefaultSpawnCheck::Keep(stored)
        } else {
            DefaultSpawnCheck::NeedsHeightAt { stored, x: border_center_x, z: border_center_z }
        }
    }

    /// The effective default spawn, given the height at the border's centre
    /// when it was needed.
    pub fn resolve(self, height: i32) -> (spawn: RespawnData)
        ensures
            self matches DefaultSpawnCheck::Keep(stored) ==> spawn == stored,
            self matches DefaultSpawnCheck::NeedsHeightAt { stored, x, z } ==> {
                &&& spawn.dimension == stored.dimension
                &&& spawn.yaw_bits == stored.yaw_bits
                &&& spawn.pitch_bits == stored.pitch_bits
                &&& spawn.pos == BlockPos(crate::math::Vector3 { x: x, y: height, z: z })
            },
    {
        match self {
            DefaultSpawnCheck::Keep(stored) => stored,
            DefaultSpawnCheck::NeedsHeightAt { stored, x, z } => stored.with_pos(BlockPos::new(x, height, z)),
        }
    }
}

/// The outcome of choosing the initial spawn of a new world.
#[derive(Clone, Copy, Debug, PartialEq, Eq, Structural)]
pub struct InitialSpawnResult {
    /// The chunk the climate search chose.
    pub climate_chunk: Vector2,
    pub spawn: BlockPos,
}

/// Where the initial spawn starts out, before any chunk is searched.
#[derive(Clone, Copy, Debug, PartialEq, Eq, Structural)]
pub enum InitialSpawnStart {
    /// At this block.
    At(BlockPos),
    /// At the centre column of the climate chunk, at the height of the
    /// world-surface heightmap there, because the generator's spawn height
    /// lies below the world.
    NeedsSurfaceHeightAt { x: i32, z: i32 },
}

/// Where the initial spawn starts out: the centre column of the climate
/// chunk at the generator's spawn height, unless that lies below the bottom
/// of the world.
pub fn initial_spawn_start(climate_chunk: Vector2, generator_spawn_height: i32, bottom_y: i32) -> (start: InitialSpawnStart)
    requires
        chunk_min_block(climate_chunk.x) <= i32::MAX - 8,
        chunk_min_block(climate_chunk.y) <= i32::MAX - 8,
    ensures
        generator_spawn_height >= bottom_y ==> start == InitialSpawnStart::At(
            BlockPos(
                crate::math::Vector3 {
                    x: (chunk_min_block(climate_chunk.x) + 8) as i32,
                    y: generator_spawn_height,
                    z: (chunk_min_block(climate_chunk.y) + 8) as i32,
                },
            ),
        ),
        generator_spawn_height < bottom_y ==> start == (InitialSpawnStart::NeedsSurfaceHeightAt {
            x: (chunk_min_block(climate_chunk.x) + 8) as i32,
            z: (chunk_min_block(climate_chunk.y) + 8) as i32,
        }),
{
    let (center_x, center_z) = chunk_center(climate_chunk);
    if generator_spawn_height < bottom_y {
        InitialSpawnStart::NeedsSurfaceHeightAt { x: center_x, z: center_z }
    } else {
        InitialSpawnStart::At(BlockPos::new(center_x, generator_spawn_height, center_z))
    }
}

impl InitialSpawnResult {
    /// The initial spawn: the first standing position found in the chunks
    /// searched, else where the spawn started out.
    pub fn new(climate_chunk: Vector2, start: BlockPos, found: Option<BlockPos>) -> (r: Self)
        ensures
            r.climate_chunk == climate_chunk,
            r.spawn == (match found {
                Some(p) => p,
                None => start,
            }),
    {
        let spawn = match found {
            Some(p) => p,
            None => start,
        };
        InitialSpawnResult { climate_chunk, spawn }
    }
}

} // verus!

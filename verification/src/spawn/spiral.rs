//! The square spiral of chunks searched for the initial spawn of a world,
//! and the chunk arithmetic around it.

use vstd::prelude::*;
use vstd::arithmetic::div_mod::*;
use crate::math::{abs, in_i32, Vector2};

verus! {

/// Chunks searched around the climate-chosen spawn chunk lie within this
/// distance of it on each axis.
pub const INITIAL_SPAWN_CHUNK_RADIUS: i32 = 5;
/// Width of the spiral of chunks searched for the initial spawn.
pub const INITIAL_SPAWN_CHUNK_DIAMETER: i32 = 11;
/// Whether the spiral walk turns left at `(x, z)`.
pub open spec fn spiral_turns(x: int, z: int) -> bool {
    x == z || (x < 0 && x == -z) || (x > 0 && x == 1 - z)
}

/// The walker of the spiral after `i` steps: its position `(x, z)` and the
/// direction `(dx, dz)` of its last step. It starts at the origin facing
/// `(0, -1)`; at each step it turns left where `spiral_turns` says so, then
/// moves one cell.
pub open spec fn spiral_state(i: nat) -> (int, int, int, int)
    decreases i,
{
    if i == 0 {
        (0, 0, 0, -1)
    } else {
        let prev = spiral_state((i - 1) as nat);
        let (x, z, dx, dz) = (prev.0, prev.1, prev.2, prev.3);
        let ndx = if spiral_turns(x, z) { -dz } else { dx };
        let ndz = if spiral_turns(x, z) { dx } else { dz };
        (x + ndx, z + ndz, ndx, ndz)
    }
}

/// The `i`-th offset of the spiral.
pub open spec fn spiral_point(i: nat) -> (int, int) {
    (spiral_state(i).0, spiral_state(i).1)
}

proof fn lemma_spiral_state_bounds(i: nat)
    ensures
        abs(spiral_state(i).0) <= i,
        abs(spiral_state(i).1) <= i,
        abs(spiral_state(i).2) + abs(spiral_state(i).3) == 1,
    decreases i,
{
    if i > 0 {
        lemma_spiral_state_bounds((i - 1) as nat);
    }
}

/// The offsets of a square spiral walked outwards from the origin: right,
/// then anticlockwise around ever larger rings, `width * width` of them.
pub fn spiral_offsets(width: i32) -> (offsets: Vec<Vector2>)
    requires
        width * width <= i32::MAX,
    ensures
        offsets.len() == width * width,
        forall|i: int|
            0 <= i < offsets.len() ==> (#[trigger] offsets@[i].x as int, offsets@[i].y as int)
                == spiral_point(i as nat),
{
    assert(width * width >= 0) by (nonlinear_arith);
    let count = width * width;
    let mut offsets: Vec<Vector2> = Vec::with_capacity(count as usize);
    let mut x: i32 = 0;
    let mut z: i32 = 0;
    let mut dx: i32 = 0;
    let mut dz: i32 = -1;
    let mut step: i32 = 0;
    while step < count
        invariant
            0 <= step <= count,
            count == width * width,
            offsets.len() == step,
            (x as int, z as int, dx as int, dz as int) == spiral_state(step as nat),
            forall|i: int|
                0 <= i < offsets.len() ==> (#[trigger] offsets@[i].x as int, offsets@[i].y as int)
                    == spiral_point(i as nat),
        decreases count - step,
    {
        proof {
            lemma_spiral_state_bounds(step as nat);
            lemma_spiral_state_bounds((step + 1) as nat);
        }
        offsets.push(Vector2::new(x, z));
        if x == z || (x < 0 && x == -z) || (x > 0 && x == 1 - z) {
            let old_dx = dx;
            dx = -dz;
            dz = old_dx;
        }
        x = x + dx;
        z = z + dz;
        step = step + 1;
    }
    offsets
}

/// The index at which the spiral enters ring `k` (the cells whose larger
/// coordinate magnitude is `k`).
pub open spec fn ring_start(k: int) -> int {
    (2 * k - 1) * (2 * k - 1)
}

/// The walker of the spiral `j` steps after entering ring `k`, in closed form:
/// up the east side, west along the north side, down the west side, east
/// along the south side.
pub open spec fn ring_state(k: int, j: int) -> (int, int, int, int) {
    if j == 0 {
        (k, 1 - k, 1, 0)
    } else if j < 2 * k {
        (k, 1 - k + j, 0, 1)
    } else if j < 4 * k {
        (3 * k - 1 - j, k, -1, 0)
    } else if j < 6 * k {
        (-k, 5 * k - 1 - j, 0, -1)
    } else {
        (j - 7 * k + 1, -k, 1, 0)
    }
}

proof fn lemma_spiral_ring(k: int, j: int)
    requires
        k >= 1,
        0 <= j < 8 * k,
    ensures
        ring_start(k) >= 1,
        spiral_state((ring_start(k) + j) as nat) == ring_state(k, j),
    decreases k, j,
{
    assert(ring_start(k) >= 1) by (nonlinear_arith)
        requires
            k >= 1,
    ;
    let i = ring_start(k) + j;
    if j > 0 {
        lemma_spiral_ring(k, j - 1);
        assert((i as nat - 1) as nat == (ring_start(k) + (j - 1)) as nat);
        assert(spiral_state(i as nat) == ring_state(k, j));
    } else if k > 1 {
        lemma_spiral_ring(k - 1, 8 * (k - 1) - 1);
        assert(ring_start(k - 1) + 8 * (k - 1) - 1 == ring_start(k) - 1) by (nonlinear_arith);
        assert((i as nat - 1) as nat == (ring_start(k - 1) + (8 * (k - 1) - 1)) as nat);
        assert(spiral_state(i as nat) == ring_state(k, j));
    } else {
        assert(ring_start(1) == 1) by (nonlinear_arith);
        assert(spiral_state(0) == (0int, 0int, 0int, -1int));
        assert(spiral_state(1) == ring_state(1, 0));
    }
}

/// Locates an index of the spiral below `(2r + 1)^2`, other than the origin,
/// on its ring: returns `(k, j)` with `i == ring_start(k) + j`.
proof fn lemma_ring_of(r: int, i: int) -> (kj: (int, int))
    requires
        r >= 0,
        1 <= i < (2 * r + 1) * (2 * r + 1),
    ensures
        1 <= kj.0 <= r,
        0 <= kj.1 < 8 * kj.0,
        i == ring_start(kj.0) + kj.1,
    decreases r,
{
    if r == 0 {
        assert((2 * r + 1) * (2 * r + 1) == 1) by (nonlinear_arith)
            requires
                r == 0,
        ;
        (0, 0)
    } else if i >= ring_start(r) {
        assert((2 * r + 1) * (2 * r + 1) - ring_start(r) == 8 * r) by (nonlinear_arith);
        (r, i - ring_start(r))
    } else {
        assert(2 * (r - 1) + 1 == 2 * r - 1);
        lemma_ring_of(r - 1, i)
    }
}

/// The spiral of width `2r + 1` stays inside the square of radius `r`: each
/// of its first `(2r + 1)^2` offsets is at most `r` away from the origin on
/// both axes.
pub proof fn spiral_stays_in_square(radius: nat, i: nat)
    requires
        i < (2 * radius + 1) * (2 * radius + 1),
    ensures
        abs(spiral_point(i).0) <= radius,
        abs(spiral_point(i).1) <= radius,
{
    if i > 0 {
        let kj = lemma_ring_of(radius as int, i as int);
        lemma_spiral_ring(kj.0, kj.1);
    }
}

/// The spiral never visits an offset twice.
pub proof fn spiral_points_distinct(i: nat, j: nat)
    requires
        i != j,
    ensures
        spiral_point(i) != spiral_point(j),
{
    if i > 0 && j > 0 {
        let r = if i > j { i as int } else { j as int };
        assert(i < (2 * r + 1) * (2 * r + 1) && j < (2 * r + 1) * (2 * r + 1)) by (nonlinear_arith)
            requires
                i <= r,
                j <= r,
                r >= 1,
        ;
        let a = lemma_ring_of(r, i as int);
        let b = lemma_ring_of(r, j as int);
        lemma_spiral_ring(a.0, a.1);
        lemma_spiral_ring(b.0, b.1);
        if a.0 == b.0 {
            assert(a.1 != b.1);
        }
    } else if i > 0 {
        assert(i < (2 * i + 1) * (2 * i + 1)) by (nonlinear_arith)
            requires
                i >= 1,
        ;
        let a = lemma_ring_of(i as int, i as int);
        lemma_spiral_ring(a.0, a.1);
    } else {
        assert(j < (2 * j + 1) * (2 * j + 1)) by (nonlinear_arith)
            requires
                j >= 1,
        ;
        let b = lemma_ring_of(j as int, j as int);
        lemma_spiral_ring(b.0, b.1);
    }
}

/// Each step of the spiral moves to a neighbouring cell.
pub proof fn spiral_steps_are_adjacent(i: nat)
    ensures
        abs(spiral_point(i + 1).0 - spiral_point(i).0) + abs(spiral_point(i + 1).1 - spiral_point(
            i,
        ).1) == 1,
{
    lemma_spiral_state_bounds(i);
    assert(((i + 1) as nat - 1) as nat == i);
}

/// The chunk holding a block coordinate: the coordinate divided by 16,
/// rounded down.
pub fn block_to_chunk(block: i32) -> (chunk: i32)
    ensures
        chunk == block as int / 16,
{
    let chunk = block >> 4u32;
    assert(chunk * 16 <= block < chunk * 16 + 16) by (bit_vector)
        requires
            chunk == block >> 4u32,
    ;
    proof {
        lemma_fundamental_div_mod_converse(block as int, 16, chunk as int, block - chunk * 16);
    }
    chunk
}

/// Chunk coordinates whose blocks all have `i32` coordinates.
pub open spec fn chunk_in_range(c: int) -> bool {
    -134217728 <= c <= 134217727
}

/// The lowest block coordinate of a chunk coordinate, `c << 4`: sixteen
/// times it, wrapping around as the shift does.
pub open spec fn chunk_min_block(c: i32) -> i32 {
    c << 4u32
}

proof fn lemma_chunk_min_block(c: i32)
    ensures
        chunk_in_range(c as int) ==> chunk_min_block(c) == 16 * c,
{
    if chunk_in_range(c as int) {
        assert(c << 4u32 == c * 16) by (bit_vector)
            requires
                -134217728 <= c <= 134217727,
        ;
    }
}

/// The block at the middle of a chunk: `(16 * x + 8, 16 * z + 8)` for the
/// chunks of `i32` block coordinates.
pub fn chunk_center(chunk: Vector2) -> (center: (i32, i32))
    requires
        chunk_min_block(chunk.x) <= i32::MAX - 8,
        chunk_min_block(chunk.y) <= i32::MAX - 8,
    ensures
        center.0 == chunk_min_block(chunk.x) + 8,
        center.1 == chunk_min_block(chunk.y) + 8,
        chunk_in_range(chunk.x as int) ==> center.0 == 16 * chunk.x + 8,
        chunk_in_range(chunk.y as int) ==> center.1 == 16 * chunk.y + 8,
{
    proof {
        lemma_chunk_min_block(chunk.x);
        lemma_chunk_min_block(chunk.y);
    }
    ((chunk.x << 4u32) + 8, (chunk.y << 4u32) + 8)
}

/// The 256 block columns of a chunk in the order they are tried for a spawn
/// position: by increasing x, and within one x by increasing z, starting from
/// the chunk's lowest block coordinates.
pub fn chunk_columns(chunk: Vector2) -> (columns: Vec<(i32, i32)>)
    requires
        chunk_min_block(chunk.x) <= i32::MAX - 15,
        chunk_min_block(chunk.y) <= i32::MAX - 15,
    ensures
        columns.len() == 256,
        forall|k: int|
            0 <= k < 256 ==> (#[trigger] columns@[k].0 as int, columns@[k].1 as int) == (
            chunk_min_block(chunk.x) + k / 16, chunk_min_block(chunk.y) + k % 16),
{
    let min_x = chunk.x << 4u32;
    let min_z = chunk.y << 4u32;
    let mut columns: Vec<(i32, i32)> = Vec::new();
    let mut dx: i32 = 0;
    while dx <= 15
        invariant
            0 <= dx <= 16,
            min_x == chunk_min_block(chunk.x),
            min_z == chunk_min_block(chunk.y),
            min_x <= i32::MAX - 15,
            min_z <= i32::MAX - 15,
            columns.len() == 16 * dx,
            forall|k: int|
                0 <= k < columns.len() ==> (#[trigger] columns@[k].0 as int, columns@[k].1 as int)
                    == (min_x + k / 16, min_z + k % 16),
        decreases 16 - dx,
    {
        let mut dz: i32 = 0;
        while dz <= 15
            invariant
                0 <= dx <= 15,
                0 <= dz <= 16,
                min_x <= i32::MAX - 15,
                min_z <= i32::MAX - 15,
                columns.len() == 16 * dx + dz,
                forall|k: int|
                    0 <= k < columns.len() ==> (#[trigger] columns@[k].0 as int, columns@[k].1 as int)
                        == (min_x + k / 16, min_z + k % 16),
            decreases 16 - dz,
        {
            let k = 16 * dx + dz;
            assert(k / 16 == dx && k % 16 == dz) by {
                lemma_fundamental_div_mod_converse(k as int, 16, dx as int, dz as int);
            }
            columns.push((min_x + dx, min_z + dz));
            dz = dz + 1;
        }
        dx = dx + 1;
    }
    columns
}

/// The chunks searched, in order, for the initial world spawn: the spiral of
/// width `INITIAL_SPAWN_CHUNK_DIAMETER` around the climate-chosen chunk,
/// keeping the offsets within `INITIAL_SPAWN_CHUNK_RADIUS` on both axes.
pub fn initial_spawn_chunks(climate_chunk: Vector2) -> (chunks: Vec<Vector2>)
    requires
        in_i32(climate_chunk.x - INITIAL_SPAWN_CHUNK_RADIUS),
        in_i32(climate_chunk.x + INITIAL_SPAWN_CHUNK_RADIUS),
        in_i32(climate_chunk.y - INITIAL_SPAWN_CHUNK_RADIUS),
        in_i32(climate_chunk.y + INITIAL_SPAWN_CHUNK_RADIUS),
    ensures
        chunks.len() == 121,
        forall|i: int|
            0 <= i < 121 ==> (#[trigger] chunks@[i].x as int, chunks@[i].y as int) == (climate_chunk.x
                + spiral_point(i as nat).0, climate_chunk.y + spiral_point(i as nat).1),
{
    let offsets = spiral_offsets(INITIAL_SPAWN_CHUNK_DIAMETER);
    let mut chunks: Vec<Vector2> = Vec::new();
    let mut index: usize = 0;
    while index < offsets.len()
        invariant
            offsets.len() == 121,
            0 <= index <= 121,
            chunks.len() == index,
            forall|i: int|
                0 <= i < offsets.len() ==> (#[trigger] offsets@[i].x as int, offsets@[i].y as int)
                    == spiral_point(i as nat),
            forall|i: int|
                0 <= i < chunks.len() ==> (#[trigger] chunks@[i].x as int, chunks@[i].y as int) == (
                climate_chunk.x + spiral_point(i as nat).0, climate_chunk.y + spiral_point(
                    i as nat,
                ).1),
            in_i32(climate_chunk.x - INITIAL_SPAWN_CHUNK_RADIUS),
            in_i32(climate_chunk.x + INITIAL_SPAWN_CHUNK_RADIUS),
            in_i32(climate_chunk.y - INITIAL_SPAWN_CHUNK_RADIUS),
            in_i32(climate_chunk.y + INITIAL_SPAWN_CHUNK_RADIUS),
        decreases 121 - index,
    {
        let offset = offsets[index];
        proof {
            assert((2 * 5 + 1) * (2 * 5 + 1) == 121) by (nonlinear_arith);
            spiral_stays_in_square(5, index as nat);
        }
        if offset.x > INITIAL_SPAWN_CHUNK_RADIUS || offset.x < -INITIAL_SPAWN_CHUNK_RADIUS
            || offset.y > INITIAL_SPAWN_CHUNK_RADIUS || offset.y < -INITIAL_SPAWN_CHUNK_RADIUS {
            index = index + 1;
            continue;
        }
        chunks.push(Vector2::new(climate_chunk.x + offset.x, climate_chunk.y + offset.y));
        index = index + 1;
    }
    chunks
}

} // verus!

//! The order in which block columns around a suggested spawn are tried when
//! placing a player without a respawn point: a walk through the square
//! around the suggestion with a step coprime to its size, from a random start.

use vstd::prelude::*;
use vstd::arithmetic::div_mod::*;
use crate::math::{abs, in_i32, rust_div, rust_rem, BlockPos};
use crate::random::{drawn_below, random_below};

verus! {

/// Upper bound on the number of respawn candidates tried.
pub const ABSOLUTE_MAX_ATTEMPTS: i32 = 1024;

/// The step through the candidate window that `get_coprime` picks.
pub open spec fn coprime_step(candidate_count: int) -> int {
    if candidate_count <= 16 { candidate_count - 1 } else { 17 }
}

/// The side of the square searched around a respawn suggestion.
pub open spec fn square_side(radius: int) -> int {
    2 * radius + 1
}

/// How many respawn candidates are tried for a search radius: the cells of
/// the square, at most `ABSOLUTE_MAX_ATTEMPTS`.
pub open spec fn candidate_window(radius: int) -> int {
    let s = square_side(radius);
    if s * s <= 1024 { s * s } else { 1024 }
}

/// The block column tried as candidate number `index`: the window position
/// `(offset + coprime * index) % window` read as a cell of the square, row by
/// row, with the square centred on the suggestion.
pub open spec fn candidate_target(
    sx: int,
    sz: int,
    radius: int,
    offset: int,
    coprime: int,
    index: int,
) -> (int, int) {
    let side = square_side(radius);
    let value = rust_rem(offset + coprime * index, candidate_window(radius));
    (sx + rust_rem(value, side) - radius, sz + rust_div(value, side) - radius)
}

/// Every intermediate value of `candidate_position` fits in an `i32`.
pub open spec fn candidate_fits(
    sx: int,
    sz: int,
    radius: int,
    offset: int,
    coprime: int,
    index: int,
) -> bool {
    let side = square_side(radius);
    let value = rust_rem(offset + coprime * index, candidate_window(radius));
    &&& in_i32(2 * radius)
    &&& in_i32(side)
    &&& in_i32(side * side)
    &&& in_i32(coprime * index)
    &&& in_i32(offset + coprime * index)
    &&& in_i32(sx + rust_rem(value, side))
    &&& in_i32(sx + rust_rem(value, side) - radius)
    &&& in_i32(sz + rust_div(value, side))
    &&& in_i32(sz + rust_div(value, side) - radius)
}

/// The step through the candidate window: one less than the window when it is
/// small, 17 otherwise.
pub fn get_coprime(candidate_count: i32) -> (r: i32)
    requires
        candidate_count > i32::MIN,
    ensures
        r == coprime_step(candidate_count as int),
{
    if candidate_count <= 16 {
        candidate_count - 1
    } else {
        17
    }
}

/// The block column `(x, z)` tried as respawn candidate `candidate_index`.
pub fn candidate_position(
    spawn_suggestion: BlockPos,
    radius: i32,
    offset: i32,
    coprime: i32,
    candidate_index: i32,
) -> (r: (i32, i32))
    requires
        candidate_fits(
            spawn_suggestion.0.x as int,
            spawn_suggestion.0.z as int,
            radius as int,
            offset as int,
            coprime as int,
            candidate_index as int,
        ),
    ensures
        (r.0 as int, r.1 as int) == candidate_target(
            spawn_suggestion.0.x as int,
            spawn_suggestion.0.z as int,
            radius as int,
            offset as int,
            coprime as int,
            candidate_index as int,
        ),
{
    let square_side = radius * 2 + 1;
    let square = square_side * square_side;
    let window = if square <= ABSOLUTE_MAX_ATTEMPTS {
        square
    } else {
        ABSOLUTE_MAX_ATTEMPTS
    };
    assert(window > 0) by (nonlinear_arith)
        requires
            square == square_side * square_side,
            square_side == 2 * radius + 1,
            window == (if square <= 1024 { square } else { 1024 }),
    ;
    let sum = offset + coprime * candidate_index;
    proof {
        lemma_rust_rem_div(sum as int, window as int);
    }
    let value = sum.checked_rem(window).unwrap();
    proof {
        lemma_rust_rem_div(value as int, square_side as int);
    }
    let delta_x = value.checked_rem(square_side).unwrap();
    let delta_z = value.checked_div(square_side).unwrap();
    (spawn_suggestion.0.x + delta_x - radius, spawn_suggestion.0.z + delta_z - radius)
}

/// `rust_rem` and `rust_div` agree with the case analysis by which `i32`
/// remainders and quotients are specified.
proof fn lemma_rust_rem_div(x: int, d: int)
    requires
        d != 0,
    ensures
        rust_rem(x, d) == (if x == 0 {
            0
        } else if x > 0 && d > 0 {
            x % d
        } else if x < 0 && d < 0 {
            ((x * -1) % (d * -1)) * -1
        } else if x < 0 {
            ((x * -1) % d) * -1
        } else {
            x % (d * -1)
        }),
        rust_div(x, d) == (if x == 0 {
            0
        } else if x > 0 && d > 0 {
            x / d
        } else if x < 0 && d < 0 {
            (x * -1) / (d * -1)
        } else if x < 0 {
            ((x * -1) / d) * -1
        } else {
            (x / (d * -1)) * -1
        }),
        abs(rust_rem(x, d)) < abs(d),
        abs(rust_div(x, d)) <= abs(x),
{
    if x != 0 {
        lemma_mod_pos_bound(abs(x), abs(d));
        lemma_div_is_ordered_by_denominator(abs(x), 1, abs(d));
        lemma_div_basics(abs(x));
        lemma_div_pos_is_pos(abs(x), abs(d));
    } else {
        lemma_mod_pos_bound(0, abs(d));
    }
}

/// The inverse of the candidate step modulo the candidate window, for every
/// search radius whose step is coprime to its window (all but radius 8).
pub open spec fn window_inverse(radius: int) -> int {
    if radius >= 16 {
        241
    } else if radius == 0 {
        0
    } else if radius == 1 {
        8
    } else if radius == 2 {
        3
    } else if radius == 3 {
        26
    } else if radius == 4 {
        62
    } else if radius == 5 {
        57
    } else if radius == 6 {
        10
    } else if radius == 7 {
        53
    } else if radius == 9 {
        85
    } else if radius == 10 {
        26
    } else if radius == 11 {
        249
    } else if radius == 12 {
        478
    } else if radius == 13 {
        386
    } else if radius == 14 {
        99
    } else {
        848
    }
}

proof fn lemma_window_facts(radius: int)
    requires
        0 <= radius,
        radius != 8,
    ensures
        1 <= candidate_window(radius) <= 1024,
        radius <= 15 ==> candidate_window(radius) == square_side(radius) * square_side(radius),
        radius >= 16 ==> candidate_window(radius) == 1024,
        candidate_window(radius) == 1 || (coprime_step(candidate_window(radius)) * window_inverse(
            radius,
        )) % candidate_window(radius) == 1,
        candidate_window(radius) == 1 <==> radius == 0,
        0 <= coprime_step(candidate_window(radius)),
{
    let s = square_side(radius);
    if radius >= 16 {
        assert(s * s > 1024) by (nonlinear_arith)
            requires
                s == 2 * radius + 1,
                radius >= 16,
        ;
    } else {
        assert(s * s <= 961) by (nonlinear_arith)
            requires
                s == 2 * radius + 1,
                0 <= radius <= 15,
        ;
        assert(s * s >= 1) by (nonlinear_arith)
            requires
                s == 2 * radius + 1,
                0 <= radius <= 15,
        ;
        assert(s * s == 1 <==> radius == 0) by (nonlinear_arith)
            requires
                s == 2 * radius + 1,
                0 <= radius <= 15,
        ;
        if radius == 1 {
            assert(s * s == 9) by (nonlinear_arith)
                requires
                    s == 3,
            ;
        } else if radius > 1 {
            assert(s * s >= 25) by (nonlinear_arith)
                requires
                    s == 2 * radius + 1,
                    radius >= 2,
            ;
            lemma_step_inverse_small(radius);
        }
    }
}

proof fn lemma_step_inverse_small(radius: int)
    requires
        2 <= radius <= 15,
        radius != 8,
    ensures
        (17 * window_inverse(radius)) % (square_side(radius) * square_side(radius)) == 1,
{
    let s = square_side(radius);
    let u = window_inverse(radius);
    if radius == 2 {
        assert((17 * u) % (s * s) == 1) by (nonlinear_arith) requires s == 5, u == 3;
    } else if radius == 3 {
        assert((17 * u) % (s * s) == 1) by (nonlinear_arith) requires s == 7, u == 26;
    } else if radius == 4 {
        assert((17 * u) % (s * s) == 1) by (nonlinear_arith) requires s == 9, u == 62;
    } else if radius == 5 {
        assert((17 * u) % (s * s) == 1) by (nonlinear_arith) requires s == 11, u == 57;
    } else if radius == 6 {
        assert((17 * u) % (s * s) == 1) by (nonlinear_arith) requires s == 13, u == 10;
    } else if radius == 7 {
        assert((17 * u) % (s * s) == 1) by (nonlinear_arith) requires s == 15, u == 53;
    } else if radius == 9 {
        assert((17 * u) % (s * s) == 1) by (nonlinear_arith) requires s == 19, u == 85;
    } else if radius == 10 {
        assert((17 * u) % (s * s) == 1) by (nonlinear_arith) requires s == 21, u == 26;
    } else if radius == 11 {
        assert((17 * u) % (s * s) == 1) by (nonlinear_arith) requires s == 23, u == 249;
    } else if radius == 12 {
        assert((17 * u) % (s * s) == 1) by (nonlinear_arith) requires s == 25, u == 478;
    } else if radius == 13 {
        assert((17 * u) % (s * s) == 1) by (nonlinear_arith) requires s == 27, u == 386;
    } else if radius == 14 {
        assert((17 * u) % (s * s) == 1) by (nonlinear_arith) requires s == 29, u == 99;
    } else {
        assert((17 * u) % (s * s) == 1) by (nonlinear_arith) requires s == 31, u == 848;
    }
}

/// Multiplying by an inverse modulo `c` cancels the step: if `p * d` is a
/// multiple of `c` and `p * u` is one more than a multiple, `d` is a multiple.
proof fn lemma_inverse_cancels(p: int, u: int, c: int, d: int)
    requires
        c > 0,
        (p * u) % c == 1,
        (p * d) % c == 0,
    ensures
        d % c == 0,
{
    lemma_mul_mod_noop_general(u, p * d, c);
    assert(u * 0 == 0);
    lemma_small_mod(0, c as nat);
    assert((u * (p * d)) % c == 0);
    assert(u * (p * d) == (p * u) * d) by (nonlinear_arith);
    lemma_mul_mod_noop_general(p * u, d, c);
    assert(1 * d == d);
    assert(d % c == ((p * u) * d) % c);
}

/// The step `get_coprime` picks has the inverse `window_inverse` modulo the
/// window, for every radius but 8.
proof fn lemma_window_inverse(radius: int)
    requires
        0 <= radius,
        radius != 8,
    ensures
        1 <= candidate_window(radius) <= 1024,
        0 <= coprime_step(candidate_window(radius)),
        (coprime_step(candidate_window(radius)) * window_inverse(radius)) % candidate_window(radius)
            == 1int % candidate_window(radius),
{
    lemma_window_facts(radius);
    let c = candidate_window(radius);
    if c == 1 {
        assert(coprime_step(c) == 0);
        assert(0 * window_inverse(radius) == 0);
        lemma_small_mod(0, 1);
        lemma_mod_self_0(1);
    } else {
        lemma_small_mod(1, c as nat);
    }
}

/// Respawn candidates are tried without repetition: for every search radius
/// but 8 (whose window of 289 cells shares the factor 17 with the step), the
/// candidates with distinct indices inside the window are distinct columns.
pub proof fn respawn_candidates_are_distinct(
    sx: int,
    sz: int,
    radius: int,
    offset: int,
    i: int,
    j: int,
)
    requires
        0 <= radius,
        radius != 8,
        0 <= offset < candidate_window(radius),
        0 <= i < candidate_window(radius),
        0 <= j < candidate_window(radius),
        i != j,
    ensures
        candidate_target(sx, sz, radius, offset, coprime_step(candidate_window(radius)), i)
            != candidate_target(sx, sz, radius, offset, coprime_step(candidate_window(radius)), j),
{
    lemma_window_inverse(radius);
    let c = candidate_window(radius);
    let p = coprime_step(c);
    let s = square_side(radius);
    assert(p * i >= 0) by (nonlinear_arith)
        requires
            p >= 0,
            i >= 0,
    ;
    assert(p * j >= 0) by (nonlinear_arith)
        requires
            p >= 0,
            j >= 0,
    ;
    let vi = (offset + p * i) % c;
    let vj = (offset + p * j) % c;
    lemma_step_values_distinct(c, p, window_inverse(radius), offset, i, j);
    lemma_mod_pos_bound(offset + p * i, c);
    lemma_mod_pos_bound(offset + p * j, c);
    lemma_fundamental_div_mod(vi, s);
    lemma_fundamental_div_mod(vj, s);
    lemma_div_pos_is_pos(vi, s);
    lemma_div_pos_is_pos(vj, s);
    if vi % s == vj % s && vi / s == vj / s {
        assert(vi == vj);
    }
}

/// Within the 31-wide square searched at radius 15 and below, respawn
/// candidates reach every column of the square: for every radius up to 15
/// but 8 and every offset in the window, each column at most `radius` away
/// from the suggestion on both axes is the target of some index in the window.
pub proof fn respawn_candidates_cover_square(
    sx: int,
    sz: int,
    radius: int,
    offset: int,
    tx: int,
    tz: int,
)
    requires
        0 <= radius <= 15,
        radius != 8,
        0 <= offset < candidate_window(radius),
        sx - radius <= tx <= sx + radius,
        sz - radius <= tz <= sz + radius,
    ensures
        exists|i: int|
            0 <= i < candidate_window(radius) && #[trigger] candidate_target(
                sx,
                sz,
                radius,
                offset,
                coprime_step(candidate_window(radius)),
                i,
            ) == (tx, tz),
{
    lemma_window_inverse(radius);
    let s = square_side(radius);
    assert(s * s <= 1024) by (nonlinear_arith)
        requires
            s == 2 * radius + 1,
            0 <= radius <= 15,
    ;
    let i = lemma_target_reached(sx, sz, radius, offset, coprime_step(candidate_window(radius)), window_inverse(radius), tx, tz);
    assert(in_square(sx, sz, radius, tx, tz));
    assert(candidate_target(sx, sz, radius, offset, coprime_step(candidate_window(radius)), i) == (tx, tz));
}

/// The greatest common divisor, by Euclid's algorithm.
pub open spec fn gcd(a: nat, b: nat) -> nat
    decreases b,
{
    if b == 0 {
        a
    } else {
        gcd(b, a % b)
    }
}

/// Bezout's identity: returns `(x, y)` with `a * x + b * y == gcd(a, b)`.
proof fn lemma_bezout(a: nat, b: nat) -> (xy: (int, int))
    ensures
        a * xy.0 + b * xy.1 == gcd(a, b),
    decreases b,
{
    if b == 0 {
        (1, 0)
    } else {
        let r = a % b;
        let xy2 = lemma_bezout(b, r);
        let q = a / b;
        lemma_fundamental_div_mod(a as int, b as int);
        let x = xy2.1;
        let y = xy2.0 - q * xy2.1;
        assert(a * x + b * y == gcd(a, b)) by (nonlinear_arith)
            requires
                b * xy2.0 + r * xy2.1 == gcd(b, r),
                a == b * q + r,
                x == xy2.1,
                y == xy2.0 - q * xy2.1,
                gcd(a, b) == gcd(b, r),
        ;
        (x, y)
    }
}

/// A step coprime to the window has an inverse modulo the window.
proof fn lemma_coprime_inverse(p: int, n: int) -> (u: int)
    requires
        0 <= p,
        n > 0,
        gcd(p as nat, n as nat) == 1,
    ensures
        (p * u) % n == 1int % n,
{
    let xy = lemma_bezout(p as nat, n as nat);
    let u = xy.0;
    assert(p * u - 1 == (-xy.1) * n) by (nonlinear_arith)
        requires
            p * xy.0 + n * xy.1 == 1,
            u == xy.0,
    ;
    lemma_mod_multiples_basic(-xy.1, n);
    lemma_mod_equivalence(p * u, 1, n);
    u
}

/// With an invertible step, distinct indices in the window reach distinct
/// window positions.
proof fn lemma_step_values_distinct(n: int, p: int, u: int, offset: int, i: int, j: int)
    requires
        n > 0,
        (p * u) % n == 1int % n,
        0 <= i < n,
        0 <= j < n,
        i != j,
    ensures
        (offset + p * i) % n != (offset + p * j) % n,
{
    if n > 1 {
        lemma_small_mod(1, n as nat);
        let x = offset + p * i;
        let y = offset + p * j;
        if x % n == y % n {
            lemma_mod_equivalence(x, y, n);
            assert(x - y == p * (i - j)) by (nonlinear_arith)
                requires
                    x == offset + p * i,
                    y == offset + p * j,
            ;
            lemma_inverse_cancels(p, u, n, i - j);
            lemma_fundamental_div_mod(i - j, n);
            let q = (i - j) / n;
            assert(false) by (nonlinear_arith)
                requires
                    i - j == n * q,
                    -n < i - j < n,
                    i != j,
                    n > 0,
            ;
        }
    }
}

/// The column `(tx, tz)` lies in the square of `radius` around `(sx, sz)`.
pub open spec fn in_square(sx: int, sz: int, radius: int, tx: int, tz: int) -> bool {
    sx - radius <= tx <= sx + radius && sz - radius <= tz <= sz + radius
}

proof fn lemma_target_general(sx: int, sz: int, radius: int, offset: int, p: int, u: int, i: int, j: int)
    requires
        0 <= radius,
        square_side(radius) * square_side(radius) <= 1024,
        0 <= offset,
        0 <= p,
        (p * u) % candidate_window(radius) == 1int % candidate_window(radius),
        0 <= i < candidate_window(radius),
        0 <= j < candidate_window(radius),
    ensures
        candidate_window(radius) == square_side(radius) * square_side(radius),
        in_square(sx, sz, radius, candidate_target(sx, sz, radius, offset, p, i).0, candidate_target(sx, sz, radius, offset, p, i).1),
        i != j ==> candidate_target(sx, sz, radius, offset, p, i) != candidate_target(sx, sz, radius, offset, p, j),
{
    lemma_window_bounds(radius);
    let n = candidate_window(radius);
    let s = square_side(radius);
    assert(p * i >= 0 && p * j >= 0) by (nonlinear_arith)
        requires
            p >= 0,
            i >= 0,
            j >= 0,
    ;
    let vi = (offset + p * i) % n;
    let vj = (offset + p * j) % n;
    lemma_mod_pos_bound(offset + p * i, n);
    lemma_mod_pos_bound(offset + p * j, n);
    lemma_fundamental_div_mod(vi, s);
    lemma_fundamental_div_mod(vj, s);
    lemma_mod_pos_bound(vi, s);
    lemma_div_pos_is_pos(vi, s);
    lemma_div_pos_is_pos(vj, s);
    assert(vi / s < s) by (nonlinear_arith)
        requires
            vi == s * (vi / s) + vi % s,
            0 <= vi % s,
            vi < s * s,
            s > 0,
    ;
    if i != j {
        lemma_step_values_distinct(n, p, u, offset, i, j);
        if vi % s == vj % s && vi / s == vj / s {
            assert(vi == vj);
        }
    }
}

proof fn lemma_target_reached(sx: int, sz: int, radius: int, offset: int, p: int, u: int, tx: int, tz: int) -> (i: int)
    requires
        0 <= radius,
        square_side(radius) * square_side(radius) <= 1024,
        0 <= offset < candidate_window(radius),
        0 <= p,
        (p * u) % candidate_window(radius) == 1int % candidate_window(radius),
        in_square(sx, sz, radius, tx, tz),
    ensures
        0 <= i < candidate_window(radius),
        candidate_target(sx, sz, radius, offset, p, i) == (tx, tz),
{
    lemma_window_bounds(radius);
    let n = candidate_window(radius);
    let s = square_side(radius);
    let a = tx - sx + radius;
    let b = tz - sz + radius;
    let t = b * s + a;
    assert(0 <= t < s * s) by (nonlinear_arith)
        requires
            t == b * s + a,
            0 <= a < s,
            0 <= b < s,
    ;
    lemma_fundamental_div_mod_converse(t, s, b, a);
    let x = (t - offset) * u;
    let i = x % n;
    lemma_mod_pos_bound(0, n);
    lemma_mul_mod_noop_general(p, x, n);
    assert(p * x == (p * u) * (t - offset)) by (nonlinear_arith)
        requires
            x == (t - offset) * u,
    ;
    lemma_mul_mod_noop_general(p * u, t - offset, n);
    lemma_mul_mod_noop_general(1, t - offset, n);
    assert(1 * (t - offset) == t - offset);
    assert((p * i) % n == (t - offset) % n);
    lemma_add_mod_noop_right(offset, p * i, n);
    lemma_add_mod_noop_right(offset, t - offset, n);
    lemma_small_mod(t as nat, n as nat);
    assert((offset + p * i) % n == t);
    assert(p * i >= 0) by (nonlinear_arith)
        requires
            p >= 0,
            i >= 0,
    ;
    assert(candidate_target(sx, sz, radius, offset, p, i) == (tx, tz));
    i
}

/// The candidate order is a permutation of the search square: for a square
/// of at most `ABSOLUTE_MAX_ATTEMPTS` cells (radius up to 15), any start in
/// the window and any non-negative step coprime to the number of cells, the
/// candidates of the indices in the window lie in the square, are pairwise
/// distinct, and reach every column of the square.
pub proof fn candidate_order_permutes_square(sx: int, sz: int, radius: int, offset: int, coprime: int)
    requires
        0 <= radius,
        square_side(radius) * square_side(radius) <= 1024,
        0 <= offset < candidate_window(radius),
        0 <= coprime,
        gcd(coprime as nat, candidate_window(radius) as nat) == 1,
    ensures
        candidate_window(radius) == square_side(radius) * square_side(radius),
        forall|i: int|
            0 <= i < candidate_window(radius) ==> in_square(
                sx,
                sz,
                radius,
                #[trigger] candidate_target(sx, sz, radius, offset, coprime, i).0,
                candidate_target(sx, sz, radius, offset, coprime, i).1,
            ),
        forall|i: int, j: int|
            0 <= i < candidate_window(radius) && 0 <= j < candidate_window(radius) && i != j
                ==> #[trigger] candidate_target(sx, sz, radius, offset, coprime, i)
                != #[trigger] candidate_target(sx, sz, radius, offset, coprime, j),
        forall|tx: int, tz: int|
            #[trigger] in_square(sx, sz, radius, tx, tz) ==> exists|i: int|
                0 <= i < candidate_window(radius) && #[trigger] candidate_target(
                    sx,
                    sz,
                    radius,
                    offset,
                    coprime,
                    i,
                ) == (tx, tz),
{
    lemma_window_bounds(radius);
    let n = candidate_window(radius);
    let u = lemma_coprime_inverse(coprime, n);
    lemma_target_general(sx, sz, radius, offset, coprime, u, 0, 0);
    assert forall|i: int|
        0 <= i < n implies in_square(
        sx,
        sz,
        radius,
        #[trigger] candidate_target(sx, sz, radius, offset, coprime, i).0,
        candidate_target(sx, sz, radius, offset, coprime, i).1,
    ) by {
        lemma_target_general(sx, sz, radius, offset, coprime, u, i, i);
    }
    assert forall|i: int, j: int|
        0 <= i < n && 0 <= j < n && i != j implies #[trigger] candidate_target(
        sx,
        sz,
        radius,
        offset,
        coprime,
        i,
    ) != #[trigger] candidate_target(sx, sz, radius, offset, coprime, j) by {
        lemma_target_general(sx, sz, radius, offset, coprime, u, i, j);
    }
    assert forall|tx: int, tz: int| #[trigger] in_square(sx, sz, radius, tx, tz) implies exists|i: int|
        0 <= i < n && #[trigger] candidate_target(sx, sz, radius, offset, coprime, i) == (tx, tz) by {
        let i = lemma_target_reached(sx, sz, radius, offset, coprime, u, tx, tz);
        assert(candidate_target(sx, sz, radius, offset, coprime, i) == (tx, tz));
    }
}

/// The radius searched around a respawn suggestion for the respawn radius
/// game rule and the distance from the suggestion to the world border.
pub open spec fn search_radius(respawn_radius: int, distance_to_border: int) -> int {
    let rule = if respawn_radius < 0 { 0 } else { respawn_radius };
    let capped = if distance_to_border < rule { distance_to_border } else { rule };
    if distance_to_border <= 1 { 1 } else { capped }
}

/// The search radius is the respawn radius rule, clamped below at 0 and
/// above only by the distance to the world border, whenever the border is
/// more than one block away; with the border at most one block away it is 1.
/// No other bound applies to the rule.
pub proof fn search_radius_is_rule_within_border(respawn_radius: int, distance_to_border: int)
    ensures
        distance_to_border <= 1 ==> search_radius(respawn_radius, distance_to_border) == 1,
        distance_to_border > 1 ==> search_radius(respawn_radius, distance_to_border) == (if respawn_radius
            <= 0 { 0 } else if respawn_radius <= distance_to_border { respawn_radius } else {
            distance_to_border
        }),
        distance_to_border > 1 ==> 0 <= search_radius(respawn_radius, distance_to_border) <= distance_to_border,
        distance_to_border > 1 && 0 <= respawn_radius <= distance_to_border ==> search_radius(
            respawn_radius,
            distance_to_border,
        ) == respawn_radius,
{
}

/// The radius searched around a respawn suggestion: the respawn radius game
/// rule (at least 0), no more than the distance to the world border, and 1
/// when the border is at most one block away.
pub fn respawn_search_radius(respawn_radius: i32, distance_to_border: i32) -> (r: i32)
    ensures
        r == search_radius(respawn_radius as int, distance_to_border as int),
        r >= 0,
        distance_to_border <= 1 ==> r == 1,
        distance_to_border > 1 && respawn_radius <= 0 ==> r == 0,
        distance_to_border > 1 && 0 <= respawn_radius <= distance_to_border ==> r == respawn_radius,
        distance_to_border > 1 && respawn_radius > distance_to_border ==> r == distance_to_border,
{
    let mut radius = if respawn_radius < 0 { 0 } else { respawn_radius };
    if distance_to_border < radius {
        radius = distance_to_border;
    }
    if distance_to_border <= 1 {
        radius = 1;
    }
    radius
}

/// How many respawn candidates are tried for a search radius.
pub fn respawn_candidate_count(radius: i32) -> (c: i32)
    requires
        in_i32(2 * radius + 1),
    ensures
        c == candidate_window(radius as int),
{
    let square_side = radius * 2 + 1;
    let side = square_side as i64;
    assert(side * side <= 0x4000_0000_0000_0000) by (nonlinear_arith)
        requires
            i32::MIN <= side <= i32::MAX,
    ;
    assert(side * side >= 0) by (nonlinear_arith);
    let square = side * side;
    if square <= ABSOLUTE_MAX_ATTEMPTS as i64 {
        square as i32
    } else {
        ABSOLUTE_MAX_ATTEMPTS
    }
}

proof fn lemma_window_bounds(radius: int)
    requires
        0 <= radius,
    ensures
        1 <= candidate_window(radius) <= 1024,
        candidate_window(radius) <= square_side(radius) * square_side(radius),
{
    let s = square_side(radius);
    assert(s * s >= 1) by (nonlinear_arith)
        requires
            s == 2 * radius + 1,
            radius >= 0,
    ;
}

/// The largest x offset from the west edge of the square that a candidate
/// can take: the last column of the square, or of the window when the window
/// is narrower than the square.
pub open spec fn max_delta_x(radius: int) -> int {
    let s = square_side(radius);
    let c = candidate_window(radius);
    (if s <= c { s } else { c }) - 1
}

/// The largest z offset from the north edge of the square that a candidate
/// can take: the row of the last cell of the window.
pub open spec fn max_delta_z(radius: int) -> int {
    (candidate_window(radius) - 1) / square_side(radius)
}

/// The arithmetic of every candidate inside the window stays within `i32`
/// when the square around the suggestion does.
proof fn lemma_candidate_fits(sx: int, sz: int, radius: int, offset: int, index: int)
    requires
        0 <= radius <= 23169,
        0 <= offset < candidate_window(radius),
        0 <= index < candidate_window(radius),
        i32::MIN <= sx - radius,
        sx + max_delta_x(radius) <= i32::MAX,
        i32::MIN <= sz - radius,
        sz + max_delta_z(radius) <= i32::MAX,
    ensures
        candidate_fits(sx, sz, radius, offset, coprime_step(candidate_window(radius)), index),
        sx - radius <= candidate_target(sx, sz, radius, offset, coprime_step(candidate_window(radius)), index).0 <= sx + radius,
        sz - radius <= candidate_target(sx, sz, radius, offset, coprime_step(candidate_window(radius)), index).1 <= sz + radius,
{
    lemma_window_bounds(radius);
    let c = candidate_window(radius);
    let p = coprime_step(c);
    let s = square_side(radius);
    assert(s * s <= 46339 * 46339) by (nonlinear_arith)
        requires
            s == 2 * radius + 1,
            0 <= radius <= 23169,
    ;
    assert(0 <= p * index <= 17 * 1024) by (nonlinear_arith)
        requires
            0 <= p <= 17,
            0 <= index < 1024,
    ;
    let v = offset + p * index;
    let value = v % c;
    lemma_mod_pos_bound(v, c);
    lemma_mod_pos_bound(value, s);
    lemma_fundamental_div_mod(value, s);
    lemma_div_pos_is_pos(value, s);
    assert(value / s < s) by (nonlinear_arith)
        requires
            value == s * (value / s) + value % s,
            0 <= value % s,
            value < s * s,
            s > 0,
    ;
    assert(value % s <= value) by (nonlinear_arith)
        requires
            value == s * (value / s) + value % s,
            0 <= value / s,
            s > 0,
    ;
    lemma_div_is_ordered(value, c - 1, s);
}

/// Whether the candidates of `radius` around the suggestion are computed
/// without overflow for every offset: what `respawn_candidate_targets`
/// requires.
pub fn respawn_candidates_fit(spawn_suggestion: BlockPos, radius: i32) -> (fits: bool)
    ensures
        fits == (0 <= radius <= 23169 && i32::MIN <= spawn_suggestion.0.x - radius
            && spawn_suggestion.0.x + max_delta_x(radius as int) <= i32::MAX && i32::MIN
            <= spawn_suggestion.0.z - radius && spawn_suggestion.0.z + max_delta_z(radius as int)
            <= i32::MAX),
{
    if radius < 0 || radius > 23169 {
        return false;
    }
    proof {
        lemma_window_bounds(radius as int);
    }
    let window = respawn_candidate_count(radius) as u64;
    let side = (radius * 2 + 1) as u64;
    let max_dx = (if side <= window { side } else { window }) - 1;
    let max_dz = (window - 1) / side;
    let x = spawn_suggestion.0.x as i64;
    let z = spawn_suggestion.0.z as i64;
    let r = radius as i64;
    x - r >= i32::MIN as i64 && x + max_dx as i64 <= i32::MAX as i64 && z - r >= i32::MIN as i64 && z
        + max_dz as i64 <= i32::MAX as i64
}

/// `targets` lists, in order, the candidates of every index in the window
/// for the given offset.
pub open spec fn candidates_from_offset(
    targets: Seq<(i32, i32)>,
    sx: int,
    sz: int,
    radius: int,
    offset: int,
) -> bool {
    &&& targets.len() == candidate_window(radius)
    &&& forall|i: int|
        0 <= i < targets.len() ==> (#[trigger] targets[i].0 as int, targets[i].1 as int)
            == candidate_target(sx, sz, radius, offset, coprime_step(candidate_window(radius)), i)
}

/// The candidates listed for an offset start at the cell of that offset:
/// column `offset % side` and row `offset / side` of the square, counted from
/// its north-west corner. So the first column tried is the one the drawn
/// offset names.
pub proof fn candidates_start_at_offset_cell(
    targets: Seq<(i32, i32)>,
    sx: int,
    sz: int,
    radius: int,
    offset: int,
)
    requires
        0 <= radius,
        0 <= offset < candidate_window(radius),
        candidates_from_offset(targets, sx, sz, radius, offset),
    ensures
        targets.len() > 0,
        targets[0].0 == sx + offset % square_side(radius) - radius,
        targets[0].1 == sz + offset / square_side(radius) - radius,
{
    lemma_window_bounds(radius);
    assert(targets[0].0 == candidate_target(sx, sz, radius, offset, coprime_step(candidate_window(radius)), 0).0);
    assert(coprime_step(candidate_window(radius)) * 0 == 0);
    lemma_small_mod(offset as nat, candidate_window(radius) as nat);
}

/// The block columns tried, in order, when looking for a respawn position
/// within `radius` of the suggestion: the window positions `offset`,
/// `offset + coprime`, `offset + 2 * coprime`, ... modulo the window, for an
/// offset drawn at random from the window.
pub fn respawn_candidate_targets(spawn_suggestion: BlockPos, radius: i32) -> (targets: Vec<(i32, i32)>)
    requires
        0 <= radius <= 23169,
        i32::MIN <= spawn_suggestion.0.x - radius,
        spawn_suggestion.0.x + max_delta_x(radius as int) <= i32::MAX,
        i32::MIN <= spawn_suggestion.0.z - radius,
        spawn_suggestion.0.z + max_delta_z(radius as int) <= i32::MAX,
    ensures
        targets.len() == candidate_window(radius as int),
        exists|offset: int|
            0 <= offset < candidate_window(radius as int) && #[trigger] candidates_from_offset(
                targets@,
                spawn_suggestion.0.x as int,
                spawn_suggestion.0.z as int,
                radius as int,
                offset,
            ),
        exists|offset: int|
            drawn_below(offset, candidate_window(radius as int)) && #[trigger] candidates_from_offset(
                targets@,
                spawn_suggestion.0.x as int,
                spawn_suggestion.0.z as int,
                radius as int,
                offset,
            ),
{
    proof {
        lemma_window_bounds(radius as int);
    }
    let candidate_count = respawn_candidate_count(radius);
    let coprime = get_coprime(candidate_count);
    let offset = random_below(candidate_count);
    let mut targets: Vec<(i32, i32)> = Vec::new();
    let mut candidate_index: i32 = 0;
    while candidate_index < candidate_count
        invariant
            0 <= candidate_index <= candidate_count,
            candidate_count == candidate_window(radius as int),
            coprime == coprime_step(candidate_count as int),
            0 <= offset < candidate_count,
            targets.len() == candidate_index,
            0 <= radius <= 23169,
            i32::MIN <= spawn_suggestion.0.x - radius,
            spawn_suggestion.0.x + max_delta_x(radius as int) <= i32::MAX,
            i32::MIN <= spawn_suggestion.0.z - radius,
            spawn_suggestion.0.z + max_delta_z(radius as int) <= i32::MAX,
            forall|i: int|
                0 <= i < targets.len() ==> (#[trigger] targets@[i].0 as int, targets@[i].1 as int)
                    == candidate_target(
                    spawn_suggestion.0.x as int,
                    spawn_suggestion.0.z as int,
                    radius as int,
                    offset as int,
                    coprime as int,
                    i,
                ),
        decreases candidate_count - candidate_index,
    {
        proof {
            lemma_candidate_fits(
                spawn_suggestion.0.x as int,
                spawn_suggestion.0.z as int,
                radius as int,
                offset as int,
                candidate_index as int,
            );
        }
        let target = candidate_position(spawn_suggestion, radius, offset, coprime, candidate_index);
        targets.push(target);
        candidate_index = candidate_index + 1;
    }
    assert(candidates_from_offset(
        targets@,
        spawn_suggestion.0.x as int,
        spawn_suggestion.0.z as int,
        radius as int,
        offset as int,
    ));
    targets
}

} // verus!

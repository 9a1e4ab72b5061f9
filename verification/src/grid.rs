//! Layout of the grid scene: the square of cell coordinates the cubes are
//! spawned at, centred on the origin.

use vstd::arithmetic::div_mod::lemma_fundamental_div_mod_converse;
use vstd::prelude::*;

verus! {

/// How many cells a row of the grid holds: the centre cell and
/// `half_extent` more to each side.
pub open spec fn grid_side(half_extent: int) -> int {
    2 * half_extent + 1
}

/// The coordinates of the grid's cell number `i`, walking the grid row by
/// row from the lowest corner.
pub open spec fn grid_coord_at(half_extent: int, i: int) -> (int, int) {
    (i / grid_side(half_extent) - half_extent, i % grid_side(half_extent) - half_extent)
}

/// Lists every cell of the square grid, row by row: each coordinate runs
/// from `-half_extent` through `half_extent`.
pub fn grid_coords(half_extent: u8) -> (r: Vec<(i32, i32)>)
    ensures
        r@.len() == grid_side(half_extent as int) * grid_side(half_extent as int),
        forall|i: int|
            0 <= i < r@.len() ==> (r@[i].0 as int, r@[i].1 as int) == grid_coord_at(
                half_extent as int,
                i,
            ),
{
    let h: i32 = half_extent as i32;
    let side: i32 = 2 * h + 1;
    let mut r: Vec<(i32, i32)> = Vec::new();
    let mut x: i32 = 0;
    while x < side
        invariant
            side == grid_side(half_extent as int),
            h == half_extent as int,
            0 <= x <= side,
            r@.len() == x * side,
            forall|i: int|
                0 <= i < r@.len() ==> (r@[i].0 as int, r@[i].1 as int) == grid_coord_at(
                    half_extent as int,
                    i,
                ),
        decreases side - x,
    {
        let mut z: i32 = 0;
        while z < side
            invariant
                side == grid_side(half_extent as int),
                h == half_extent as int,
                0 <= x < side,
                0 <= z <= side,
                r@.len() == x * side + z,
                forall|i: int|
                    0 <= i < r@.len() ==> (r@[i].0 as int, r@[i].1 as int) == grid_coord_at(
                        half_extent as int,
                        i,
                    ),
            decreases side - z,
        {
            proof {
                lemma_fundamental_div_mod_converse(
                    x * side + z,
                    side as int,
                    x as int,
                    z as int,
                );
            }
            r.push((x - h, z - h));
            z = z + 1;
        }
        x = x + 1;
        proof {
            assert(x * side == (x - 1) * side + side) by (nonlinear_arith);
        }
    }
    r
}

} // verus!

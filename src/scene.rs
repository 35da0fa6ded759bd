use vstd::prelude::*;

use crate::block::BlockType;
use crate::diorama::{Block, GridPos};

verus! {

/// Squared distance under which a block shows up in a nearby glass block:
/// a radius of 3 cells.
pub const REFLECTION_RADIUS_SQ: usize = 9;

/// Highest layer that still casts a reflection on the ground plane.
pub const GROUND_REFLECTION_TOP: usize = 3;

/// Opacity gained per layer closer to the ground plane.
pub const GROUND_FADE_STEP: u8 = 20;

/// Squared Euclidean distance between two cells.
pub open spec fn dist_sq(a: GridPos, b: GridPos) -> int {
    (a.x - b.x) * (a.x - b.x) + (a.y - b.y) * (a.y - b.y) + (a.z - b.z) * (a.z - b.z)
}

/// Whether `other` is mirrored in the glass block `glass`: it is not glass
/// itself and stands at another cell within the reflection radius.
pub open spec fn reflects_in(glass: Block, other: Block) -> bool {
    &&& other.block_type != BlockType::WhiteGlass
    &&& 0 < dist_sq(glass.position, other.position) < REFLECTION_RADIUS_SQ
}

fn abs_diff(a: usize, b: usize) -> (r: usize)
    ensures
        r == if a >= b { a - b } else { b - a },
{
    if a >= b {
        a - b
    } else {
        b - a
    }
}

/// Whether `other` is mirrored in the glass block `glass`.
pub fn reflects(glass: &Block, other: &Block) -> (r: bool)
    ensures
        r == reflects_in(*glass, *other),
{
    if other.block_type == BlockType::WhiteGlass {
        return false;
    }
    let dx = abs_diff(glass.position.x, other.position.x);
    let dy = abs_diff(glass.position.y, other.position.y);
    let dz = abs_diff(glass.position.z, other.position.z);
    let ghost d = dist_sq(glass.position, other.position);
    assert(d == dx * dx + dy * dy + dz * dz) by (nonlinear_arith)
        requires
            d == dist_sq(glass.position, other.position),
            dx == if glass.position.x >= other.position.x { glass.position.x - other.position.x } else { other.position.x - glass.position.x },
            dy == if glass.position.y >= other.position.y { glass.position.y - other.position.y } else { other.position.y - glass.position.y },
            dz == if glass.position.z >= other.position.z { glass.position.z - other.position.z } else { other.position.z - glass.position.z },
    ;
    if dx >= 3 || dy >= 3 || dz >= 3 {
        assert(d >= 9) by (nonlinear_arith)
            requires
                d == dx * dx + dy * dy + dz * dz,
                dx >= 3 || dy >= 3 || dz >= 3,
        ;
        return false;
    }
    assert(dx * dx <= 4 && dy * dy <= 4 && dz * dz <= 4) by (nonlinear_arith)
        requires
            dx < 3 && dy < 3 && dz < 3,
    ;
    let d2 = dx * dx + dy * dy + dz * dz;
    0 < d2 && d2 < REFLECTION_RADIUS_SQ
}

/// The indices, in increasing order, of the blocks mirrored in the glass
/// block at index `i`.
pub fn reflection_sources(blocks: &Vec<Block>, i: usize) -> (r: Vec<usize>)
    requires
        i < blocks.len(),
    ensures
        forall|k: int| 0 <= k < r.len() ==> r[k] < blocks.len(),
        forall|k: int| 0 <= k < r.len() ==> reflects_in(blocks[i as int], #[trigger] blocks[r[k] as int]),
        forall|k1: int, k2: int| 0 <= k1 < k2 < r.len() ==> r[k1] < r[k2],
        forall|j: int| 0 <= j < blocks.len() && reflects_in(blocks[i as int], #[trigger] blocks[j]) ==> r@.contains(j as usize),
{
    let mut out: Vec<usize> = Vec::new();
    let mut j: usize = 0;
    while j < blocks.len()
        invariant
            i < blocks.len(),
            j <= blocks.len(),
            forall|k: int| 0 <= k < out.len() ==> out[k] < j,
            forall|k: int| 0 <= k < out.len() ==> reflects_in(blocks[i as int], #[trigger] blocks[out[k] as int]),
            forall|k1: int, k2: int| 0 <= k1 < k2 < out.len() ==> out[k1] < out[k2],
            forall|m: int| 0 <= m < j && reflects_in(blocks[i as int], #[trigger] blocks[m]) ==> out@.contains(m as usize),
        decreases blocks.len() - j,
    {
        let ghost prev = out@;
        let hit = reflects(&blocks[i], &blocks[j]);
        if hit {
            out.push(j);
        }
        proof {
            assert forall|m: int|
                0 <= m < j + 1 && reflects_in(blocks[i as int], #[trigger] blocks[m]) implies out@.contains(
                m as usize,
            ) by {
                if m < j {
                    let k = choose|k: int| 0 <= k < prev.len() && prev[k] == m as usize;
                    assert(out@[k] == m as usize);
                } else {
                    assert(out@[out.len() - 1] == j);
                }
            }
        }
        j = j + 1;
    }
    out
}

/// The opacity of a block's mirror image under the ground plane: blocks on
/// the lowest layers are mirrored, fainter the higher they stand, and blocks
/// above them are not mirrored at all.
pub fn ground_reflection_alpha(b: &Block) -> (r: Option<u8>)
    ensures
        b.position.y <= GROUND_REFLECTION_TOP ==> r == Some(
            (GROUND_FADE_STEP * (GROUND_REFLECTION_TOP - b.position.y)) as u8,
        ),
        b.position.y > GROUND_REFLECTION_TOP ==> r is None,
{
    if b.position.y <= GROUND_REFLECTION_TOP {
        Some(GROUND_FADE_STEP * (GROUND_REFLECTION_TOP - b.position.y) as u8)
    } else {
        None
    }
}

} // verus!

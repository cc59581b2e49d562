//! Fixed-point plane geometry: coordinates in thousandths of a world
//! unit, and the axis-aligned bounding-box overlap test.

use vstd::prelude::*;

verus! {

/// Greatest coordinate magnitude the simulation keeps, in thousandths
/// of a unit.  Motion clamps to this bound, so every stored position
/// stays well inside `i64` and the overlap arithmetic cannot overflow.
pub const COORD_LIMIT: i64 = 1_000_000_000_000;

/// Greatest box edge length accepted by the overlap test, in
/// thousandths of a unit.
pub const SIZE_LIMIT: i64 = 1_000_000_000;

/// A coordinate the simulation may store.
pub open spec fn in_coord_range(v: int) -> bool {
    -(COORD_LIMIT as int) <= v <= COORD_LIMIT as int
}

/// A box edge length the overlap test accepts.
pub open spec fn in_size_range(v: int) -> bool {
    0 <= v <= SIZE_LIMIT as int
}

/// Clamping a coordinate into the kept range.
pub open spec fn clamp_coord(v: int) -> int {
    if v < -(COORD_LIMIT as int) {
        -(COORD_LIMIT as int)
    } else if v > COORD_LIMIT as int {
        COORD_LIMIT as int
    } else {
        v
    }
}

/// Two centred spans share a point: the centre distance is at most the
/// sum of the half-lengths.  Touching ends count as overlap.
pub open spec fn spans_overlap(ac: int, alen: int, bc: int, blen: int) -> bool {
    &&& 2 * (ac - bc) <= alen + blen
    &&& 2 * (bc - ac) <= alen + blen
}

/// Axis-aligned boxes, given by centre and edge lengths, share a point.
pub open spec fn boxes_overlap(
    ax: int, ay: int, aw: int, ah: int,
    bx: int, by: int, bw: int, bh: int,
) -> bool {
    spans_overlap(ax, aw, bx, bw) && spans_overlap(ay, ah, by, bh)
}

/// The overlap test does not depend on the order of the two boxes.
pub proof fn lemma_boxes_overlap_symmetric(
    ax: int, ay: int, aw: int, ah: int,
    bx: int, by: int, bw: int, bh: int,
)
    ensures
        boxes_overlap(ax, ay, aw, ah, bx, by, bw, bh)
            == boxes_overlap(bx, by, bw, bh, ax, ay, aw, ah),
{
}

/// Clamps a coordinate into the kept range.
pub fn clamp_to_range(v: i64) -> (r: i64)
    ensures
        r as int == clamp_coord(v as int),
{
    if v < -COORD_LIMIT {
        -COORD_LIMIT
    } else if v > COORD_LIMIT {
        COORD_LIMIT
    } else {
        v
    }
}

/// Decides whether two axis-aligned boxes overlap; touching edges count.
pub fn overlap(
    ax: i64, ay: i64, aw: i64, ah: i64,
    bx: i64, by: i64, bw: i64, bh: i64,
) -> (r: bool)
    requires
        in_coord_range(ax as int),
        in_coord_range(ay as int),
        in_coord_range(bx as int),
        in_coord_range(by as int),
        in_size_range(aw as int),
        in_size_range(ah as int),
        in_size_range(bw as int),
        in_size_range(bh as int),
    ensures
        r == boxes_overlap(
            ax as int, ay as int, aw as int, ah as int,
            bx as int, by as int, bw as int, bh as int,
        ),
{
    let dxab: i64 = ax - bx;
    let dxba: i64 = bx - ax;
    let dyab: i64 = ay - by;
    let dyba: i64 = by - ay;
    let wsum: i64 = aw + bw;
    let hsum: i64 = ah + bh;
    2 * dxab <= wsum && 2 * dxba <= wsum && 2 * dyab <= hsum && 2 * dyba <= hsum
}

} // verus!

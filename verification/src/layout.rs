//! The automatic tiling layout: a pure function from the number of views on
//! an output (in stacking order) and the output's resolution to the
//! geometry of each view.
//!
//! Views are laid out two to a row, left column then right; the row height
//! is the resolution height divided by the number of rows, ceil(n/2), and
//! the column width is half the resolution width. The first row sits at
//! y = 0 and every later row at y = row height; a final view that lands
//! alone in the left column takes the full output width.

use vstd::prelude::*;
use crate::geometry::{Point, Size, Geometry};

verus! {

/// Width of one tiling column: half the output width.
pub open spec fn column_width(res: Size) -> int {
    res.w as int / 2
}

/// Height of one tiling row for `n` views: the output height divided by the
/// number of rows, ceil(n/2) = (n+1)/2.
pub open spec fn row_height(n: int, res: Size) -> int
    recommends
        n >= 1,
{
    res.h as int / ((n + 1) / 2)
}

/// The geometry the tiling assigns to view `i` of `n` (0-based, in stacking
/// order): odd indices sit in the right column; the first two views sit in
/// the first row (y = 0) and all others at y = row height; the last view
/// takes the full width when it is alone in the left column.
pub open spec fn tile(i: int, n: int, res: Size) -> Geometry
    recommends
        0 <= i < n,
        res.h <= i32::MAX,
{
    let w = column_width(res);
    let h = row_height(n, res);
    Geometry {
        origin: Point {
            x: if i % 2 == 1 { w as i32 } else { 0 },
            y: if i < 2 { 0 } else { h as i32 },
        },
        size: Size {
            w: if i == n - 1 && i % 2 == 0 { res.w } else { w as u32 },
            h: h as u32,
        },
    }
}

/// Compute the tiling for `n` views on an output of the given resolution:
/// element `i` is the geometry to apply to the `i`-th view of the stacking
/// order. Empty for an empty output. The height bound is forced by the
/// signed coordinate type a row's y position is stored in.
pub fn retile(n: usize, resolution: Size) -> (tiles: Vec<Geometry>)
    requires
        resolution.h <= i32::MAX,
    ensures
        tiles.len() == n,
        forall|i: int| 0 <= i < n ==> tiles[i] == tile(i, n as int, resolution),
{
    let mut tiles: Vec<Geometry> = Vec::new();
    if n == 0 {
        return tiles;
    }
    let w: u32 = resolution.w / 2;
    let rows: usize = n / 2 + n % 2;
    assert(rows as int == (n as int + 1) / 2);
    let h: u32 = (resolution.h as u64 / rows as u64) as u32;
    assert(h as int == row_height(n as int, resolution));
    let mut i: usize = 0;
    while i < n
        invariant
            1 <= n,
            0 <= i <= n,
            tiles.len() == i,
            w as int == column_width(resolution),
            h as int == row_height(n as int, resolution),
            resolution.h <= i32::MAX,
            forall|j: int| 0 <= j < i ==> tiles[j] == tile(j, n as int, resolution),
        decreases n - i,
    {
        let x: i32 = if i % 2 == 1 { w as i32 } else { 0 };
        let y: i32 = if i < 2 { 0 } else { h as i32 };
        let sw: u32 = if i == n - 1 && i % 2 == 0 { resolution.w } else { w };
        tiles.push(Geometry { origin: Point { x, y }, size: Size { w: sw, h } });
        i += 1;
    }
    tiles
}

/// The tiling is idempotent: it depends on the view count and the
/// resolution alone, so running it twice over an unchanged view list — or
/// any two times over lists of the same length — assigns identical
/// geometries both times.
pub proof fn lemma_retile_idempotent(t1: Seq<Geometry>, t2: Seq<Geometry>, n: int, res: Size)
    requires
        t1.len() == n,
        t2.len() == n,
        forall|i: int| 0 <= i < n ==> t1[i] == tile(i, n, res),
        forall|i: int| 0 <= i < n ==> t2[i] == tile(i, n, res),
    ensures
        t1 == t2,
{
    assert(t1 =~= t2);
}

} // verus!

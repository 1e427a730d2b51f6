//! Where the blocks of a piece stand on screen, and how low they reach.

use vstd::prelude::*;
use crate::shapes::{cells_of, is_grid, is_shape, occupied, Tetrimino, SIDE};
use crate::stage::{block, BLOCK_SIZE};

verus! {

/// The distance of `i` from 3. For a row of a piece this is the row's
/// mirror image: row 0 becomes 3 and row 3 becomes 0.
pub open spec fn reflect(i: int) -> int {
    if i > 3 {
        i - 3
    } else {
        3 - i
    }
}

/// The place of a cell after the turn: the cell in column `x` of row `y`
/// goes to column `reflect(y)` of row `x`.
pub open spec fn turned(x: int, y: int) -> (int, int) {
    (reflect(y), x)
}

/// The turn of one cell, from column `x` and row `y` to its new column and
/// row. It is the only turn there is: a piece is either turned or not.
pub fn rotate(x: i32, y: i32) -> (place: (i32, i32))
    requires
        3 - y <= i32::MAX,
    ensures
        (place.0 as int, place.1 as int) == turned(x as int, y as int),
{
    let new_x: i32 = if y > 3 {
        y - 3
    } else {
        3 - y
    };
    let new_y: i32 = x;
    (new_x, new_y)
}

/// On a row of a piece the turn's mirror is `3 - i`, and mirroring twice
/// gives the row back.
pub proof fn reflect_mirrors_rows(i: int)
    requires
        0 <= i <= 3,
    ensures
        reflect(i) == 3 - i,
        0 <= reflect(i) <= 3,
        reflect(reflect(i)) == i,
{
}

/// Column and row, counted in blocks from the piece's position, at which
/// the cell in row `i`, column `j` is drawn.
pub open spec fn offset(i: int, j: int, is_rotate: bool) -> (int, int) {
    if is_rotate {
        turned(j, i)
    } else {
        (j, i)
    }
}

/// The top left corner on screen of cell number `k` of a piece at
/// (`x`, `y`), the cells counted row by row.
pub open spec fn corner(k: int, x: int, y: int, is_rotate: bool) -> (int, int) {
    let side = offset(k / 4, k % 4, is_rotate);
    (x + side.0 * block(), y + side.1 * block())
}

/// The corners of the blocks among the first `n` cells, in the order of the
/// cells.
pub open spec fn blocks_upto(cells: Seq<Seq<u8>>, n: int, x: int, y: int, is_rotate: bool) -> Seq<
    (int, int),
>
    decreases n,
{
    if n <= 0 {
        Seq::empty()
    } else {
        let before = blocks_upto(cells, n - 1, x, y, is_rotate);
        if occupied(cells, (n - 1) / 4, (n - 1) % 4) {
            before.push(corner(n - 1, x, y, is_rotate))
        } else {
            before
        }
    }
}

/// The corners of all blocks of a piece at (`x`, `y`).
pub open spec fn blocks_of(cells: Seq<Seq<u8>>, x: int, y: int, is_rotate: bool) -> Seq<
    (int, int),
> {
    blocks_upto(cells, 16, x, y, is_rotate)
}

/// The greatest vertical coordinate among the points, and 0 where none is
/// greater.
pub open spec fn lowest(points: Seq<(int, int)>) -> int
    decreases points.len(),
{
    if points.len() == 0 {
        0
    } else {
        let before = lowest(points.drop_last());
        if before < points.last().1 {
            points.last().1
        } else {
            before
        }
    }
}

/// The bottom extent of a piece at (`x`, `y`): how far down the corners of
/// its blocks reach.
pub open spec fn bottom_of(cells: Seq<Seq<u8>>, x: int, y: int, is_rotate: bool) -> int {
    lowest(blocks_of(cells, x, y, is_rotate))
}

/// The corners as pairs of mathematical integers.
pub open spec fn points(blocks: Seq<(i32, i32)>) -> Seq<(int, int)> {
    blocks.map_values(|b: (i32, i32)| (b.0 as int, b.1 as int))
}

/// What there is to draw of a piece: the top left corner of each of its
/// blocks, and the bottom extent.
pub struct Drawing {
    pub blocks: Vec<(i32, i32)>,
    pub bottom_y: i32,
}

/// `lowest` is the maximum of 0 and the vertical coordinates.
pub proof fn lowest_is_greatest(points: Seq<(int, int)>)
    ensures
        lowest(points) >= 0,
        forall|k: int| 0 <= k < points.len() ==> (#[trigger] points[k]).1 <= lowest(points),
        lowest(points) == 0 || exists|k: int|
            0 <= k < points.len() && (#[trigger] points[k]).1 == lowest(points),
    decreases points.len(),
{
    if points.len() > 0 {
        let front = points.drop_last();
        lowest_is_greatest(front);
        assert forall|k: int| 0 <= k < points.len() implies (#[trigger] points[k]).1 <= lowest(
            points,
        ) by {
            if k < front.len() {
                assert(points[k] == front[k]);
            }
        }
        if lowest(points) != 0 {
            if lowest(front) < points.last().1 {
                assert(points[points.len() - 1].1 == lowest(points));
            } else {
                let k = choose|k: int| 0 <= k < front.len() && (#[trigger] front[k]).1 == lowest(front);
                assert(points[k] == front[k]);
            }
        }
    }
}

/// Every block of a piece at (`x`, `y`) has its corner at most three blocks
/// to the right of `x` and at most three blocks below `y`.
pub proof fn blocks_stay_near(cells: Seq<Seq<u8>>, n: int, x: int, y: int, is_rotate: bool)
    requires
        n <= 16,
    ensures
        blocks_upto(cells, n, x, y, is_rotate).len() <= if n < 0 { 0 } else { n },
        forall|k: int|
            0 <= k < blocks_upto(cells, n, x, y, is_rotate).len() ==> {
                let p = #[trigger] blocks_upto(cells, n, x, y, is_rotate)[k];
                x <= p.0 <= x + 3 * block() && y <= p.1 <= y + 3 * block()
            },
    decreases n,
{
    if n > 0 {
        blocks_stay_near(cells, n - 1, x, y, is_rotate);
    }
}

/// The bottom extent of a piece at (`x`, `y`) is at least 0 and at most
/// three blocks below `y`, or 0 if that is higher up.
pub proof fn bottom_stays_near(cells: Seq<Seq<u8>>, x: int, y: int, is_rotate: bool)
    ensures
        0 <= bottom_of(cells, x, y, is_rotate),
        bottom_of(cells, x, y, is_rotate) <= y + 3 * block() || bottom_of(cells, x, y, is_rotate)
            == 0,
{
    blocks_stay_near(cells, 16, x, y, is_rotate);
    lowest_is_greatest(blocks_of(cells, x, y, is_rotate));
}

/// A cell that holds a block has its corner among the blocks.
pub proof fn block_is_laid_out(
    cells: Seq<Seq<u8>>,
    n: int,
    k: int,
    x: int,
    y: int,
    is_rotate: bool,
)
    requires
        0 <= k < n,
        occupied(cells, k / 4, k % 4),
    ensures
        blocks_upto(cells, n, x, y, is_rotate).contains(corner(k, x, y, is_rotate)),
    decreases n,
{
    let before = blocks_upto(cells, n - 1, x, y, is_rotate);
    let all = blocks_upto(cells, n, x, y, is_rotate);
    if k == n - 1 {
        assert(all[before.len() as int] == corner(k, x, y, is_rotate));
    } else {
        block_is_laid_out(cells, n - 1, k, x, y, is_rotate);
        let at = choose|at: int| 0 <= at < before.len() && before[at] == corner(k, x, y, is_rotate);
        assert(all[at] == corner(k, x, y, is_rotate));
    }
}

/// A shape at (`x`, `y`) reaches down to `y` at least: its bottom extent
/// is not above its position.
pub proof fn bottom_is_below_position(cells: Seq<Seq<u8>>, x: int, y: int, is_rotate: bool)
    requires
        is_shape(cells),
    ensures
        y <= bottom_of(cells, x, y, is_rotate),
{
    let (i, j) = choose|i: int, j: int| 0 <= i < SIDE && 0 <= j < SIDE && occupied(cells, i, j);
    let k = 4 * i + j;
    block_is_laid_out(cells, 16, k, x, y, is_rotate);
    let all = blocks_of(cells, x, y, is_rotate);
    let at = choose|at: int| 0 <= at < all.len() && all[at] == corner(k, x, y, is_rotate);
    lowest_is_greatest(all);
    assert(all[at].1 <= lowest(all));
}

/// Lays out a piece at (`position_x`, `position_y`), turned or not: the
/// corners of its blocks row by row, for the caller to fill, and the bottom
/// extent.
pub fn draw_mino(mino: &Tetrimino, position_x: i32, position_y: i32, is_rotate: bool) -> (drawing:
    Drawing)
    requires
        is_grid(cells_of(mino)),
        position_x + 3 * block() <= i32::MAX,
        position_y + 3 * block() <= i32::MAX,
    ensures
        points(drawing.blocks@) == blocks_of(
            cells_of(mino),
            position_x as int,
            position_y as int,
            is_rotate,
        ),
        drawing.bottom_y == bottom_of(
            cells_of(mino),
            position_x as int,
            position_y as int,
            is_rotate,
        ),
{
    let ghost cells = cells_of(mino);
    let mut blocks: Vec<(i32, i32)> = Vec::new();
    let mut bottom_y: i32 = 0;
    let mut i: usize = 0;
    assert(points(blocks@) =~= blocks_upto(cells, 0, position_x as int, position_y as int, is_rotate));
    while i < SIDE
        invariant
            i <= SIDE,
            cells == cells_of(mino),
            is_grid(cells),
            position_x + 3 * block() <= i32::MAX,
            position_y + 3 * block() <= i32::MAX,
            points(blocks@) == blocks_upto(
                cells,
                4 * i,
                position_x as int,
                position_y as int,
                is_rotate,
            ),
            bottom_y == lowest(points(blocks@)),
        decreases SIDE - i,
    {
        let mut j: usize = 0;
        while j < SIDE
            invariant
                i < SIDE,
                j <= SIDE,
                cells == cells_of(mino),
                is_grid(cells),
                position_x + 3 * block() <= i32::MAX,
                position_y + 3 * block() <= i32::MAX,
                points(blocks@) == blocks_upto(
                    cells,
                    4 * i + j,
                    position_x as int,
                    position_y as int,
                    is_rotate,
                ),
                bottom_y == lowest(points(blocks@)),
            decreases SIDE - j,
        {
            assert(cells[i as int].len() == SIDE);
            let on: u8 = mino[i][j];
            if on == 1 {
                let side: (i32, i32) = if is_rotate {
                    rotate(j as i32, i as i32)
                } else {
                    (j as i32, i as i32)
                };
                let x: i32 = position_x + side.0 * BLOCK_SIZE as i32;
                let y: i32 = position_y + side.1 * BLOCK_SIZE as i32;
                if bottom_y < y {
                    bottom_y = y;
                }
                let ghost before = points(blocks@);
                blocks.push((x, y));
                proof {
                    assert(points(blocks@) =~= before.push((x as int, y as int)));
                    assert(points(blocks@).drop_last() =~= before);
                }
            }
            j += 1;
        }
        i += 1;
    }
    Drawing { blocks, bottom_y }
}

} // verus!

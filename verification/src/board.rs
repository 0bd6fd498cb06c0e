//! The board: which cells lie inside the walls, which of them the snake
//! leaves free, and how a step moves a cell.

use vstd::prelude::*;

use crate::snake::{Direction, Position};

verus! {

/// A cell strictly inside the border walls of a `width` × `height` board.
pub open spec fn in_interior(p: Position, width: int, height: int) -> bool {
    &&& 1 <= p.x < width - 1
    &&& 1 <= p.y < height - 1
}

/// An interior cell that no body segment covers.
pub open spec fn is_free_cell(p: Position, width: int, height: int, body: Seq<Position>) -> bool {
    in_interior(p, width, height) && !body.contains(p)
}

/// Some interior cell is not covered by the body.
pub open spec fn has_free_cell(width: int, height: int, body: Seq<Position>) -> bool {
    exists|p: Position| #[trigger] is_free_cell(p, width, height, body)
}

/// Number of interior cells of a `width` × `height` board.
pub open spec fn inner_cells(width: int, height: int) -> int {
    (width - 2) * (height - 2)
}

/// Column-major order on cells, the order in which free cells are listed.
pub open spec fn cell_before(a: Position, b: Position) -> bool {
    a.x < b.x || (a.x == b.x && a.y < b.y)
}

/// `cells` lists exactly the free interior cells other than `exclude`, each
/// once, in column-major order.
pub open spec fn lists_free_cells(
    cells: Seq<Position>,
    width: int,
    height: int,
    body: Seq<Position>,
    exclude: Option<Position>,
) -> bool {
    &&& forall|p: Position|
        #![trigger cells.contains(p)]
        cells.contains(p) <==> (is_free_cell(p, width, height, body) && exclude != Some(p))
    &&& forall|i: int, j: int|
        0 <= i < j < cells.len() ==> cell_before(#[trigger] cells[i], #[trigger] cells[j])
}

/// The `k`-th interior cell in column-major order of a board of the given
/// height.
spec fn grid_cell(k: int, height: int) -> Position {
    Position { x: (1 + k / (height - 2)) as u16, y: (1 + k % (height - 2)) as u16 }
}

proof fn lemma_grid_cell(k: int, width: int, height: int)
    requires
        3 <= width <= 0xffff,
        3 <= height <= 0xffff,
        0 <= k < inner_cells(width, height),
    ensures
        grid_cell(k, height).x == 1 + k / (height - 2),
        grid_cell(k, height).y == 1 + k % (height - 2),
        in_interior(grid_cell(k, height), width, height),
{
    let d = height - 2;
    assert(0 <= k / d < width - 2) by (nonlinear_arith)
        requires
            d > 0,
            0 <= k < (width - 2) * d,
    {
        if k / d >= width - 2 {
            assert(k >= d * (k / d));
            assert(d * (k / d) >= d * (width - 2));
        }
    }
    assert(0 <= k % d < d) by (nonlinear_arith)
        requires
            d > 0,
    ;
}

proof fn lemma_grid_cell_injective(k1: int, k2: int, width: int, height: int)
    requires
        3 <= width <= 0xffff,
        3 <= height <= 0xffff,
        0 <= k1 < inner_cells(width, height),
        0 <= k2 < inner_cells(width, height),
        grid_cell(k1, height) == grid_cell(k2, height),
    ensures
        k1 == k2,
{
    lemma_grid_cell(k1, width, height);
    lemma_grid_cell(k2, width, height);
    let d = height - 2;
    assert(k1 == k2) by (nonlinear_arith)
        requires
            d > 0,
            k1 / d == k2 / d,
            k1 % d == k2 % d,
    {
        assert(k1 == d * (k1 / d) + k1 % d);
        assert(k2 == d * (k2 / d) + k2 % d);
    }
}

/// A body that leaves no interior cell free has at least as many segments
/// as the board has interior cells.
pub proof fn lemma_full_board(body: Seq<Position>, width: int, height: int)
    requires
        2 <= width <= 0xffff,
        2 <= height <= 0xffff,
        !has_free_cell(width, height, body),
    ensures
        body.len() >= inner_cells(width, height),
{
    if width == 2 || height == 2 {
        assert(inner_cells(width, height) == 0) by (nonlinear_arith)
            requires
                width == 2 || height == 2,
        ;
    } else {
        let n = inner_cells(width, height);
        assert(n >= 0) by (nonlinear_arith)
            requires
                width >= 3,
                height >= 3,
                n == (width - 2) * (height - 2),
        ;
        let grid = Seq::new(n as nat, |k: int| grid_cell(k, height));
        assert(grid.no_duplicates()) by {
            assert forall|i: int, j: int|
                0 <= i < grid.len() && 0 <= j < grid.len() && i != j implies grid[i]
                != grid[j] by {
                if grid[i] == grid[j] {
                    lemma_grid_cell_injective(i, j, width, height);
                }
            }
        }
        assert(grid.to_set().subset_of(body.to_set())) by {
            assert forall|p: Position| grid.to_set().contains(p) implies body.to_set().contains(
                p,
            ) by {
                let k = choose|k: int| 0 <= k < grid.len() && grid[k] == p;
                lemma_grid_cell(k, width, height);
                assert(!is_free_cell(p, width, height, body));
                assert(body.contains(p));
            }
        }
        grid.unique_seq_to_set();
        body.lemma_cardinality_of_set();
        vstd::set_lib::lemma_len_subset(grid.to_set(), body.to_set());
    }
}

/// A body of distinct interior cells with at least as many segments as the
/// board has interior cells covers the whole interior.
pub proof fn lemma_filled_board(body: Seq<Position>, width: int, height: int)
    requires
        2 <= width <= 0xffff,
        2 <= height <= 0xffff,
        body.no_duplicates(),
        fits_within(body, width, height),
        body.len() >= inner_cells(width, height),
    ensures
        !has_free_cell(width, height, body),
{
    if has_free_cell(width, height, body) {
        let p = choose|p: Position| #[trigger] is_free_cell(p, width, height, body);
        let n = inner_cells(width, height);
        let d = height - 2;
        assert(width >= 3 && height >= 3);
        assert(n >= 0) by (nonlinear_arith)
            requires
                width >= 3,
                height >= 3,
                n == (width - 2) * (height - 2),
        ;
        let grid = Seq::new(n as nat, |k: int| grid_cell(k, height));
        assert(grid.no_duplicates()) by {
            assert forall|i: int, j: int|
                0 <= i < grid.len() && 0 <= j < grid.len() && i != j implies grid[i]
                != grid[j] by {
                if grid[i] == grid[j] {
                    lemma_grid_cell_injective(i, j, width, height);
                }
            }
        }
        assert forall|q: Position| in_interior(q, width, height) implies #[trigger] grid.to_set().contains(
            q,
        ) by {
            let k = (q.x - 1) * d + (q.y - 1);
            assert(0 <= k < n && k / d == q.x - 1 && k % d == q.y - 1) by (nonlinear_arith)
                requires
                    d > 0,
                    0 <= q.x - 1 < width - 2,
                    0 <= q.y - 1 < d,
                    k == (q.x - 1) * d + (q.y - 1),
                    n == (width - 2) * d,
            {
                assert((q.x - 1) * d <= (width - 3) * d);
                assert(k == d * (q.x - 1) + (q.y - 1));
                vstd::arithmetic::div_mod::lemma_fundamental_div_mod_converse(
                    k,
                    d,
                    q.x - 1,
                    q.y - 1,
                );
            }
            lemma_grid_cell(k, width, height);
            assert(grid[k] == q);
        }
        let cells = grid.to_set();
        assert(body.to_set().subset_of(cells.remove(p))) by {
            assert forall|q: Position| body.to_set().contains(q) implies cells.remove(p).contains(
                q,
            ) by {
                let i = choose|i: int| 0 <= i < body.len() && body[i] == q;
                assert(in_interior(body[i], width, height));
            }
        }
        grid.unique_seq_to_set();
        body.unique_seq_to_set();
        vstd::set_lib::lemma_len_subset(body.to_set(), cells.remove(p));
    }
}

/// Every segment of `body` lies inside the walls of a `width` × `height`
/// board.
pub open spec fn fits_within(body: Seq<Position>, width: int, height: int) -> bool {
    forall|i: int| 0 <= i < body.len() ==> in_interior(#[trigger] body[i], width, height)
}

/// One cell from `p` in direction `d`; a step off the top or the left edge
/// wraps around to the far end of the coordinate range.
pub open spec fn step(p: Position, d: Direction) -> Position {
    match d {
        Direction::Up => Position {
            x: p.x,
            y: (if p.y == 0 { 0xffff } else { p.y - 1 }) as u16,
        },
        Direction::Down => Position { x: p.x, y: (p.y + 1) as u16 },
        Direction::Left => Position {
            x: (if p.x == 0 { 0xffff } else { p.x - 1 }) as u16,
            y: p.y,
        },
        Direction::Right => Position { x: (p.x + 1) as u16, y: p.y },
    }
}

/// A step moves the cell by one along its heading and leaves the other
/// coordinate alone: up lowers `y`, down raises `y`, left lowers `x`, right
/// raises `x`. Stepping up from row 0 or left from column 0 wraps to the far
/// end of the `u16` range.
pub proof fn lemma_step_moves_one_cell(p: Position, d: Direction)
    ensures
        d == Direction::Up && p.y > 0 ==> step(p, d) == (Position { x: p.x, y: (p.y - 1) as u16 }),
        d == Direction::Up && p.y == 0 ==> step(p, d) == (Position { x: p.x, y: 0xffff }),
        d == Direction::Down && p.y < 0xffff ==> step(p, d) == (Position {
            x: p.x,
            y: (p.y + 1) as u16,
        }),
        d == Direction::Left && p.x > 0 ==> step(p, d) == (Position {
            x: (p.x - 1) as u16,
            y: p.y,
        }),
        d == Direction::Left && p.x == 0 ==> step(p, d) == (Position { x: 0xffff, y: p.y }),
        d == Direction::Right && p.x < 0xffff ==> step(p, d) == (Position {
            x: (p.x + 1) as u16,
            y: p.y,
        }),
{
}

} // verus!

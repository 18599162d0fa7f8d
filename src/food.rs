//! Where food may go: the free cells of the board, and a random pick among them.
use rand::Rng;
use vstd::prelude::*;

use crate::collision::occupies;
use crate::geometry::{Grid, Position};

verus! {

/// Free cells of row `y` with `x` below `n`, left to right.
pub open spec fn free_in_row(body: Seq<Position>, y: int, n: nat) -> Seq<Position>
    decreases n,
{
    if n == 0 {
        seq![]
    } else {
        let p = Position { x: (n - 1) as i32, y: y as i32 };
        free_in_row(body, y, (n - 1) as nat) + if body.contains(p) {
            seq![]
        } else {
            seq![p]
        }
    }
}

/// Free cells of the rows below `rows`, row by row, each of `width` cells.
pub open spec fn free_in_rows(body: Seq<Position>, width: nat, rows: nat) -> Seq<Position>
    decreases rows,
{
    if rows == 0 {
        seq![]
    } else {
        free_in_rows(body, width, (rows - 1) as nat) + free_in_row(body, rows - 1, width)
    }
}

/// The cells of the board that the body does not cover, in row-major order.
pub open spec fn free_cells_of(grid: Grid, body: Seq<Position>) -> Seq<Position> {
    if grid.width <= 0 || grid.height <= 0 {
        seq![]
    } else {
        free_in_rows(body, grid.width as nat, grid.height as nat)
    }
}

proof fn lemma_free_in_row(body: Seq<Position>, y: int, n: nat, p: Position)
    requires
        i32::MIN <= y <= i32::MAX,
        n <= i32::MAX,
    ensures
        free_in_row(body, y, n).contains(p) <==> (0 <= p.x < n && p.y == y && !body.contains(p)),
    decreases n,
{
    if n > 0 {
        let q = Position { x: (n - 1) as i32, y: y as i32 };
        let rest = free_in_row(body, y, (n - 1) as nat);
        let last: Seq<Position> = if body.contains(q) { seq![] } else { seq![q] };
        lemma_free_in_row(body, y, (n - 1) as nat, p);
        assert(free_in_row(body, y, n) == rest + last);
        if (rest + last).contains(p) {
            let k = choose|k: int| 0 <= k < (rest + last).len() && (rest + last)[k] == p;
            if k >= rest.len() {
                assert(last[k - rest.len()] == p);
            } else {
                assert(rest[k] == p);
            }
        }
        if 0 <= p.x < n && p.y == y && !body.contains(p) {
            if p.x == n - 1 {
                assert((rest + last)[rest.len() as int] == p);
            } else {
                let k = choose|k: int| 0 <= k < rest.len() && rest[k] == p;
                assert((rest + last)[k] == p);
            }
        }
    }
}

proof fn lemma_free_in_rows(body: Seq<Position>, width: nat, rows: nat, p: Position)
    requires
        width <= i32::MAX,
        rows <= i32::MAX,
    ensures
        free_in_rows(body, width, rows).contains(p) <==> (0 <= p.x < width && 0 <= p.y < rows
            && !body.contains(p)),
    decreases rows,
{
    if rows > 0 {
        let rest = free_in_rows(body, width, (rows - 1) as nat);
        let row = free_in_row(body, rows - 1, width);
        lemma_free_in_rows(body, width, (rows - 1) as nat, p);
        lemma_free_in_row(body, rows - 1, width, p);
        assert(free_in_rows(body, width, rows) == rest + row);
        if (rest + row).contains(p) {
            let k = choose|k: int| 0 <= k < (rest + row).len() && (rest + row)[k] == p;
            if k >= rest.len() {
                assert(row[k - rest.len()] == p);
            } else {
                assert(rest[k] == p);
            }
        }
        if 0 <= p.x < width && 0 <= p.y < rows && !body.contains(p) {
            if p.y == rows - 1 {
                let k = choose|k: int| 0 <= k < row.len() && row[k] == p;
                assert((rest + row)[rest.len() + k] == p);
            } else {
                let k = choose|k: int| 0 <= k < rest.len() && rest[k] == p;
                assert((rest + row)[k] == p);
            }
        }
    }
}

/// A cell is free exactly when it lies on the board and the body does not cover it.
pub proof fn lemma_free_cell(grid: Grid, body: Seq<Position>, p: Position)
    ensures
        free_cells_of(grid, body).contains(p) <==> (grid.contains(p) && !body.contains(p)),
{
    if grid.width > 0 && grid.height > 0 {
        lemma_free_in_rows(body, grid.width as nat, grid.height as nat, p);
    }
}

/// The cells of the board that the body does not cover, in row-major order.
pub fn free_cells(grid: &Grid, body: &Vec<Position>) -> (r: Vec<Position>)
    ensures
        r@ == free_cells_of(*grid, body@),
{
    let mut r: Vec<Position> = Vec::new();
    if grid.width <= 0 || grid.height <= 0 {
        return r;
    }
    let ghost width = grid.width as nat;
    let mut y: i32 = 0;
    while y < grid.height
        invariant
            0 < grid.width,
            0 <= y <= grid.height,
            width == grid.width as nat,
            r@ == free_in_rows(body@, width, y as nat),
        decreases grid.height - y,
    {
        let ghost before = r@;
        let mut x: i32 = 0;
        while x < grid.width
            invariant
                0 <= x <= grid.width,
                0 <= y < grid.height,
                width == grid.width as nat,
                before == free_in_rows(body@, width, y as nat),
                r@ == before + free_in_row(body@, y as int, x as nat),
            decreases grid.width - x,
        {
            let p = Position { x, y };
            let ghost row = free_in_row(body@, y as int, x as nat);
            if !occupies(body, p) {
                r.push(p);
                assert(r@ =~= before + (row + seq![p]));
            } else {
                assert(row + seq![] =~= row);
            }
            assert(free_in_row(body@, y as int, (x + 1) as nat) == row + if body@.contains(p) {
                seq![]
            } else {
                seq![p]
            });
            x += 1;
        }
        assert(free_in_rows(body@, width, (y + 1) as nat) == before + free_in_row(
            body@,
            y as int,
            width,
        ));
        y += 1;
    }
    r
}

/// Relies on rand::Rng::gen_range on rand::thread_rng(): a value drawn from `[0, bound)`.
#[verifier::external_body]
fn random_below(bound: usize) -> (r: usize)
    requires
        bound > 0,
    ensures
        r < bound,
{
    rand::thread_rng().gen_range(0, bound)
}

/// The food cell that a draw of `pick` selects: the free cell at `pick` modulo their number.
pub open spec fn food_choice(grid: Grid, body: Seq<Position>, pick: usize) -> Option<Position> {
    let free = free_cells_of(grid, body);
    if free.len() == 0 {
        None
    } else {
        Some(free[pick as int % free.len() as int])
    }
}

/// The free cell that `pick` selects, or `None` when the body covers the whole board.
pub fn place_food(grid: &Grid, body: &Vec<Position>, pick: usize) -> (r: Option<Position>)
    ensures
        r == food_choice(*grid, body@, pick),
        r.is_some() ==> grid.contains(r.unwrap()) && !body@.contains(r.unwrap()),
{
    let free = free_cells(grid, body);
    if free.len() == 0 {
        None
    } else {
        let p = free[pick % free.len()];
        proof {
            lemma_free_cell(*grid, body@, p);
        }
        Some(p)
    }
}

/// A number to hand to `place_food`: drawn uniformly at random from all of `usize`,
/// so that its remainder modulo the number of free cells is as good as uniform.
pub fn draw_pick() -> (r: usize)
    ensures
        r < usize::MAX,
{
    random_below(usize::MAX)
}

} // verus!

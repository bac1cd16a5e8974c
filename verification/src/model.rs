//! The mathematical model of the grid: cells as a map from coordinates to
//! states, the neighbour count, the rule for one cell, a whole generation,
//! and the rendered text.

use vstd::prelude::*;

verus! {

/// The states of a grid, by coordinate `(x, y)`.
pub type Cells = Map<(int, int), bool>;

/// Whether `position` lies in the rectangle `[0, width) x [0, height)`.
pub open spec fn in_grid(width: int, height: int, position: (int, int)) -> bool {
    0 <= position.0 < width && 0 <= position.1 < height
}

/// The coordinates of a grid of the given size. Empty when either side is
/// not positive.
pub open spec fn grid_positions(width: int, height: int) -> Set<(int, int)> {
    Set::new(|position: (int, int)| in_grid(width, height, position))
}

/// The grid of the given size whose cells are the given states, column
/// after column: the cell at `(x, y)` is `states[x * height + y]`.
pub open spec fn from_states(width: int, height: int, states: Seq<bool>) -> Cells {
    Map::new(
        |position: (int, int)| in_grid(width, height, position),
        |position: (int, int)| states[position.0 * height + position.1],
    )
}

/// The grid of the given size in which every cell is dead.
pub open spec fn all_dead(width: int, height: int) -> Cells {
    Map::new(|position: (int, int)| in_grid(width, height, position), |position: (int, int)| false)
}

/// Whether `position` holds a live cell. A coordinate outside the grid holds
/// no cell at all, and so no live one.
pub open spec fn alive_at(cells: Cells, position: (int, int)) -> bool {
    cells.dom().contains(position) && cells[position]
}

/// 1 for a true condition, 0 for a false one.
pub open spec fn one_if(condition: bool) -> nat {
    if condition {
        1
    } else {
        0
    }
}

/// The number of live cells among the eight coordinates around `position`.
/// Coordinates outside the grid do not contribute.
pub open spec fn live_neighbours(cells: Cells, position: (int, int)) -> nat {
    let (x, y) = position;
    one_if(alive_at(cells, (x - 1, y))) + one_if(alive_at(cells, (x + 1, y))) + one_if(
        alive_at(cells, (x, y - 1)),
    ) + one_if(alive_at(cells, (x, y + 1))) + one_if(alive_at(cells, (x - 1, y - 1))) + one_if(
        alive_at(cells, (x - 1, y + 1)),
    ) + one_if(alive_at(cells, (x + 1, y - 1))) + one_if(alive_at(cells, (x + 1, y + 1)))
}

/// The number of coordinates around `position` that lie in the grid.
pub open spec fn grid_neighbours(width: int, height: int, position: (int, int)) -> nat {
    let (x, y) = position;
    one_if(in_grid(width, height, (x - 1, y))) + one_if(in_grid(width, height, (x + 1, y)))
        + one_if(in_grid(width, height, (x, y - 1))) + one_if(in_grid(width, height, (x, y + 1)))
        + one_if(in_grid(width, height, (x - 1, y - 1))) + one_if(
        in_grid(width, height, (x - 1, y + 1)),
    ) + one_if(in_grid(width, height, (x + 1, y - 1))) + one_if(
        in_grid(width, height, (x + 1, y + 1)),
    )
}

/// The rule of the game: a cell with three live neighbours is alive, one
/// with two keeps its state, any other is dead.
pub open spec fn next_state(alive: bool, neighbours: nat) -> bool {
    neighbours == 3 || (neighbours == 2 && alive)
}

/// The grid after the rule has been applied to the one cell at `position`
/// and its new state written back.
pub open spec fn evolve_cell(cells: Cells, position: (int, int)) -> Cells {
    cells.insert(position, next_state(cells[position], live_neighbours(cells, position)))
}

/// The grid after the rule has been applied, one after the other, to the
/// cells `(x, 0)`, ..., `(x, rows - 1)`.
pub open spec fn evolve_column(cells: Cells, x: int, rows: nat) -> Cells
    decreases rows,
{
    if rows == 0 {
        cells
    } else {
        evolve_cell(evolve_column(cells, x, (rows - 1) as nat), (x, rows - 1))
    }
}

/// The grid after the columns `0`, ..., `columns - 1` of `height` cells each
/// have been evolved, one after the other.
pub open spec fn evolve_columns(cells: Cells, columns: nat, height: nat) -> Cells
    decreases columns,
{
    if columns == 0 {
        cells
    } else {
        evolve_column(evolve_columns(cells, (columns - 1) as nat, height), columns - 1, height)
    }
}

/// `n` as a count: 0 when it is negative.
pub open spec fn extent(n: int) -> nat {
    if n < 0 {
        0
    } else {
        n as nat
    }
}

/// One generation: every cell of the grid evolved in place, in the order
/// `x` outer, `y` inner. A cell sees the new states of those before it.
pub open spec fn evolve(cells: Cells, width: int, height: int) -> Cells {
    evolve_columns(cells, extent(width), extent(height))
}

/// The character that stands for a cell.
pub open spec fn glyph(alive: bool) -> char {
    if alive {
        '*'
    } else {
        '.'
    }
}

/// The first `rows` cells of column `x`, one character each.
pub open spec fn render_cells(cells: Cells, x: int, rows: nat) -> Seq<char> {
    Seq::new(rows, |y: int| glyph(cells[(x, y)]))
}

/// The text of the columns `0`, ..., `columns - 1` of `height` cells each:
/// one line per column, holding its cells and then a line feed.
pub open spec fn render_columns(cells: Cells, columns: nat, height: nat) -> Seq<char>
    decreases columns,
{
    if columns == 0 {
        Seq::empty()
    } else {
        render_columns(cells, (columns - 1) as nat, height) + render_cells(
            cells,
            columns - 1,
            height,
        ).push('\n')
    }
}

/// The grid as text: one line for each `x`, and in it one character for
/// each `y`.
pub open spec fn render(cells: Cells, width: int, height: int) -> Seq<char> {
    render_columns(cells, extent(width), extent(height))
}

} // verus!

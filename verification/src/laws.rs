//! Facts that hold of every grid, proved from the model.

use crate::model::all_dead;
use crate::model::alive_at;
use crate::model::evolve;
use crate::model::evolve_cell;
use crate::model::evolve_column;
use crate::model::evolve_columns;
use crate::model::extent;
use crate::model::grid_neighbours;
use crate::model::grid_positions;
use crate::model::in_grid;
use crate::model::live_neighbours;
use crate::model::Cells;
use vstd::prelude::*;

verus! {

/// Whether `position` lies on the border of the grid: in its first or last
/// column, or in its first or last row.
pub open spec fn on_edge(width: int, height: int, position: (int, int)) -> bool {
    in_grid(width, height, position) && (position.0 == 0 || position.0 == width - 1 || position.1
        == 0 || position.1 == height - 1)
}

/// Whether `position` is a corner of the grid: in its first or last column
/// and also in its first or last row.
pub open spec fn on_corner(width: int, height: int, position: (int, int)) -> bool {
    in_grid(width, height, position) && (position.0 == 0 || position.0 == width - 1) && (
    position.1 == 0 || position.1 == height - 1)
}

/// The neighbour count is bounded. Only coordinates of the grid can hold a
/// live neighbour, and there are at most eight of them around any
/// coordinate, at most five around one on the border and at most three
/// around a corner.
pub proof fn lemma_neighbours_bounded(cells: Cells, width: int, height: int, position: (int, int))
    requires
        cells.dom() == grid_positions(width, height),
    ensures
        live_neighbours(cells, position) <= grid_neighbours(width, height, position) <= 8,
        on_edge(width, height, position) ==> grid_neighbours(width, height, position) <= 5,
        on_corner(width, height, position) ==> grid_neighbours(width, height, position) <= 3,
{
}

/// Applying the rule to one cell changes that cell alone and leaves the
/// set of coordinates as it was. The cell is alive afterwards if it had
/// three live neighbours, keeps its state if it had two, and is dead
/// otherwise.
pub proof fn lemma_rule(cells: Cells, position: (int, int))
    requires
        cells.dom().contains(position),
    ensures
        evolve_cell(cells, position).dom() == cells.dom(),
        forall|other: (int, int)|
            other != position ==> evolve_cell(cells, position)[other] == cells[other],
        live_neighbours(cells, position) == 3 ==> evolve_cell(cells, position)[position],
        live_neighbours(cells, position) == 2 ==> evolve_cell(cells, position)[position]
            == cells[position],
        live_neighbours(cells, position) != 2 && live_neighbours(cells, position) != 3
            ==> !evolve_cell(cells, position)[position],
{
    assert(evolve_cell(cells, position).dom() =~= cells.dom());
}

/// Evolving the first cells of a column leaves the set of coordinates as it
/// was.
pub proof fn lemma_evolve_column_keeps_positions(
    cells: Cells,
    width: int,
    height: int,
    x: int,
    rows: nat,
)
    requires
        cells.dom() == grid_positions(width, height),
        0 <= x < width,
        rows <= extent(height),
    ensures
        evolve_column(cells, x, rows).dom() == cells.dom(),
    decreases rows,
{
    if rows > 0 {
        lemma_evolve_column_keeps_positions(cells, width, height, x, (rows - 1) as nat);
        lemma_rule(evolve_column(cells, x, (rows - 1) as nat), (x, rows - 1));
    }
}

/// Evolving the first columns of a grid leaves the set of coordinates as
/// it was.
pub proof fn lemma_evolve_columns_keeps_positions(
    cells: Cells,
    width: int,
    height: int,
    columns: nat,
)
    requires
        cells.dom() == grid_positions(width, height),
        columns <= extent(width),
    ensures
        evolve_columns(cells, columns, extent(height)).dom() == cells.dom(),
    decreases columns,
{
    if columns > 0 {
        lemma_evolve_columns_keeps_positions(cells, width, height, (columns - 1) as nat);
        lemma_evolve_column_keeps_positions(
            evolve_columns(cells, (columns - 1) as nat, extent(height)),
            width,
            height,
            columns - 1,
            extent(height),
        );
    }
}

/// A generation neither adds a coordinate to a grid nor takes one away:
/// every coordinate of the rectangle has a state before and after.
pub proof fn lemma_evolve_keeps_positions(cells: Cells, width: int, height: int)
    requires
        cells.dom() == grid_positions(width, height),
    ensures
        evolve(cells, width, height).dom() == grid_positions(width, height),
{
    lemma_evolve_columns_keeps_positions(cells, width, height, extent(width));
}

/// The sole cell of a grid of one by one has no neighbour, whatever its
/// state, and is dead after a generation.
pub proof fn lemma_single_cell_dies(cells: Cells)
    requires
        cells.dom() == grid_positions(1, 1),
    ensures
        live_neighbours(cells, (0, 0)) == 0,
        evolve(cells, 1, 1) == all_dead(1, 1),
{
    reveal_with_fuel(evolve_columns, 2);
    reveal_with_fuel(evolve_column, 2);
    assert(evolve(cells, 1, 1) =~= all_dead(1, 1));
}

/// In a grid without a live cell, evolving the first cells of a column
/// changes nothing.
pub proof fn lemma_dead_column_stays_dead(width: int, height: int, x: int, rows: nat)
    requires
        0 <= x < width,
        rows <= extent(height),
    ensures
        evolve_column(all_dead(width, height), x, rows) == all_dead(width, height),
    decreases rows,
{
    if rows > 0 {
        lemma_dead_column_stays_dead(width, height, x, (rows - 1) as nat);
        assert(evolve_cell(all_dead(width, height), (x, rows - 1)) =~= all_dead(width, height));
    }
}

/// In a grid without a live cell, evolving the first columns changes
/// nothing.
pub proof fn lemma_dead_columns_stay_dead(width: int, height: int, columns: nat)
    requires
        columns <= extent(width),
    ensures
        evolve_columns(all_dead(width, height), columns, extent(height)) == all_dead(
            width,
            height,
        ),
    decreases columns,
{
    if columns > 0 {
        lemma_dead_columns_stay_dead(width, height, (columns - 1) as nat);
        lemma_dead_column_stays_dead(width, height, columns - 1, extent(height));
    }
}

/// No cell is born without live neighbours: a grid in which every cell is
/// dead is the same after a generation.
pub proof fn lemma_dead_stays_dead(width: int, height: int)
    ensures
        evolve(all_dead(width, height), width, height) == all_dead(width, height),
{
    lemma_dead_columns_stay_dead(width, height, extent(width));
}

} // verus!

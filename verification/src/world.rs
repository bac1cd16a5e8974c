//! The executable grid.

use crate::chance;
use crate::model;
use crate::model::Cells;
use vstd::prelude::*;
use vstd::string::StringExecFns;

verus! {

/// A coordinate `(x, y)`.
pub type Position = (i32, i32);

/// The size of a grid, `(width, height)`.
pub type Dimension = (i32, i32);

/// A new grid has a live cell `LIVE_SHARE` times in `LIVE_OUT_OF`, on
/// average: one in five.
const LIVE_SHARE: u32 = 1;

const LIVE_OUT_OF: u32 = 5;

/// `position` as a coordinate of the model.
pub open spec fn point(position: Position) -> (int, int) {
    (position.0 as int, position.1 as int)
}

/// A grid of cells, each alive or dead.
///
/// Its size is fixed when it is made, and both sides are positive. It holds
/// exactly one state for every coordinate of `[0, width) x [0, height)` and
/// none for any other.
pub struct World {
    dimension: Dimension,
    /// The states, column after column: the cell at `(x, y)` is
    /// `cells[x * height + y]`.
    cells: Vec<bool>,
}

/// Where the cell at `position` is stored in a grid of the given height.
spec fn slot(height: int, position: (int, int)) -> int {
    position.0 * height + position.1
}

/// Every coordinate of the grid has a slot below `width * height`.
proof fn lemma_slot_in_bounds(width: int, height: int, position: (int, int))
    requires
        model::in_grid(width, height, position),
    ensures
        0 <= position.0 * height <= slot(height, position) < width * height,
{
    assert(0 <= position.0 * height && (position.0 + 1) * height <= width * height)
        by (nonlinear_arith)
        requires
            0 <= position.0 < width,
            0 < height,
    ;
    assert((position.0 + 1) * height == position.0 * height + height) by (nonlinear_arith);
}

/// Two coordinates of the grid that share a slot are the same.
proof fn lemma_slot_injective(width: int, height: int, p: (int, int), q: (int, int))
    requires
        model::in_grid(width, height, p),
        model::in_grid(width, height, q),
        slot(height, p) == slot(height, q),
    ensures
        p == q,
{
    if p.0 < q.0 {
        assert((p.0 + 1) * height <= q.0 * height) by (nonlinear_arith)
            requires
                p.0 + 1 <= q.0,
                0 < height,
        ;
        assert((p.0 + 1) * height == p.0 * height + height) by (nonlinear_arith);
    } else if q.0 < p.0 {
        assert((q.0 + 1) * height <= p.0 * height) by (nonlinear_arith)
            requires
                q.0 + 1 <= p.0,
                0 < height,
        ;
        assert((q.0 + 1) * height == q.0 * height + height) by (nonlinear_arith);
    }
}

impl View for World {
    type V = Cells;

    /// The state of every cell, by coordinate.
    closed spec fn view(&self) -> Cells {
        Map::new(
            |position: (int, int)| model::in_grid(self.width(), self.height(), position),
            |position: (int, int)| self.cells@[slot(self.height(), position)],
        )
    }
}

impl World {
    /// The width that the grid was made with.
    pub closed spec fn width(&self) -> int {
        self.dimension.0 as int
    }

    /// The height that the grid was made with.
    pub closed spec fn height(&self) -> int {
        self.dimension.1 as int
    }

    /// Both sides are positive, and there is one stored state for each
    /// coordinate of the grid.
    #[verifier::type_invariant]
    pub closed spec fn well_formed(&self) -> bool {
        &&& 0 < self.width()
        &&& 0 < self.height()
        &&& self.cells@.len() == self.width() * self.height()
    }

    /// The grid of the given size, `(width, height)`, that holds the given
    /// states: the cell at `(x, y)` gets `states[x * height + y]`, so the
    /// states come column after column, for each `x` from 0 up and, within
    /// it, for each `y` from 0 up. Both sides must be positive, and there
    /// must be one state for each cell.
    pub fn filled(dimension: Dimension, states: Vec<bool>) -> (world: World)
        requires
            0 < dimension.0,
            0 < dimension.1,
            states@.len() == dimension.0 * dimension.1,
        ensures
            world.width() == dimension.0,
            world.height() == dimension.1,
            world@ == model::from_states(dimension.0 as int, dimension.1 as int, states@),
    {
        World { dimension, cells: states }
    }

    /// A grid of the given size, `(width, height)`, in which every cell is
    /// dead. Both sides must be positive: a grid has at least one cell.
    pub fn dead(dimension: Dimension) -> (world: World)
        requires
            0 < dimension.0,
            0 < dimension.1,
        ensures
            world.width() == dimension.0,
            world.height() == dimension.1,
            world@ == model::all_dead(dimension.0 as int, dimension.1 as int),
    {
        let (width, height) = dimension;
        let mut states: Vec<bool> = Vec::new();
        let mut x: i32 = 0;
        while x < width
            invariant
                0 <= x <= width,
                0 < height,
                states@.len() == x * height,
                forall|i: int| 0 <= i < states@.len() ==> !states@[i],
            decreases width - x,
        {
            let mut y: i32 = 0;
            while y < height
                invariant
                    0 <= y <= height,
                    states@.len() == x * height + y,
                    forall|i: int| 0 <= i < states@.len() ==> !states@[i],
                decreases height - y,
            {
                states.push(false);
                y = y + 1;
            }
            assert(x * height + height == (x + 1) * height) by (nonlinear_arith);
            x = x + 1;
        }
        let world = World::filled(dimension, states);
        proof {
            assert forall|position: (int, int)|
                model::in_grid(width as int, height as int, position) implies !world@[position] by {
                lemma_slot_in_bounds(width as int, height as int, position);
            }
            assert(world@ =~= model::all_dead(width as int, height as int));
        }
        world
    }

    /// A grid of the given size, `(width, height)`, in which each cell is
    /// alive with probability one in five, independently of the others, and
    /// dead otherwise. Both sides must be positive: a grid has at least one
    /// cell.
    ///
    /// One draw is made for each cell, in the order of [`World::filled`],
    /// which then builds the grid from them. The draws come from the
    /// thread's random generator, which the system seeds: two grids made
    /// alike differ in their cells, never in the coordinates they cover.
    pub fn new(dimension: Dimension) -> (world: World)
        requires
            0 < dimension.0,
            0 < dimension.1,
        ensures
            world.width() == dimension.0,
            world.height() == dimension.1,
            world@.dom() == model::grid_positions(dimension.0 as int, dimension.1 as int),
    {
        let (width, height) = dimension;
        let mut rng = rand::thread_rng();
        let mut states: Vec<bool> = Vec::new();
        let mut x: i32 = 0;
        while x < width
            invariant
                0 <= x <= width,
                0 < height,
                states@.len() == x * height,
            decreases width - x,
        {
            let mut y: i32 = 0;
            while y < height
                invariant
                    0 <= y <= height,
                    states@.len() == x * height + y,
                decreases height - y,
            {
                let alive = chance::draw(&mut rng, LIVE_SHARE, LIVE_OUT_OF);
                states.push(alive);
                y = y + 1;
            }
            assert(x * height + height == (x + 1) * height) by (nonlinear_arith);
            x = x + 1;
        }
        let world = World::filled(dimension, states);
        assert(world@.dom() =~= model::grid_positions(width as int, height as int));
        world
    }

    /// A grid holds a state for every coordinate of its rectangle and for no
    /// other, whatever has been done to it.
    pub proof fn lemma_positions(self)
        ensures
            self@.dom() == model::grid_positions(self.width(), self.height()),
    {
        assert(self@.dom() =~= model::grid_positions(self.width(), self.height()));
    }

    /// Two grids of the same size hold the same coordinates, however their
    /// cells differ.
    pub proof fn lemma_same_size_same_positions(self, other: World)
        requires
            self.width() == other.width(),
            self.height() == other.height(),
        ensures
            self@.dom() == other@.dom(),
    {
        self.lemma_positions();
        other.lemma_positions();
    }

    /// The size that the grid was made with, `(width, height)`. Both sides
    /// are positive.
    pub fn dimension(&self) -> (dimension: Dimension)
        ensures
            dimension.0 == self.width(),
            dimension.1 == self.height(),
            0 < dimension.0,
            0 < dimension.1,
    {
        proof {
            use_type_invariant(self);
        }
        self.dimension
    }

    /// The place in `cells` of the cell at `(x, y)`, which must be in the
    /// grid.
    fn slot_of(&self, x: i32, y: i32) -> (i: usize)
        requires
            model::in_grid(self.width(), self.height(), (x as int, y as int)),
        ensures
            i == slot(self.height(), (x as int, y as int)),
            i < self.cells@.len(),
    {
        let height = self.dimension.1;
        proof {
            use_type_invariant(self);
            lemma_slot_in_bounds(self.width(), self.height(), (x as int, y as int));
            assert(self.cells@.len() == self.cells.len());
        }
        x as usize * height as usize + y as usize
    }

    /// The state of the cell at `(x, y)`, which must be in the grid.
    fn cell(&self, x: i32, y: i32) -> (alive: bool)
        requires
            self@.dom().contains((x as int, y as int)),
        ensures
            alive == self@[(x as int, y as int)],
    {
        let i = self.slot_of(x, y);
        self.cells[i]
    }

    /// The state of the cell at `position`, or `None` where the grid has no
    /// such cell.
    pub fn get(&self, position: Position) -> (cell: Option<bool>)
        ensures
            cell == (if self@.dom().contains(point(position)) {
                Some(self@[point(position)])
            } else {
                None
            }),
    {
        proof {
            use_type_invariant(self);
        }
        let (x, y) = position;
        let (width, height) = self.dimension;
        if 0 <= x && x < width && 0 <= y && y < height {
            Some(self.cell(x, y))
        } else {
            None
        }
    }

    /// Sets the cell at `position`, which must be in the grid, to `alive`.
    pub fn set(&mut self, position: Position, alive: bool)
        requires
            old(self)@.dom().contains(point(position)),
        ensures
            final(self).width() == old(self).width(),
            final(self).height() == old(self).height(),
            final(self)@ == old(self)@.insert(point(position), alive),
            final(self)@.dom() == old(self)@.dom(),
    {
        proof {
            use_type_invariant(&*self);
        }
        let (x, y) = position;
        let i = self.slot_of(x, y);
        self.cells[i] = alive;
        proof {
            let expected = old(self)@.insert(point(position), alive);
            assert forall|other: (int, int)| expected.dom().contains(other) implies self@[other]
                == expected[other] by {
                if slot(self.height(), other) == i {
                    lemma_slot_injective(self.width(), self.height(), other, point(position));
                } else {
                    lemma_slot_in_bounds(self.width(), self.height(), other);
                }
            }
            assert(self@ =~= expected);
        }
    }

    /// Whether `(x, y)` holds a live cell. Outside the grid there is none.
    fn alive_at(&self, x: i64, y: i64) -> (alive: bool)
        ensures
            alive == model::alive_at(self@, (x as int, y as int)),
    {
        let (width, height) = self.dimension;
        if 0 <= x && x < width as i64 && 0 <= y && y < height as i64 {
            self.cell(x as i32, y as i32)
        } else {
            false
        }
    }

    /// The number of live cells among the eight coordinates around
    /// `position`: its neighbours to the sides, above, below and on the
    /// diagonals. Those that fall outside the grid are skipped, so a cell on
    /// an edge has fewer neighbours; nothing wraps around. `position` itself
    /// may lie anywhere.
    pub fn neighbours(&self, position: Position) -> (count: u8)
        ensures
            count == model::live_neighbours(self@, point(position)),
            count <= 8,
    {
        let x = position.0 as i64;
        let y = position.1 as i64;
        let mut count: u8 = 0;
        if self.alive_at(x - 1, y) {
            count = count + 1;
        }
        if self.alive_at(x + 1, y) {
            count = count + 1;
        }
        if self.alive_at(x, y - 1) {
            count = count + 1;
        }
        if self.alive_at(x, y + 1) {
            count = count + 1;
        }
        if self.alive_at(x - 1, y - 1) {
            count = count + 1;
        }
        if self.alive_at(x - 1, y + 1) {
            count = count + 1;
        }
        if self.alive_at(x + 1, y - 1) {
            count = count + 1;
        }
        if self.alive_at(x + 1, y + 1) {
            count = count + 1;
        }
        count
    }

    /// Applies the rule to the one cell at `position`, which must be in the
    /// grid, and writes its new state back at once: with fewer than two or
    /// more than three live neighbours the cell is dead, with three it is
    /// alive, with two it stays as it was. No other cell changes.
    pub fn evolve_cell(&mut self, position: Position)
        requires
            old(self)@.dom().contains(point(position)),
        ensures
            final(self).width() == old(self).width(),
            final(self).height() == old(self).height(),
            final(self)@ == model::evolve_cell(old(self)@, point(position)),
            final(self)@.dom() == old(self)@.dom(),
    {
        let n = self.neighbours(position);
        let state = if n < 2 || n > 3 {
            false
        } else if n == 3 {
            true
        } else {
            self.cell(position.0, position.1)
        };
        self.set(position, state);
    }

    /// Advances the grid by one generation: the rule is applied to every
    /// cell in turn, for each `x` from 0 up and, within it, for each `y`
    /// from 0 up. Each new state is written before the next cell is looked
    /// at, so a cell sees the new states of the cells before it in that
    /// order and the old states of those after it.
    pub fn evolve(&mut self)
        ensures
            final(self).width() == old(self).width(),
            final(self).height() == old(self).height(),
            final(self)@ == model::evolve(old(self)@, old(self).width(), old(self).height()),
            final(self)@.dom() == old(self)@.dom(),
    {
        let (width, height) = self.dimension;
        let mut x: i32 = 0;
        while x < width
            invariant
                0 <= x <= model::extent(width as int),
                self.dimension == (width, height),
                self@ == model::evolve_columns(
                    old(self)@,
                    x as nat,
                    model::extent(height as int),
                ),
            decreases width - x,
        {
            let mut y: i32 = 0;
            while y < height
                invariant
                    0 <= x < width,
                    0 <= y <= model::extent(height as int),
                    self.dimension == (width, height),
                    self@ == model::evolve_column(
                        model::evolve_columns(old(self)@, x as nat, model::extent(height as int)),
                        x as int,
                        y as nat,
                    ),
                decreases height - y,
            {
                self.evolve_cell((x, y));
                y = y + 1;
            }
            x = x + 1;
        }
    }

    /// The grid as text: one line for each `x` from 0 up, and in it one
    /// character for each `y` from 0 up, `*` for a live cell and `.` for a
    /// dead one. Every line ends with a line feed. So a line shows the cells
    /// that share an `x`, and the place in the line is `y`.
    pub fn to_string(&self) -> (text: String)
        ensures
            text@ == model::render(self@, self.width(), self.height()),
    {
        let (width, height) = self.dimension;
        let ghost rows = model::extent(height as int);
        let mut text = String::new();
        let mut x: i32 = 0;
        while x < width
            invariant
                0 <= x <= model::extent(width as int),
                self.dimension == (width, height),
                rows == model::extent(height as int),
                text@ == model::render_columns(self@, x as nat, rows),
            decreases width - x,
        {
            let mut y: i32 = 0;
            while y < height
                invariant
                    0 <= x < width,
                    0 <= y <= rows,
                    self.dimension == (width, height),
                    rows == model::extent(height as int),
                    text@ == model::render_columns(self@, x as nat, rows) + model::render_cells(
                        self@,
                        x as int,
                        y as nat,
                    ),
                decreases height - y,
            {
                let alive = self.cell(x, y);
                proof {
                    reveal_strlit("*");
                    reveal_strlit(".");
                    assert(model::render_cells(self@, x as int, (y + 1) as nat)
                        =~= model::render_cells(self@, x as int, y as nat).push(
                        model::glyph(alive),
                    ));
                }
                text.append(if alive {
                    "*"
                } else {
                    "."
                });
                assert(text@ =~= model::render_columns(self@, x as nat, rows)
                    + model::render_cells(
                    self@,
                    x as int,
                    (y + 1) as nat,
                ));
                y = y + 1;
            }
            proof {
                reveal_strlit("\n");
            }
            text.append("\n");
            assert(text@ =~= model::render_columns(self@, (x + 1) as nat, rows));
            x = x + 1;
        }
        text
    }
}

} // verus!

//! Conway's Game of Life on a bounded grid without wraparound.
//!
//! A [`World`] owns a rectangle of cells, each alive or dead. One generation
//! is applied cell by cell, in place, column after column: a cell that is
//! visited later in the pass already sees the new state of the cells visited
//! before it. The mathematical account of all of this is in [`model`]; the
//! executable grid is in [`world`], and [`laws`] holds the facts that follow.

pub mod chance;
pub mod laws;
pub mod model;
pub mod world;

pub use model::Cells;
pub use world::Dimension;
pub use world::Position;
pub use world::World;

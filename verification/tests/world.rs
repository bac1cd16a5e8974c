use game_of_life::World;

fn all_alive(width: i32, height: i32) -> World {
    let mut world = World::dead((width, height));
    for x in 0..width {
        for y in 0..height {
            world.set((x, y), true);
        }
    }
    world
}

fn with_live_neighbours(alive: bool, n: usize) -> World {
    let around = [(0, 0), (0, 1), (0, 2), (1, 0), (1, 2), (2, 0), (2, 1), (2, 2)];
    let mut world = World::dead((3, 3));
    world.set((1, 1), alive);
    for position in around.iter().take(n) {
        world.set(*position, true);
    }
    world
}

#[test]
fn new_covers_exactly_the_rectangle() {
    let world = World::new((10, 20));
    assert_eq!(world.dimension(), (10, 20));
    for x in -2..13 {
        for y in -2..23 {
            let inside = 0 <= x && x < 10 && 0 <= y && y < 20;
            assert_eq!(world.get((x, y)).is_some(), inside);
        }
    }
}

#[test]
fn two_new_grids_cover_the_same_coordinates() {
    let a = World::new((7, 4));
    let b = World::new((7, 4));
    assert_eq!(a.dimension(), b.dimension());
    for x in -1..9 {
        for y in -1..6 {
            assert_eq!(a.get((x, y)).is_some(), b.get((x, y)).is_some());
        }
    }
}

#[test]
fn new_draws_both_states() {
    let world = World::new((100, 100));
    let mut alive = 0;
    for x in 0..100 {
        for y in 0..100 {
            if world.get((x, y)) == Some(true) {
                alive += 1;
            }
        }
    }
    assert!(alive > 0);
    assert!(alive < 10000);
}

#[test]
fn coverage_is_kept_by_evolution() {
    let mut world = World::new((6, 5));
    for _ in 0..3 {
        world.evolve();
        assert_eq!(world.dimension(), (6, 5));
        for x in -1..8 {
            for y in -1..7 {
                let inside = 0 <= x && x < 6 && 0 <= y && y < 5;
                assert_eq!(world.get((x, y)).is_some(), inside);
            }
        }
    }
}

#[test]
fn dead_grid_has_no_live_cell() {
    let world = World::dead((4, 3));
    assert_eq!(world.dimension(), (4, 3));
    for x in 0..4 {
        for y in 0..3 {
            assert_eq!(world.get((x, y)), Some(false));
        }
    }
    assert_eq!(world.get((4, 0)), None);
    assert_eq!(world.get((0, 3)), None);
    assert_eq!(world.get((-1, 0)), None);
    assert_eq!(world.get((0, -1)), None);
}

#[test]
fn set_changes_one_cell() {
    let mut world = World::dead((3, 4));
    world.set((2, 1), true);
    for x in 0..3 {
        for y in 0..4 {
            assert_eq!(world.get((x, y)), Some((x, y) == (2, 1)));
        }
    }
    world.set((2, 1), false);
    assert_eq!(world.get((2, 1)), Some(false));
}

#[test]
fn set_keeps_columns_and_rows_apart() {
    let mut world = World::dead((2, 3));
    world.set((1, 0), true);
    assert_eq!(world.get((0, 1)), Some(false));
    assert_eq!(world.get((0, 2)), Some(false));
    assert_eq!(world.get((1, 0)), Some(true));
    assert_eq!(world.to_string(), "...\n*..\n");
}

#[test]
fn neighbours_in_a_full_grid() {
    let world = all_alive(10, 20);
    assert_eq!(world.neighbours((0, 0)), 3);
    assert_eq!(world.neighbours((9, 0)), 3);
    assert_eq!(world.neighbours((0, 19)), 3);
    assert_eq!(world.neighbours((9, 19)), 3);
    assert_eq!(world.neighbours((0, 7)), 5);
    assert_eq!(world.neighbours((9, 7)), 5);
    assert_eq!(world.neighbours((4, 0)), 5);
    assert_eq!(world.neighbours((4, 19)), 5);
    assert_eq!(world.neighbours((4, 7)), 8);
}

#[test]
fn neighbours_is_at_most_eight() {
    let world = all_alive(5, 5);
    for x in -2..7 {
        for y in -2..7 {
            assert!(world.neighbours((x, y)) <= 8);
        }
    }
}

#[test]
fn neighbours_does_not_count_the_cell_itself() {
    let mut world = World::dead((3, 3));
    world.set((1, 1), true);
    assert_eq!(world.neighbours((1, 1)), 0);
    assert_eq!(world.neighbours((0, 0)), 1);
    assert_eq!(world.neighbours((2, 1)), 1);
}

#[test]
fn neighbours_counts_each_direction() {
    let around = [(0, 0), (0, 1), (0, 2), (1, 0), (1, 2), (2, 0), (2, 1), (2, 2)];
    for position in around {
        let mut world = World::dead((3, 3));
        world.set(position, true);
        assert_eq!(world.neighbours((1, 1)), 1);
    }
}

#[test]
fn neighbours_outside_the_grid() {
    let world = all_alive(2, 2);
    assert_eq!(world.neighbours((-1, -1)), 1);
    assert_eq!(world.neighbours((2, 0)), 2);
    assert_eq!(world.neighbours((5, 5)), 0);
    assert_eq!(world.neighbours((i32::MAX, i32::MAX)), 0);
    assert_eq!(world.neighbours((i32::MIN, i32::MIN)), 0);
    assert_eq!(world.neighbours((i32::MAX, i32::MIN)), 0);
}

#[test]
fn nothing_wraps_around() {
    let mut world = World::dead((4, 4));
    world.set((3, 0), true);
    world.set((0, 3), true);
    world.set((3, 3), true);
    assert_eq!(world.neighbours((0, 0)), 0);
}

#[test]
fn single_cell_has_no_neighbour_and_dies() {
    let mut world = World::dead((1, 1));
    assert_eq!(world.neighbours((0, 0)), 0);
    world.evolve();
    assert_eq!(world.get((0, 0)), Some(false));
    world.set((0, 0), true);
    assert_eq!(world.neighbours((0, 0)), 0);
    world.evolve();
    assert_eq!(world.get((0, 0)), Some(false));
    world.set((0, 0), true);
    world.evolve_cell((0, 0));
    assert_eq!(world.get((0, 0)), Some(false));
}

#[test]
fn three_live_neighbours_give_life() {
    for alive in [false, true] {
        let mut world = with_live_neighbours(alive, 3);
        assert_eq!(world.neighbours((1, 1)), 3);
        world.evolve_cell((1, 1));
        assert_eq!(world.get((1, 1)), Some(true));
    }
}

#[test]
fn two_live_neighbours_keep_the_state() {
    for alive in [false, true] {
        let mut world = with_live_neighbours(alive, 2);
        assert_eq!(world.neighbours((1, 1)), 2);
        world.evolve_cell((1, 1));
        assert_eq!(world.get((1, 1)), Some(alive));
    }
}

#[test]
fn any_other_count_gives_death() {
    for n in [0, 1, 4, 5, 6, 7, 8] {
        for alive in [false, true] {
            let mut world = with_live_neighbours(alive, n);
            assert_eq!(usize::from(world.neighbours((1, 1))), n);
            world.evolve_cell((1, 1));
            assert_eq!(world.get((1, 1)), Some(false));
        }
    }
}

#[test]
fn evolve_cell_changes_no_other_cell() {
    let mut world = with_live_neighbours(false, 3);
    let before = world.to_string();
    world.evolve_cell((1, 1));
    assert_eq!(before, "***\n...\n...\n");
    assert_eq!(world.to_string(), "***\n.*.\n...\n");
}

#[test]
fn render_two_by_two() {
    let mut world = World::dead((2, 2));
    world.set((0, 0), true);
    world.set((0, 1), false);
    world.set((1, 0), false);
    world.set((1, 1), true);
    assert_eq!(world.to_string(), "*.\n.*\n");
}

#[test]
fn render_has_a_line_for_each_x() {
    let mut world = World::dead((2, 3));
    world.set((0, 2), true);
    world.set((1, 0), true);
    assert_eq!(world.to_string(), "..*\n*..\n");
    let fresh = World::new((10, 20)).to_string();
    assert_eq!(fresh.len(), 10 * 21);
    for line in fresh.lines() {
        assert_eq!(line.len(), 20);
        assert!(line.chars().all(|c| c == '*' || c == '.'));
    }
    assert_eq!(fresh.lines().count(), 10);
}

#[test]
fn dead_grid_stays_dead() {
    let mut world = World::dead((10, 20));
    world.evolve();
    for x in 0..10 {
        for y in 0..20 {
            assert_eq!(world.get((x, y)), Some(false));
        }
    }
    world.evolve();
    assert_eq!(world.to_string(), World::dead((10, 20)).to_string());
}

#[test]
fn evolve_sees_cells_already_updated() {
    // Three live cells in the middle column. Taken all at once they would
    // turn into ".*." on every line; cell by cell, two cells of the first
    // column come alive first and crowd out the centre.
    let mut world = World::dead((3, 3));
    world.set((1, 0), true);
    world.set((1, 1), true);
    world.set((1, 2), true);
    assert_eq!(world.to_string(), "...\n***\n...\n");
    world.evolve();
    assert_eq!(world.to_string(), ".**\n*.*\n...\n");
    world.evolve();
    assert_eq!(world.to_string(), ".**\n.**\n...\n");
}

#[test]
fn evolve_is_evolve_cell_in_column_order() {
    let mut a = World::dead((4, 3));
    for position in [(0, 1), (1, 0), (1, 1), (2, 2), (3, 0), (3, 1), (2, 1)] {
        a.set(position, true);
    }
    let mut b = World::dead((4, 3));
    for x in 0..4 {
        for y in 0..3 {
            b.set((x, y), a.get((x, y)) == Some(true));
        }
    }
    a.evolve();
    for x in 0..4 {
        for y in 0..3 {
            b.evolve_cell((x, y));
        }
    }
    assert_eq!(a.to_string(), b.to_string());
}

#[test]
fn block_is_stable() {
    let mut world = World::dead((4, 4));
    for position in [(1, 1), (1, 2), (2, 1), (2, 2)] {
        world.set(position, true);
    }
    world.evolve();
    assert_eq!(world.to_string(), "....\n.**.\n.**.\n....\n");
}

#[test]
fn filled_places_states_column_after_column() {
    let world = World::filled((2, 3), vec![true, false, false, false, true, true]);
    assert_eq!(world.dimension(), (2, 3));
    assert_eq!(world.get((0, 0)), Some(true));
    assert_eq!(world.get((0, 1)), Some(false));
    assert_eq!(world.get((0, 2)), Some(false));
    assert_eq!(world.get((1, 0)), Some(false));
    assert_eq!(world.get((1, 1)), Some(true));
    assert_eq!(world.get((1, 2)), Some(true));
    assert_eq!(world.get((2, 0)), None);
    assert_eq!(world.get((0, 3)), None);
    assert_eq!(world.to_string(), "*..\n.**\n");
}

#[test]
fn filled_with_dead_states_is_the_dead_grid() {
    let world = World::filled((3, 2), vec![false; 6]);
    assert_eq!(world.to_string(), World::dead((3, 2)).to_string());
    assert_eq!(world.to_string(), "..\n..\n..\n");
}

#[test]
fn filled_agrees_with_set() {
    let states = vec![false, true, true, false, true, false, false, false, true, true, true, false];
    let a = World::filled((4, 3), states.clone());
    let mut b = World::dead((4, 3));
    for x in 0..4 {
        for y in 0..3 {
            b.set((x, y), states[(x * 3 + y) as usize]);
        }
    }
    assert_eq!(a.to_string(), b.to_string());
}

#[test]
fn smallest_grids() {
    let mut row = World::filled((1, 3), vec![true, true, true]);
    assert_eq!(row.to_string(), "***\n");
    assert_eq!(row.neighbours((0, 1)), 2);
    // The first cell dies of its single neighbour before the middle one is
    // looked at, which then has a single neighbour too.
    row.evolve();
    assert_eq!(row.to_string(), "...\n");
    let mut column = World::filled((3, 1), vec![true, true, true]);
    assert_eq!(column.to_string(), "*\n*\n*\n");
    column.evolve();
    assert_eq!(column.to_string(), ".\n.\n.\n");
    let fresh = World::new((1, 1));
    assert_eq!(fresh.dimension(), (1, 1));
    assert!(fresh.get((0, 0)).is_some());
}

use ecosystem::identity::identifiers_are_distinct;
use ecosystem::universe::Organizm;
use ecosystem::{Cell, Creature, Direction, GridError, Inside, Life, Position, Universe};

fn at(row: u32, column: u32) -> Position {
    Position { column, row }
}

fn sheep_at(row: u32, column: u32) -> Organizm {
    Organizm {
        position: at(row, column),
        creature: Creature::Sheep,
        stamina: 10,
        status: Life::Alive,
        calories: 120,
        health: 100,
    }
}

#[test]
fn new_grid_has_height_times_width_cells() {
    let universe = Universe::new(5, 6);
    assert_eq!(universe.height(), 5);
    assert_eq!(universe.width(), 6);
    assert_eq!(universe.cells().len(), 30);
    assert_eq!(universe.creature_count(), 30);
}

#[test]
fn new_grid_is_seeded_from_the_indices() {
    let universe = Universe::new(5, 6);
    for (index, cell) in universe.cells().iter().enumerate() {
        assert_eq!(*cell, Cell::seed(6, index as u32));
        assert_eq!(cell.id, index as u32);
        let grass = index % 2 == 0 || index % 7 == 0;
        assert_eq!(cell.creature == Creature::Grass, grass);
        assert_eq!(cell.creature == Creature::Empty, !grass);
        assert_eq!(cell.status, Life::Dead);
        assert_eq!(cell.position, at(index as u32 / 6, index as u32 % 6));
    }
}

#[test]
fn grid_without_cells_is_allowed() {
    let mut universe = Universe::new(0, 4);
    assert_eq!(universe.cells().len(), 0);
    assert_eq!(universe.render(), "");
    assert_eq!(universe.get_index(0, 0), Err(GridError::BoundsError));
    assert_eq!(universe.get_wrapped_index(0, 0), Err(GridError::BoundsError));
    assert_eq!(universe.set(sheep_at(0, 0)), Err(GridError::BoundsError));
    let narrow = Universe::new(3, 0);
    assert_eq!(narrow.cells().len(), 0);
    assert_eq!(narrow.render(), "\n\n\n");
    assert_eq!(narrow.get_wrapped_index(1, 1), Err(GridError::BoundsError));
}

#[test]
fn index_is_row_times_width_plus_column() {
    let universe = Universe::new(5, 6);
    assert_eq!(universe.get_index(0, 0), Ok(0));
    assert_eq!(universe.get_index(0, 5), Ok(5));
    assert_eq!(universe.get_index(1, 0), Ok(6));
    assert_eq!(universe.get_index(4, 5), Ok(29));
    assert_eq!(universe.get_index(2, 3), Ok(15));
}

#[test]
fn index_off_the_grid_is_refused() {
    let universe = Universe::new(5, 6);
    assert_eq!(universe.get_index(5, 0), Err(GridError::BoundsError));
    assert_eq!(universe.get_index(0, 6), Err(GridError::BoundsError));
    assert_eq!(universe.get_index(5, 6), Err(GridError::BoundsError));
    assert_eq!(universe.get_index(u32::MAX, u32::MAX), Err(GridError::BoundsError));
}

#[test]
fn toroidal_index_wraps_rows_and_columns() {
    let universe = Universe::new(5, 6);
    for column in 0..6 {
        assert_eq!(universe.get_wrapped_index(5, column), universe.get_wrapped_index(0, column));
        assert_eq!(universe.get_wrapped_index(5, column), Ok(column as usize));
    }
    for row in 0..5 {
        assert_eq!(universe.get_wrapped_index(row, 6), universe.get_wrapped_index(row, 0));
        assert_eq!(universe.get_wrapped_index(row, 6), Ok(row as usize * 6));
    }
    assert_eq!(universe.get_wrapped_index(7, 8), Ok(2 * 6 + 2));
    assert_eq!(universe.get_wrapped_index(3, 4), universe.get_index(3, 4));
    assert_eq!(universe.get_wrapped_index(u32::MAX, u32::MAX), Ok(0 * 6 + 3));
}

#[test]
fn cell_is_read_by_position() {
    let universe = Universe::new(5, 6);
    assert_eq!(universe.get_cell(at(1, 1)), Ok(Cell::seed(6, 7)));
    assert_eq!(universe.get_cell(at(4, 5)), Ok(Cell::seed(6, 29)));
    assert_eq!(universe.get_cell(at(5, 5)), Err(GridError::BoundsError));
    assert_eq!(universe.get_cell(at(0, 6)), Err(GridError::BoundsError));
}

#[test]
fn spawn_swallows_the_previous_occupant() {
    let mut universe = Universe::new(5, 6);
    assert_eq!(universe.set(sheep_at(1, 1)), Ok(30));
    assert_eq!(universe.creature_count(), 31);
    assert_eq!(universe.cells().len(), 30);
    assert_eq!(
        universe.get_cell(at(1, 1)),
        Ok(Cell {
            id: 30,
            creature: Creature::Sheep,
            position: at(1, 1),
            stamina: 10,
            status: Life::Alive,
            inside: Some(Inside {
                id: 7,
                creature: Creature::Grass,
                position: at(1, 1),
                stamina: 40,
                status: Life::Dead,
                calories: 60,
                health: 0,
            }),
            calories: 120,
            direction: Direction::Stand,
            health: 100,
        })
    );
    for index in 0..30 {
        if index != 7 {
            assert_eq!(universe.cells()[index], Cell::seed(6, index as u32));
        }
    }
}

#[test]
fn spawn_hands_out_fresh_identifiers() {
    let mut universe = Universe::new(5, 6);
    assert_eq!(universe.set(sheep_at(0, 0)), Ok(30));
    assert_eq!(universe.set(sheep_at(2, 2)), Ok(31));
    assert_eq!(universe.set(sheep_at(0, 0)), Ok(32));
    let inside = universe.get_cell(at(0, 0)).unwrap().inside.unwrap();
    assert_eq!(inside.id, 30);
    assert_eq!(inside.creature, Creature::Sheep);
    assert_eq!(inside.calories, 120);
    assert_eq!(inside.health, 0);
    let mut seen: Vec<u32> = universe.cells().iter().map(|cell| cell.id).collect();
    seen.sort();
    seen.dedup();
    assert_eq!(seen.len(), 30);
}

#[test]
fn spawn_cuts_health_down_to_the_bound() {
    let mut universe = Universe::new(5, 6);
    let mut request = sheep_at(3, 3);
    request.health = 250;
    assert_eq!(universe.set(request), Ok(30));
    assert_eq!(universe.get_cell(at(3, 3)).unwrap().health, 100);
}

#[test]
fn spawn_off_the_grid_is_refused_and_changes_nothing() {
    let mut universe = Universe::new(5, 6);
    let before = universe.cells().clone();
    assert_eq!(universe.set(sheep_at(5, 0)), Err(GridError::BoundsError));
    assert_eq!(universe.set(sheep_at(0, 6)), Err(GridError::BoundsError));
    assert_eq!(*universe.cells(), before);
    assert_eq!(universe.creature_count(), 30);
}

#[test]
fn spawn_without_identifiers_left_is_refused_and_changes_nothing() {
    let mut universe = Universe::new(5, 6);
    assert_eq!(universe.mint_identifiers(u32::MAX - 31), Ok(30));
    assert_eq!(universe.creature_count(), u32::MAX - 1);
    assert_eq!(universe.set(sheep_at(0, 0)), Ok(u32::MAX - 1));
    let before = universe.cells().clone();
    assert_eq!(universe.set(sheep_at(1, 1)), Err(GridError::InvariantViolation));
    assert_eq!(universe.set(sheep_at(9, 9)), Err(GridError::BoundsError));
    assert_eq!(*universe.cells(), before);
    assert_eq!(universe.creature_count(), u32::MAX);
}

#[test]
fn identifiers_are_minted_in_blocks() {
    let mut universe = Universe::new(2, 2);
    assert_eq!(universe.mint_identifiers(0), Ok(4));
    assert_eq!(universe.mint_identifiers(3), Ok(4));
    assert_eq!(universe.mint_identifiers(1), Ok(7));
    assert_eq!(universe.creature_count(), 8);
    assert_eq!(universe.mint_identifiers(u32::MAX - 7), Err(GridError::InvariantViolation));
    assert_eq!(universe.creature_count(), 8);
    assert_eq!(universe.mint_identifiers(u32::MAX - 8), Ok(8));
    assert_eq!(universe.mint_identifiers(1), Err(GridError::InvariantViolation));
    assert_eq!(universe.mint_identifiers(0), Ok(u32::MAX));
}

#[test]
fn cell_is_found_by_identifier() {
    let mut universe = Universe::new(5, 6);
    assert_eq!(universe.set(sheep_at(2, 3)), Ok(30));
    assert_eq!(universe.get_position_with_id(30), Some(at(2, 3)));
    assert_eq!(universe.get_index_with_id(30), Some(15));
    assert_eq!(universe.get_position_with_id(29), Some(at(4, 5)));
    assert_eq!(universe.get_index_with_id(0), Some(0));
    assert_eq!(universe.get_position_with_id(15), None);
    assert_eq!(universe.get_index_with_id(15), None);
    assert_eq!(universe.get_index_with_id(31), None);
}

#[test]
fn neighbours_wrap_around_the_edges() {
    let universe = Universe::new(5, 6);
    assert_eq!(
        universe.neighbors(at(0, 0)),
        Ok(vec![
            at(4, 5),
            at(4, 0),
            at(4, 1),
            at(0, 5),
            at(0, 1),
            at(1, 5),
            at(1, 0),
            at(1, 1),
        ])
    );
    assert_eq!(
        universe.neighbors(at(4, 5)),
        Ok(vec![
            at(3, 4),
            at(3, 5),
            at(3, 0),
            at(4, 4),
            at(4, 0),
            at(0, 4),
            at(0, 5),
            at(0, 0),
        ])
    );
    assert_eq!(
        universe.neighbors(at(2, 3)),
        Ok(vec![
            at(1, 2),
            at(1, 3),
            at(1, 4),
            at(2, 2),
            at(2, 4),
            at(3, 2),
            at(3, 3),
            at(3, 4),
        ])
    );
    assert_eq!(universe.neighbors(at(5, 0)), Err(GridError::BoundsError));
}

#[test]
fn neighbours_of_the_only_cell_are_itself() {
    let universe = Universe::new(1, 1);
    assert_eq!(universe.neighbors(at(0, 0)), Ok(vec![at(0, 0); 8]));
    assert_eq!(universe.count_matching_neighbors(at(0, 0), Creature::Grass), Ok(8));
    assert_eq!(universe.count_matching_neighbors(at(0, 0), Creature::Empty), Ok(0));
}

#[test]
fn neighbours_are_counted_by_kind() {
    let universe = Universe::new(5, 6);
    // Around (2, 3): indices 8, 9, 10, 14, 16, 20, 21, 22.
    assert_eq!(universe.count_matching_neighbors(at(2, 3), Creature::Grass), Ok(7));
    assert_eq!(universe.count_matching_neighbors(at(2, 3), Creature::Empty), Ok(1));
    assert_eq!(universe.count_matching_neighbors(at(2, 3), Creature::Sheep), Ok(0));
    // Around (0, 0): indices 29, 24, 25, 5, 1, 11, 6, 7.
    assert_eq!(universe.count_matching_neighbors(at(0, 0), Creature::Grass), Ok(3));
    assert_eq!(universe.count_matching_neighbors(at(0, 0), Creature::Empty), Ok(5));
    assert_eq!(
        universe.count_matching_neighbors(at(0, 6), Creature::Grass),
        Err(GridError::BoundsError)
    );
}

#[test]
fn food_count_goes_by_what_the_occupant_eats() {
    let mut universe = Universe::new(5, 6);
    // A dead or plant occupant is matched against the empty kind.
    assert_eq!(universe.get_food_count(3, 2), Ok(1));
    assert_eq!(universe.get_food_count(0, 0), Ok(5));
    // A living sheep counts grass.
    assert_eq!(universe.set(sheep_at(2, 3)), Ok(30));
    assert_eq!(universe.get_food_count(3, 2), Ok(7));
    // A living wolf counts sheep.
    let mut wolf = sheep_at(2, 2);
    wolf.creature = Creature::Wolf;
    assert_eq!(universe.set(wolf), Ok(31));
    assert_eq!(universe.get_food_count(2, 2), Ok(1));
    assert_eq!(universe.set(sheep_at(1, 1)), Ok(32));
    assert_eq!(universe.get_food_count(2, 2), Ok(2));
    // A dead sheep counts like any dead occupant.
    let mut carcass = sheep_at(0, 0);
    carcass.status = Life::Dead;
    assert_eq!(universe.set(carcass), Ok(33));
    assert_eq!(universe.get_food_count(0, 0), Ok(5));
    assert_eq!(universe.get_food_count(6, 0), Err(GridError::BoundsError));
    assert_eq!(universe.get_food_count(0, 5), Err(GridError::BoundsError));
}

#[test]
fn cells_are_listed_by_kind_in_grid_order() {
    let mut universe = Universe::new(5, 6);
    assert_eq!(universe.analyze_creatures(Creature::Sheep), Vec::<Cell>::new());
    assert_eq!(universe.set(sheep_at(4, 4)), Ok(30));
    assert_eq!(universe.set(sheep_at(0, 2)), Ok(31));
    let sheep = universe.analyze_creatures(Creature::Sheep);
    assert_eq!(sheep.len(), 2);
    assert_eq!((sheep[0].id, sheep[0].position), (31, at(0, 2)));
    assert_eq!((sheep[1].id, sheep[1].position), (30, at(4, 4)));
    let grass = universe.analyze_creatures(Creature::Grass);
    let ids: Vec<u32> = grass.iter().map(|cell| cell.id).collect();
    assert_eq!(ids, vec![0, 4, 6, 7, 8, 10, 12, 14, 16, 18, 20, 21, 22, 24, 26]);
    assert_eq!(universe.analyze_creatures(Creature::Empty).len(), 13);
    assert_eq!(universe.analyze_creatures(Creature::Wolf).len(), 0);
}

#[test]
fn grid_renders_one_character_per_cell() {
    let universe = Universe::new(5, 6);
    assert_eq!(universe.render(), "#.#.#.\n###.#.\n#.#.#.\n#.###.\n#.#.#.\n");
    assert_eq!(Universe::new(1, 1).render(), "#\n");
    assert_eq!(Universe::new(2, 3).render(), "#.#\n.#.\n");
}

#[test]
fn spawn_shows_in_the_text_at_its_position() {
    let mut universe = Universe::new(5, 6);
    assert_eq!(universe.set(sheep_at(3, 4)), Ok(30));
    let mut wolf = sheep_at(0, 5);
    wolf.creature = Creature::Wolf;
    assert_eq!(universe.set(wolf), Ok(31));
    let text: Vec<char> = universe.render().chars().collect();
    assert_eq!(text.len(), 5 * 7);
    assert_eq!(text[3 * 7 + 4], 'S');
    assert_eq!(text[0 * 7 + 5], 'W');
    assert_eq!(universe.render(), "#.#.#W\n###.#.\n#.#.#.\n#.##S.\n#.#.#.\n");
    let mut nothing = sheep_at(0, 0);
    nothing.creature = Creature::Empty;
    assert_eq!(universe.set(nothing), Ok(32));
    assert_eq!(universe.render(), "..#.#W\n###.#.\n#.#.#.\n#.##S.\n#.#.#.\n");
}

#[test]
fn construction_and_spawning_keep_identifiers_distinct() {
    let mut universe = Universe::new(5, 6);
    assert!(identifiers_are_distinct(universe.cells()));
    assert_eq!(universe.set(sheep_at(0, 0)), Ok(30));
    assert_eq!(universe.set(sheep_at(0, 0)), Ok(31));
    assert_eq!(universe.set(sheep_at(4, 5)), Ok(32));
    assert!(identifiers_are_distinct(universe.cells()));
    assert!(identifiers_are_distinct(Universe::new(0, 0).cells()));
}

#[test]
fn identifier_borne_twice_is_found() {
    let universe = Universe::new(2, 2);
    let mut cells = universe.cells().clone();
    assert!(identifiers_are_distinct(&cells));
    // Two occupants under one identifier.
    cells[3].id = 1;
    assert!(!identifiers_are_distinct(&cells));
    cells[3].id = 3;
    assert!(identifiers_are_distinct(&cells));
    // An occupant and what another cell contains.
    cells[0].inside = cells[2].pack_to_inside();
    assert!(!identifiers_are_distinct(&cells));
    cells[2].id = 9;
    assert!(identifiers_are_distinct(&cells));
    // What two cells contain.
    cells[1].inside = cells[0].inside;
    assert!(!identifiers_are_distinct(&cells));
    cells[1].inside = None;
    // An occupant and what it contains itself.
    cells[3].inside = cells[3].pack_to_inside();
    assert!(!identifiers_are_distinct(&cells));
    assert!(identifiers_are_distinct(&Vec::new()));
}

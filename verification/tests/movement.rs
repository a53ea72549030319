use ecosystem::identity::identifiers_are_distinct;
use ecosystem::universe::Organizm;
use ecosystem::{
    Cell, Creature, Direction, FixedDirection, GridError, Inside, Life, PlannedDirections,
    Position, Universe,
};

fn at(row: u32, column: u32) -> Position {
    Position { column, row }
}

fn animal(creature: Creature, row: u32, column: u32, stamina: u8) -> Organizm {
    Organizm {
        position: at(row, column),
        creature,
        stamina,
        status: Life::Alive,
        calories: 120,
        health: 100,
    }
}

fn plan(cells: usize, moves: &[(usize, Direction)]) -> PlannedDirections {
    let mut plan = vec![Direction::Stand; cells];
    for (index, direction) in moves {
        plan[*index] = *direction;
    }
    PlannedDirections { plan }
}

/// Sends every organism east on even rows and west on odd rows.
fn boustrophedon(universe: &Universe) -> PlannedDirections {
    let plan = universe
        .cells()
        .iter()
        .map(|cell| if cell.position.row % 2 == 0 { Direction::East } else { Direction::West })
        .collect();
    PlannedDirections { plan }
}

#[test]
fn steps_wrap_around_the_torus() {
    let universe = Universe::new(5, 6);
    assert_eq!(universe.get_new_index_with_direction(0, Direction::NorthWest), Ok(29));
    assert_eq!(universe.get_new_index_with_direction(0, Direction::North), Ok(24));
    assert_eq!(universe.get_new_index_with_direction(0, Direction::West), Ok(5));
    assert_eq!(universe.get_new_index_with_direction(0, Direction::SouthEast), Ok(7));
    assert_eq!(universe.get_new_index_with_direction(29, Direction::SouthEast), Ok(0));
    assert_eq!(universe.get_new_index_with_direction(29, Direction::East), Ok(24));
    assert_eq!(universe.get_new_index_with_direction(29, Direction::South), Ok(5));
    assert_eq!(universe.get_new_index_with_direction(15, Direction::Stand), Ok(15));
    assert_eq!(universe.get_new_index_with_direction(15, Direction::NorthEast), Ok(10));
    assert_eq!(universe.get_new_index_with_direction(15, Direction::SouthWest), Ok(20));
    assert_eq!(
        universe.get_new_index_with_direction(30, Direction::Stand),
        Err(GridError::BoundsError)
    );
}

#[test]
fn steps_on_a_single_row_come_back() {
    let universe = Universe::new(1, 3);
    assert_eq!(universe.get_new_index_with_direction(0, Direction::North), Ok(0));
    assert_eq!(universe.get_new_index_with_direction(0, Direction::SouthEast), Ok(1));
    assert_eq!(universe.get_new_index_with_direction(0, Direction::West), Ok(2));
    assert_eq!(universe.get_new_index_with_direction(2, Direction::East), Ok(0));
}

#[test]
fn move_swallows_the_destination_and_frees_the_prey() {
    let mut universe = Universe::new(5, 6);
    assert_eq!(universe.set(animal(Creature::Sheep, 2, 2, 10)), Ok(30));
    let before = universe.cells().clone();
    assert_eq!(universe.make_movement(&FixedDirection { direction: Direction::East }), Ok(()));
    assert_eq!(universe.cells().len(), 30);
    assert_eq!(
        universe.cells()[15],
        Cell {
            id: 30,
            creature: Creature::Sheep,
            position: at(2, 3),
            stamina: 9,
            status: Life::Alive,
            inside: Some(Inside {
                id: 15,
                creature: Creature::Empty,
                position: at(2, 3),
                stamina: 0,
                status: Life::Dead,
                calories: 0,
                health: 0,
            }),
            calories: 120,
            direction: Direction::East,
            health: 100,
        }
    );
    assert_eq!(universe.cells()[14], Cell::seed(6, 14));
    for index in 0..30 {
        if index != 14 && index != 15 {
            assert_eq!(universe.cells()[index], before[index]);
        }
    }
}

#[test]
fn move_without_prey_leaves_an_empty_cell() {
    let mut lone = Universe::new(5, 6);
    assert_eq!(lone.set(animal(Creature::Sheep, 2, 2, 10)), Ok(30));
    // Digest the grass away so that the sheep holds nothing.
    let still = FixedDirection { direction: Direction::Stand };
    for _ in 0..20 {
        assert_eq!(lone.tick(&still), Ok(()));
    }
    assert_eq!(lone.cells()[14].inside, None);
    assert_eq!(lone.cells()[14].calories, 180);
    assert_eq!(lone.make_movement(&FixedDirection { direction: Direction::South }), Ok(()));
    assert_eq!(
        lone.cells()[14],
        Cell {
            id: 14,
            creature: Creature::Empty,
            position: at(2, 2),
            stamina: 0,
            status: Life::Dead,
            inside: None,
            calories: 0,
            direction: Direction::Stand,
            health: 0,
        }
    );
    assert_eq!(lone.cells()[20].id, 30);
    assert_eq!(lone.cells()[20].inside.unwrap().id, 20);
}

#[test]
fn standing_keeps_prey_and_stamina() {
    let mut universe = Universe::new(5, 6);
    assert_eq!(universe.set(animal(Creature::Sheep, 2, 2, 0)), Ok(30));
    let before = universe.cells().clone();
    assert_eq!(universe.make_movement(&FixedDirection { direction: Direction::Stand }), Ok(()));
    assert_eq!(*universe.cells(), before);
}

#[test]
fn exhausted_animal_stays_where_it_is() {
    let mut universe = Universe::new(5, 6);
    assert_eq!(universe.set(animal(Creature::Sheep, 2, 2, 0)), Ok(30));
    let before = universe.cells().clone();
    assert_eq!(universe.make_movement(&FixedDirection { direction: Direction::North }), Ok(()));
    assert_eq!(*universe.cells(), before);
}

#[test]
fn dead_occupants_do_not_move() {
    let mut universe = Universe::new(5, 6);
    let before = universe.cells().clone();
    assert_eq!(universe.make_movement(&FixedDirection { direction: Direction::NorthWest }), Ok(()));
    assert_eq!(*universe.cells(), before);
    let mut carcass = animal(Creature::Sheep, 1, 1, 10);
    carcass.status = Life::Dead;
    assert_eq!(universe.set(carcass), Ok(30));
    let before = universe.cells().clone();
    assert_eq!(universe.make_movement(&FixedDirection { direction: Direction::NorthWest }), Ok(()));
    assert_eq!(*universe.cells(), before);
}

#[test]
fn single_move_writes_source_and_destination_only() {
    let mut universe = Universe::new(5, 6);
    assert_eq!(universe.set(animal(Creature::Wolf, 0, 0, 3)), Ok(30));
    let mut next = universe.cells().clone();
    assert_eq!(universe.relocate(&mut next, 0, Direction::NorthWest), Ok(()));
    assert_eq!(next.len(), 30);
    assert_eq!(next[0], Cell::seed(6, 0));
    assert_eq!(next[29].id, 30);
    assert_eq!(next[29].creature, Creature::Wolf);
    assert_eq!(next[29].stamina, 2);
    assert_eq!(next[29].position, at(4, 5));
    assert_eq!(next[29].inside, Cell::seed(6, 29).pack_to_inside());
    for index in 1..29 {
        assert_eq!(next[index], universe.cells()[index]);
    }
    // The grid itself is read, not written.
    assert_eq!(universe.cells()[0].id, 30);
    // A cell whose occupant does not move writes nothing.
    let mut untouched = universe.cells().clone();
    assert_eq!(universe.relocate(&mut untouched, 5, Direction::East), Ok(()));
    assert_eq!(untouched, *universe.cells());
}

#[test]
fn move_from_off_the_grid_or_into_a_wrong_buffer_is_refused() {
    let mut universe = Universe::new(5, 6);
    assert_eq!(universe.set(animal(Creature::Wolf, 0, 0, 3)), Ok(30));
    let mut next = universe.cells().clone();
    assert_eq!(universe.relocate(&mut next, 30, Direction::East), Err(GridError::BoundsError));
    assert_eq!(next, *universe.cells());
    let mut short = universe.cells().clone();
    short.pop();
    let before = short.clone();
    assert_eq!(universe.relocate(&mut short, 0, Direction::East), Err(GridError::BoundsError));
    assert_eq!(short, before);
}

#[test]
fn later_move_onto_the_same_cell_stands() {
    let mut universe = Universe::new(5, 6);
    assert_eq!(universe.set(animal(Creature::Sheep, 2, 1, 10)), Ok(30));
    assert_eq!(universe.set(animal(Creature::Wolf, 2, 3, 10)), Ok(31));
    let towards = plan(30, &[(13, Direction::East), (15, Direction::West)]);
    assert_eq!(universe.make_movement(&towards), Ok(()));
    assert_eq!(universe.cells()[14].id, 31);
    assert_eq!(universe.cells()[14].creature, Creature::Wolf);
    assert_eq!(universe.cells()[14].inside.unwrap().id, 14);
    assert_eq!(universe.cells()[13], Cell::seed(6, 13));
    assert_eq!(universe.cells()[15], Cell::seed(6, 15));
    assert_eq!(universe.analyze_creatures(Creature::Sheep).len(), 0);
    assert_eq!(universe.cells().len(), 30);
}

#[test]
fn standing_animal_holds_its_cell_against_an_earlier_mover() {
    let mut universe = Universe::new(5, 6);
    assert_eq!(universe.set(animal(Creature::Wolf, 2, 1, 10)), Ok(30));
    assert_eq!(universe.set(animal(Creature::Sheep, 2, 2, 10)), Ok(31));
    assert_eq!(universe.make_movement(&plan(30, &[(13, Direction::East)])), Ok(()));
    assert_eq!(universe.cells()[14].id, 31);
    assert_eq!(universe.cells()[14].creature, Creature::Sheep);
    assert_eq!(universe.cells()[13], Cell::seed(6, 13));
    assert_eq!(universe.analyze_creatures(Creature::Wolf).len(), 0);
}

#[test]
fn exhausted_animal_is_swallowed_where_it_rests() {
    let mut universe = Universe::new(5, 6);
    assert_eq!(universe.set(animal(Creature::Wolf, 2, 1, 10)), Ok(30));
    assert_eq!(universe.set(animal(Creature::Sheep, 2, 2, 0)), Ok(31));
    assert_eq!(universe.make_movement(&FixedDirection { direction: Direction::East }), Ok(()));
    assert_eq!(universe.cells()[14].id, 30);
    assert_eq!(universe.cells()[14].creature, Creature::Wolf);
    let sheep = universe.cells()[14].inside.unwrap();
    assert_eq!((sheep.id, sheep.creature), (31, Creature::Sheep));
    assert_eq!((sheep.calories, sheep.health), (120, 0));
    assert_eq!(universe.cells()[13], Cell::seed(6, 13));
}

#[test]
fn plan_shorter_than_the_grid_lets_the_rest_stand() {
    let mut universe = Universe::new(5, 6);
    assert_eq!(universe.set(animal(Creature::Sheep, 0, 1, 10)), Ok(30));
    assert_eq!(universe.set(animal(Creature::Sheep, 4, 4, 10)), Ok(31));
    let short = PlannedDirections { plan: vec![Direction::South, Direction::South] };
    assert_eq!(universe.make_movement(&short), Ok(()));
    assert_eq!(universe.cells()[7].id, 30);
    assert_eq!(universe.cells()[7].direction, Direction::South);
    assert_eq!(universe.cells()[28].id, 31);
    assert_eq!(universe.cells()[28].stamina, 10);
}

#[test]
fn plan_may_depend_on_where_each_organism_stands() {
    let mut universe = Universe::new(4, 4);
    assert_eq!(universe.set(animal(Creature::Sheep, 0, 3, 10)), Ok(16));
    assert_eq!(universe.set(animal(Creature::Sheep, 1, 0, 10)), Ok(17));
    let policy = boustrophedon(&universe);
    assert_eq!(universe.make_movement(&policy), Ok(()));
    // Row 0 goes east and wraps to column 0; row 1 goes west and wraps to column 3.
    assert_eq!(universe.cells()[0].id, 16);
    assert_eq!(universe.cells()[0].direction, Direction::East);
    assert_eq!(universe.cells()[7].id, 17);
    assert_eq!(universe.cells()[7].direction, Direction::West);
    assert_eq!(universe.cells()[3], Cell::seed(4, 3));
    assert_eq!(universe.cells()[4], Cell::seed(4, 4));
}

#[test]
fn move_that_would_double_an_organism_is_refused() {
    let mut universe = Universe::new(5, 6);
    assert_eq!(universe.set(animal(Creature::Sheep, 1, 1, 10)), Ok(30));
    assert_eq!(universe.set(animal(Creature::Wolf, 2, 2, 10)), Ok(31));
    let before = universe.cells().clone();
    // The sheep would go on to (0, 0) while the wolf swallows it where it stood.
    assert_eq!(
        universe.make_movement(&FixedDirection { direction: Direction::NorthWest }),
        Err(GridError::InvariantViolation)
    );
    assert_eq!(*universe.cells(), before);
    assert_eq!(universe.creature_count(), 32);
    // The same moves one after the other are in order.
    assert_eq!(universe.make_movement(&plan(30, &[(7, Direction::NorthWest)])), Ok(()));
    assert_eq!(universe.make_movement(&plan(30, &[(14, Direction::NorthWest)])), Ok(()));
    assert_eq!(universe.cells()[0].id, 30);
    assert_eq!(universe.cells()[7].id, 31);
    assert_eq!(universe.cells()[7].inside.unwrap().id, 7);
    assert!(identifiers_are_distinct(universe.cells()));
}

#[test]
fn step_onto_itself_is_refused() {
    let mut universe = Universe::new(1, 1);
    assert_eq!(universe.set(animal(Creature::Sheep, 0, 0, 10)), Ok(1));
    let before = universe.cells().clone();
    // On a single cell every step leads back, and the mover would swallow itself.
    assert_eq!(
        universe.make_movement(&FixedDirection { direction: Direction::North }),
        Err(GridError::InvariantViolation)
    );
    assert_eq!(*universe.cells(), before);
    assert_eq!(universe.make_movement(&FixedDirection { direction: Direction::Stand }), Ok(()));
    assert_eq!(*universe.cells(), before);
}

#[test]
fn lone_walker_keeps_identifiers_distinct() {
    let mut universe = Universe::new(5, 6);
    assert_eq!(universe.set(animal(Creature::Sheep, 0, 0, 10)), Ok(30));
    let north_west = FixedDirection { direction: Direction::NorthWest };
    for _ in 0..61 {
        assert_eq!(universe.tick(&north_west), Ok(()));
        assert!(identifiers_are_distinct(universe.cells()));
    }
}

//! Identifiers: every organism on the grid, swallowed or not, is known by
//! an identifier of its own.
//!
//! Construction, spawning and the energy phase keep the identifiers
//! distinct. The moves of a movement phase need not: an organism that steps
//! away in the same phase in which another swallows it from the snapshot
//! would be on the grid twice. The movement phase therefore looks at its
//! outcome before it commits it.

use std::collections::HashSet;
use vstd::prelude::*;
use crate::cell::Cell;
use crate::universe::{GridView, Organizm};

verus! {

impl Cell {
    /// Whether `id` names the occupant of this cell or what it contains.
    pub open spec fn bears(self, id: u32) -> bool {
        self.id == id || (self.inside matches Some(prey) && prey.id == id)
    }

    /// Whether the occupant of this cell and what it contains go by
    /// different identifiers.
    pub open spec fn distinct_within(self) -> bool {
        self.inside matches Some(prey) ==> prey.id != self.id
    }
}

/// Whether no identifier is on `cells` twice: no cell bears one identifier
/// as its occupant and as what it contains, and no two cells bear the same.
pub open spec fn identifiers_distinct(cells: Seq<Cell>) -> bool {
    &&& forall|i: int| 0 <= i < cells.len() ==> (#[trigger] cells[i]).distinct_within()
    &&& forall|i: int, j: int, id: u32|
        0 <= i < j < cells.len() && #[trigger] cells[i].bears(id)
            ==> !#[trigger] cells[j].bears(id)
}

/// Whether one of the first `count` cells bears `id`.
pub open spec fn borne_before(cells: Seq<Cell>, id: u32, count: int) -> bool {
    exists|a: int| 0 <= a < count && (#[trigger] cells[a]).bears(id)
}

impl GridView {
    /// Whether no identifier is on the grid twice.
    pub open spec fn identifiers_distinct(self) -> bool {
        crate::identity::identifiers_distinct(self.cells)
    }
}

/// Tells whether no identifier is on `cells` twice, as the occupant of a
/// cell or as what a cell contains.
pub fn identifiers_are_distinct(cells: &Vec<Cell>) -> (distinct: bool)
    ensures
        distinct == identifiers_distinct(cells@),
{
    broadcast use vstd::std_specs::hash::group_hash_axioms;

    let mut seen: HashSet<u32> = HashSet::new();
    let mut i: usize = 0;
    while i < cells.len()
        invariant
            i <= cells.len(),
            identifiers_distinct(cells@.take(i as int)),
            forall|id: u32| seen@.contains(id) <==> borne_before(cells@, id, i as int),
        decreases cells.len() - i,
    {
        let cell = cells[i];
        let ghost earlier = seen@;
        if !seen.insert(cell.id) {
            proof {
                let a = choose|a: int| 0 <= a < i && (#[trigger] cells@[a]).bears(cell.id);
                assert(cells@[a].bears(cell.id) && cells@[i as int].bears(cell.id));
            }
            return false;
        }
        match cell.inside {
            Some(prey) => {
                if !seen.insert(prey.id) {
                    proof {
                        if prey.id != cell.id {
                            let a = choose|a: int|
                                0 <= a < i && (#[trigger] cells@[a]).bears(prey.id);
                            assert(cells@[a].bears(prey.id) && cells@[i as int].bears(prey.id));
                        }
                    }
                    return false;
                }
            },
            None => {},
        }
        proof {
            let through = cells@.take(i + 1);
            assert forall|id: u32|
                seen@.contains(id) <==> borne_before(cells@, id, i + 1) by {
                if earlier.contains(id) {
                    let a = choose|a: int| 0 <= a < i && (#[trigger] cells@[a]).bears(id);
                    assert(cells@[a].bears(id));
                }
                if borne_before(cells@, id, i + 1) {
                    let a = choose|a: int| 0 <= a < i + 1 && (#[trigger] cells@[a]).bears(id);
                    assert(a < i ==> borne_before(cells@, id, i as int));
                }
            }
            assert forall|a: int, b: int, id: u32|
                0 <= a < b < through.len() && #[trigger] through[a].bears(id)
                implies !#[trigger] through[b].bears(id) by {
                assert(b < i ==> cells@.take(i as int)[a].bears(id));
                assert(b == i ==> borne_before(cells@, id, i as int));
            }
            assert forall|a: int| 0 <= a < through.len()
                implies (#[trigger] through[a]).distinct_within() by {
                assert(a < i ==> cells@.take(i as int)[a] == through[a]);
            }
        }
        i = i + 1;
    }
    proof {
        assert(cells@.take(cells@.len() as int) =~= cells@);
    }
    true
}

/// On a grid as constructed no identifier is on the grid twice.
pub proof fn lemma_seeded_identifiers_are_distinct(height: nat, width: nat)
    requires
        height * width <= u32::MAX,
    ensures
        GridView::seeded(height, width).identifiers_distinct(),
{
    let cells = GridView::seeded(height, width).cells;
    assert forall|i: int, j: int, id: u32|
        0 <= i < j < cells.len() && #[trigger] cells[i].bears(id)
        implies !#[trigger] cells[j].bears(id) by {
        assert(cells[i].id == i && cells[j].id == j);
    }
}

/// A spawn keeps the identifiers distinct: the newcomer gets an identifier
/// that was never handed out, and the occupant it swallows keeps its own.
pub proof fn lemma_spawn_keeps_identifiers_distinct(grid: GridView, request: Organizm)
    requires
        grid.shaped(),
        grid.holds(request.position),
        grid.creature_count < u32::MAX,
        grid.identifiers_distinct(),
    ensures
        grid.spawned(request).identifiers_distinct(),
{
    let before = grid.cells;
    let after = grid.spawned(request).cells;
    let index = grid.index_of(request.position);
    crate::universe::lemma_spawn_keeps_grid_shaped(grid, request);
    assert forall|i: int, j: int, id: u32|
        0 <= i < j < after.len() && #[trigger] after[i].bears(id)
        implies !#[trigger] after[j].bears(id) by {
        assert(grid.cell_fits(i));
        assert(grid.cell_fits(j));
        if i == index {
            assert(id == before[index].id ==> before[i].bears(id));
        } else {
            assert(before[i].bears(id));
            assert(j == index && after[j].bears(id) ==> before[j].bears(id));
        }
    }
    assert forall|i: int| 0 <= i < after.len()
        implies (#[trigger] after[i]).distinct_within() by {
        assert(grid.cell_fits(i));
    }
}

/// The energy phase of one cell hands out no identifier: what the cell
/// bears afterwards it bore before, and its occupant and what it contains
/// still differ.
pub proof fn lemma_metabolism_keeps_identifiers(cell: Cell, id: u32)
    ensures
        cell.aged().bears(id) ==> cell.bears(id),
        cell.distinct_within() ==> cell.aged().distinct_within(),
{
}

/// Cells that bear no more identifiers than the cells of a sequence with
/// distinct identifiers bear, place by place, have distinct identifiers
/// too.
pub proof fn lemma_fewer_identifiers_stay_distinct(before: Seq<Cell>, after: Seq<Cell>)
    requires
        identifiers_distinct(before),
        after.len() == before.len(),
        forall|i: int| 0 <= i < after.len() ==> (#[trigger] after[i]).distinct_within(),
        forall|i: int, id: u32|
            0 <= i < after.len() && #[trigger] after[i].bears(id) ==> before[i].bears(id),
    ensures
        identifiers_distinct(after),
{
    assert forall|i: int, j: int, id: u32|
        0 <= i < j < after.len() && #[trigger] after[i].bears(id)
        implies !#[trigger] after[j].bears(id) by {
        assert(before[i].bears(id));
        assert(after[j].bears(id) ==> before[j].bears(id));
    }
}

} // verus!

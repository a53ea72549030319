//! The grid as text: one character per cell, one line per row.

use vstd::prelude::*;
use crate::universe::{GridView, Organizm, Universe};

verus! {

/// `String::push` of the standard library appends one character to the end
/// of the string and leaves the characters before it as they were.
pub assume_specification[ String::push ](text: &mut String, symbol: char)
    ensures
        final(text)@ == old(text)@.push(symbol),
;

impl GridView {
    /// The cells of row `row` up to column `columns`, each as the character
    /// of its kind.
    pub open spec fn row_glyphs(self, row: int, columns: nat) -> Seq<char> {
        Seq::new(columns, |column: int| self.cells[row * self.width + column].creature.glyph())
    }

    /// The line of text for row `row`: the character of each cell, then a
    /// line feed.
    pub open spec fn row_text(self, row: int) -> Seq<char> {
        self.row_glyphs(row, self.width).push('\n')
    }

    /// The lines of the first `rows` rows, one after the other.
    pub open spec fn text_through(self, rows: nat) -> Seq<char>
        decreases rows,
    {
        if rows == 0 {
            Seq::empty()
        } else {
            self.text_through((rows - 1) as nat) + self.row_text(rows - 1)
        }
    }

    /// The grid as text.
    pub open spec fn rendered(self) -> Seq<char> {
        self.text_through(self.height)
    }
}

impl Universe {
    /// Renders the grid as text: `.` for an empty cell, `#` for grass, `S`
    /// for a sheep and `W` for a wolf, each row followed by a line feed.
    pub fn render(&self) -> (text: String)
        requires
            self.wf(),
        ensures
            text@ == self@.rendered(),
    {
        let cells = self.cells();
        let height = self.height();
        let width = self.width();
        let mut text = String::new();
        let mut row: u32 = 0;
        while row < height
            invariant
                row <= height,
                self.wf(),
                cells@ == self@.cells,
                height == self@.height,
                width == self@.width,
                text@ == self@.text_through(row as nat),
            decreases height - row,
        {
            let ghost above = text@;
            let mut column: u32 = 0;
            while column < width
                invariant
                    column <= width,
                    row < height,
                    self.wf(),
                    cells@ == self@.cells,
                    height == self@.height,
                    width == self@.width,
                    text@ =~= above + self@.row_glyphs(row as int, column as nat),
                decreases width - column,
            {
                proof {
                    crate::position::lemma_index_of_position(
                        height as int,
                        width as int,
                        row as int,
                        column as int,
                    );
                }
                let index = (row as u64 * width as u64 + column as u64) as usize;
                text.push(cells[index].creature.symbol());
                column = column + 1;
            }
            text.push('\n');
            row = row + 1;
        }
        text
    }
}

/// The text of the first `rows` rows of a grid has one character per cell
/// and one line feed per row, and the character of the cell at
/// (`row`, `column`) stands at `row * (width + 1) + column`.
pub proof fn lemma_text_shows_cells(grid: GridView, rows: nat, row: int, column: int)
    requires
        0 <= row < rows,
        0 <= column < grid.width,
    ensures
        grid.text_through(rows).len() == rows * (grid.width + 1),
        0 <= row * (grid.width + 1) + column < grid.text_through(rows).len(),
        grid.text_through(rows)[row * (grid.width + 1) + column] == grid.cells[row * grid.width
            + column].creature.glyph(),
        grid.text_through(rows)[row * (grid.width + 1) + grid.width] == '\n',
    decreases rows,
{
    let line: int = grid.width as int + 1;
    let above = grid.text_through((rows - 1) as nat);
    let here = grid.row_text(rows - 1);
    crate::render::lemma_text_length(grid, rows);
    crate::render::lemma_text_length(grid, (rows - 1) as nat);
    assert(row * line + line <= rows * line) by (nonlinear_arith)
        requires
            row + 1 <= rows,
            0 <= line,
    ;
    assert(0 <= row * line) by (nonlinear_arith)
        requires
            0 <= row,
            0 <= line,
    ;
    if row < rows - 1 {
        lemma_text_shows_cells(grid, (rows - 1) as nat, row, column);
        assert(row * line + line <= (rows - 1) * line) by (nonlinear_arith)
            requires
                row + 1 <= rows - 1,
                0 <= line,
        ;
    } else {
        assert(above.len() == row * line);
        assert((above + here)[above.len() + column] == here[column]);
    }
}

/// The text of the first `rows` rows of a grid has `width + 1` characters
/// per row.
pub proof fn lemma_text_length(grid: GridView, rows: nat)
    ensures
        grid.text_through(rows).len() == rows * (grid.width + 1),
    decreases rows,
{
    let line: int = grid.width as int + 1;
    if rows > 0 {
        let above: nat = (rows - 1) as nat;
        lemma_text_length(grid, above);
        assert(above * line + line == rows * line) by (nonlinear_arith)
            requires
                above + 1 == rows,
        ;
    } else {
        assert(rows * line == 0) by (nonlinear_arith)
            requires
                rows == 0,
        ;
    }
}

/// A spawn shows at once: the text of the grid after it has the character
/// of the requested kind at the requested position, `width + 1` characters
/// to the row.
pub proof fn lemma_spawn_shows_in_text(grid: GridView, request: Organizm)
    requires
        grid.shaped(),
        grid.holds(request.position),
    ensures
        grid.spawned(request).rendered().len() == grid.height * (grid.width + 1),
        0 <= request.position.row * (grid.width + 1) + request.position.column
            < grid.spawned(request).rendered().len(),
        grid.spawned(request).rendered()[request.position.row * (grid.width + 1)
            + request.position.column] == request.creature.glyph(),
{
    let after = grid.spawned(request);
    crate::position::lemma_index_of_position(
        grid.height as int,
        grid.width as int,
        request.position.row as int,
        request.position.column as int,
    );
    lemma_text_shows_cells(
        after,
        after.height,
        request.position.row as int,
        request.position.column as int,
    );
}

} // verus!

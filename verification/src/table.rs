use crate::data::owned;
use crate::entity::Entity;
use crate::hierarchy::Hierarchy;
use crate::lens::Lens;
use crate::lookup::{closest_model, find_model};
use crate::registry::ModelRegistry;
use vstd::prelude::*;

verus! {

/// The place of one item of a table: its position in the bound list, and
/// the row and column of its cell.
#[derive(Clone, Copy, Debug, PartialEq, Eq, Structural)]
pub struct ItemPtr {
    pub index: usize,
    pub row: usize,
    pub col: usize,
}

/// A square grid over a bound list, `width` cells a side.
pub struct Table<L: Lens> {
    pub width: usize,
    pub lens: L,
}

/// The cell that comes at position `k` when the grid is walked row by row.
pub open spec fn cell_at(width: nat, k: int) -> ItemPtr {
    ItemPtr { index: k as usize, row: (k / width as int) as usize, col: (k % width as int) as usize }
}

/// The cells of a grid of `rows` rows and `width` columns, row by row.
pub open spec fn grid_cells(width: nat, rows: nat) -> Seq<ItemPtr> {
    Seq::new(rows * width, |k: int| cell_at(width, k))
}

impl<L: Lens> Table<L> {
    /// A table of `width` columns over the list that `lens` leads to.
    pub fn new(width: usize, lens: L) -> (table: Self)
        ensures
            table.width == width,
            table.lens == lens,
    {
        Table { width, lens }
    }

    /// Whether a list of `len` items fills the table's square: the only
    /// lists that a table lays out.
    pub open spec fn is_square_spec(&self, len: nat) -> bool {
        self.width > 0 && len / (self.width as nat) == self.width
    }

    /// Whether a list of `len` items fills the table's square.
    pub fn is_square(&self, len: usize) -> (square: bool)
        ensures
            square == self.is_square_spec(len as nat),
    {
        self.width > 0 && len / self.width == self.width
    }

    /// The cells of the table over a list of `len` items, row by row: one
    /// for each of the first `width * width` items.
    pub fn cells(&self, len: usize) -> (cells: Vec<ItemPtr>)
        requires
            self.is_square_spec(len as nat),
        ensures
            cells@ == grid_cells(self.width as nat, self.width as nat),
    {
        let width: usize = self.width;
        proof {
            lemma_square_fits(width as nat, len as nat);
        }
        let mut cells: Vec<ItemPtr> = Vec::new();
        let mut row: usize = 0;
        while row < width
            invariant
                row <= width,
                width > 0,
                width * width <= usize::MAX,
                cells@ == grid_cells(width as nat, row as nat),
            decreases width - row,
        {
            let mut col: usize = 0;
            while col < width
                invariant
                    row < width,
                    col <= width,
                    width > 0,
                    width * width <= usize::MAX,
                    cells@ == Seq::new(
                        (row * width + col) as nat,
                        |k: int| cell_at(width as nat, k),
                    ),
                decreases width - col,
            {
                proof {
                    lemma_cell_in_range(width as nat, row as nat, col as nat);
                }
                let index: usize = row * width + col;
                cells.push(ItemPtr { index, row, col });
                proof {
                    assert(cells@ =~= Seq::new(
                        (row * width + col + 1) as nat,
                        |k: int| cell_at(width as nat, k),
                    ));
                }
                col = col + 1;
            }
            proof {
                assert((row + 1) * width == row * width + width) by (nonlinear_arith);
            }
            row = row + 1;
        }
        cells
    }
}

/// The length of an optional list.
pub open spec fn list_len<T>(list: Option<Vec<T>>) -> Option<usize> {
    match list {
        Some(items) => Some(items.len()),
        None => None,
    }
}

impl<L, T> Table<L> where L: Lens<Target = Vec<T>> {
    /// The number of items in the list that the table is bound to, as seen
    /// from `current`: that of the closest model of the lens's type.
    /// Nothing where no such model is found or the list cannot be reached
    /// in it.
    pub open spec fn item_count_spec(
        &self,
        data: &ModelRegistry<L::Source>,
        tree: &Hierarchy,
        current: Entity,
    ) -> Option<usize> {
        match closest_model(data, tree, self.lens.source_key_spec(), current) {
            Some(model) => list_len(owned(self.lens.view_spec(&model))),
            None => None,
        }
    }

    /// The number of items in the list that the table is bound to, as seen
    /// from `current`.
    pub fn item_count(
        &self,
        data: &ModelRegistry<L::Source>,
        tree: &Hierarchy,
        current: Entity,
    ) -> (count: Option<usize>)
        requires
            data.wf(),
        ensures
            count == self.item_count_spec(data, tree, current),
    {
        let key: u64 = self.lens.source_key();
        match find_model(data, tree, key, current) {
            Some(model) => {
                let measure = |list: Option<&Vec<T>>| -> (count: Option<usize>)
                    ensures
                        count == list_len(owned(list))
                    {
                        match list {
                            Some(items) => Some(items.len()),
                            None => None,
                        }
                    };
                self.lens.view(model, measure)
            },
            None => None,
        }
    }

    /// The cells to build for the table at `current`: those of its square
    /// where the bound list is found, none where it is not. A list that
    /// does not fill the square is not laid out.
    pub fn body(
        &self,
        data: &ModelRegistry<L::Source>,
        tree: &Hierarchy,
        current: Entity,
    ) -> (cells: Vec<ItemPtr>)
        requires
            data.wf(),
            match self.item_count_spec(data, tree, current) {
                Some(len) => self.is_square_spec(len as nat),
                None => true,
            },
        ensures
            cells@ == (match self.item_count_spec(data, tree, current) {
                Some(_) => grid_cells(self.width as nat, self.width as nat),
                None => Seq::empty(),
            }),
    {
        match self.item_count(data, tree, current) {
            Some(len) => self.cells(len),
            None => Vec::new(),
        }
    }
}

/// A square has no more cells than a list that fills it has items.
pub proof fn lemma_square_fits(width: nat, len: nat)
    requires
        width > 0,
        len / width == width,
    ensures
        width * width <= len,
{
    assert(width * (len / width) <= len) by (nonlinear_arith)
        requires
            width > 0,
    ;
}

/// The cell in row `row` and column `col` is the one at position
/// `row * width + col`, which lies inside the grid.
pub proof fn lemma_cell_in_range(width: nat, row: nat, col: nat)
    requires
        row < width,
        col < width,
    ensures
        row * width + col < width * width,
        (row * width + col) / width == row,
        (row * width + col) % width == col,
{
    assert(row * width + col < width * width) by (nonlinear_arith)
        requires
            row < width,
            col < width,
    ;
    assert((row * width + col) / width == row && (row * width + col) % width == col)
        by (nonlinear_arith)
        requires
            col < width,
    ;
}

} // verus!

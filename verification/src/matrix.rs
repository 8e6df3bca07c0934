//! The physical key matrix: a fixed 2D table, indexed by (row, column), that
//! declares which [`KeyboardKey`] each switch position of the grid reports.

use crate::keys::KeyboardKey;
use vstd::prelude::*;

verus! {

broadcast use vstd::array::group_array_axioms;

/// Number of switch rows of the targeted hardware's grid.
pub const KBD_ROWS: usize = 3;

/// Number of switch columns of the targeted hardware's grid.
pub const KBD_COLS: usize = 5;

/// The wiring table of one keyboard's switch grid: for every (row, column)
/// intersection, the key that the switch there reports when pressed.
///
/// The dimensions are fixed at build time by [`KBD_ROWS`] and [`KBD_COLS`] and
/// must match the physical hardware. Cells are stored row-major: the view is a
/// sequence of [`KBD_ROWS`] rows, each a sequence of [`KBD_COLS`] keys, and
/// [`KeyMatrix::lookup`] takes the row first. The matrix is read-only after
/// construction; a firmware targeting different hardware builds a different
/// matrix through [`KeyMatrix::from_cells`].
pub struct KeyMatrix {
    cells: [[KeyboardKey; KBD_COLS]; KBD_ROWS],
}

impl View for KeyMatrix {
    type V = Seq<Seq<KeyboardKey>>;

    closed spec fn view(&self) -> Seq<Seq<KeyboardKey>> {
        Seq::new(KBD_ROWS as nat, |r: int| Seq::new(KBD_COLS as nat, |c: int| self.cells[r][c]))
    }
}

/// Every matrix has the declared shape: exactly [`KBD_ROWS`] rows of
/// [`KBD_COLS`] cells each, so the addressable cells number
/// `KBD_ROWS * KBD_COLS`, and each one holds a defined [`KeyboardKey`].
pub proof fn lemma_matrix_shape(m: KeyMatrix)
    ensures
        m@.len() == KBD_ROWS,
        forall|r: int| 0 <= r < KBD_ROWS ==> (#[trigger] m@[r]).len() == KBD_COLS,
{
}

impl KeyMatrix {
    /// The placeholder matrix of a hardware target that has not been wired up
    /// yet: every cell holds [`KeyboardKey::NoKey`], so no switch position
    /// produces a key. Valid data, but a real hardware target must replace it.
    pub fn new() -> (m: KeyMatrix)
        ensures
            forall|r: int, c: int|
                0 <= r < KBD_ROWS && 0 <= c < KBD_COLS ==> m@[r][c] == KeyboardKey::NoKey,
    {
        KeyMatrix { cells: [[KeyboardKey::NoKey; KBD_COLS]; KBD_ROWS] }
    }

    /// Builds the matrix that wires cell (r, c) to `cells[r][c]`: rows outer,
    /// columns inner.
    pub fn from_cells(cells: [[KeyboardKey; KBD_COLS]; KBD_ROWS]) -> (m: KeyMatrix)
        ensures
            forall|r: int, c: int|
                0 <= r < KBD_ROWS && 0 <= c < KBD_COLS ==> m@[r][c] == cells@[r]@[c],
    {
        KeyMatrix { cells }
    }

    /// The key wired to switch position (`row`, `column`). Total over the
    /// declared grid: out-of-range indices are a caller error, ruled out here
    /// by the bounds demanded of every caller rather than detected at run
    /// time.
    pub fn lookup(&self, row: usize, column: usize) -> (key: KeyboardKey)
        requires
            row < KBD_ROWS,
            column < KBD_COLS,
        ensures
            key == self@[row as int][column as int],
    {
        self.cells[row][column]
    }

    /// The grid's dimensions, `(KBD_ROWS, KBD_COLS)`: compile-time constants
    /// that size the scanning collaborator's loops.
    pub fn dimensions() -> (d: (usize, usize))
        ensures
            d.0 == KBD_ROWS,
            d.1 == KBD_COLS,
    {
        (KBD_ROWS, KBD_COLS)
    }
}

impl Default for KeyMatrix {
    /// The default matrix is the unwired placeholder of [`KeyMatrix::new`]:
    /// every cell is [`KeyboardKey::NoKey`].
    fn default() -> (m: KeyMatrix)
        ensures
            forall|r: int, c: int|
                0 <= r < KBD_ROWS && 0 <= c < KBD_COLS ==> m@[r][c] == KeyboardKey::NoKey,
    {
        KeyMatrix::new()
    }
}
} // verus!

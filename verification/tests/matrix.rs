use keymatrix::keys::KeyboardKey;
use keymatrix::matrix::KeyMatrix;
use keymatrix::matrix::KBD_COLS;
use keymatrix::matrix::KBD_ROWS;

#[test]
fn dimensions_match_the_declared_constants() {
    assert_eq!(KBD_ROWS, 3);
    assert_eq!(KBD_COLS, 5);
    assert_eq!(KeyMatrix::dimensions(), (KBD_ROWS, KBD_COLS));
    assert_eq!(KeyMatrix::dimensions(), (3, 5));
    assert_eq!(KBD_ROWS * KBD_COLS, 15);
}

#[test]
fn default_matrix_is_all_no_key() {
    let m = KeyMatrix::default();
    let (rows, cols) = KeyMatrix::dimensions();
    for row in 0..rows {
        for column in 0..cols {
            assert_eq!(m.lookup(row, column), KeyboardKey::NoKey);
            assert_eq!(m.lookup(row, column).code(), 0x00);
        }
    }
}

#[test]
fn new_matrix_matches_default() {
    let a = KeyMatrix::new();
    let b = KeyMatrix::default();
    for row in 0..KBD_ROWS {
        for column in 0..KBD_COLS {
            assert_eq!(a.lookup(row, column), b.lookup(row, column));
        }
    }
}

#[test]
fn lookup_covers_every_cell() {
    let m = KeyMatrix::new();
    let mut visited: usize = 0;
    for row in 0..KBD_ROWS {
        for column in 0..KBD_COLS {
            let _defined: KeyboardKey = m.lookup(row, column);
            visited += 1;
        }
    }
    assert_eq!(visited, KBD_ROWS * KBD_COLS);
}

#[test]
fn populated_matrix_reports_its_key() {
    let blank = [KeyboardKey::NoKey; KBD_COLS];
    let mut top = blank;
    top[0] = KeyboardKey::PhyA;
    let m = KeyMatrix::from_cells([top, blank, blank]);
    assert_eq!(m.lookup(0, 0), KeyboardKey::PhyA);
    assert_eq!(m.lookup(0, 0).code(), 0x04);
    assert_eq!(m.lookup(0, 1), KeyboardKey::NoKey);
    assert_eq!(m.lookup(1, 0), KeyboardKey::NoKey);
    assert_eq!(m.lookup(2, 4), KeyboardKey::NoKey);
}

#[test]
fn from_cells_keeps_row_major_order() {
    let mut cells = [[KeyboardKey::NoKey; KBD_COLS]; KBD_ROWS];
    cells[1][3] = KeyboardKey::Enter;
    cells[2][0] = KeyboardKey::Space;
    let m = KeyMatrix::from_cells(cells);
    assert_eq!(m.lookup(1, 3), KeyboardKey::Enter);
    assert_eq!(m.lookup(2, 0), KeyboardKey::Space);
    assert_eq!(m.lookup(3 - 2, 0), KeyboardKey::NoKey);
    assert_eq!(m.lookup(0, 3), KeyboardKey::NoKey);
}

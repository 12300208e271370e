use vstd::prelude::*;

verus! {

/// Current dimensions of the terminal window, in character cells:
/// the viewport is `cols` columns wide and `rows` rows tall.
#[derive(Clone, Copy, Debug, PartialEq, Eq, Structural)]
pub struct TermSize {
    pub cols: u16,
    pub rows: u16,
}

/// The eight motions: four unit steps and four jumps to an edge of the
/// line or of the viewport.
#[derive(Clone, Copy, Debug, PartialEq, Eq, Structural)]
pub enum MoveDirection {
    Left,
    Right,
    Down,
    Up,
    LineStart,
    LineEnd,
    FileEnd,
    FileStart,
}

/// Screen-relative position of the caret inside the viewport: `x` is the
/// column, `y` the row, both counted from the top-left cell.
#[derive(Clone, Copy, Debug, PartialEq, Eq, Structural)]
pub struct Cursor {
    pub x: u16,
    pub y: u16,
}

impl Default for TermSize {
    /// A zero-by-zero size; a real size arrives with the first resize.
    fn default() -> (r: Self)
        ensures
            r.cols == 0,
            r.rows == 0,
    {
        TermSize { cols: 0, rows: 0 }
    }
}

impl Default for Cursor {
    /// The top-left cell of the viewport.
    fn default() -> (r: Self)
        ensures
            r.x == 0,
            r.y == 0,
    {
        Cursor { x: 0, y: 0 }
    }
}

} // verus!

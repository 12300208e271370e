use crate::buffer::Buffer;
use crate::terminal::{Cursor, TermSize};
use vstd::prelude::*;
use vstd::string::StrSliceExecFns;
use vstd::view::View as VstdView;

verus! {

/// Buffer-relative scroll position: the viewport's top-left cell shows
/// column `x` of buffer line `y`.
#[derive(Clone, Copy, Debug, PartialEq, Eq, Structural)]
pub struct Offset {
    pub x: u16,
    pub y: u16,
}

/// The viewport: the loaded buffer, the terminal size, the screen-relative
/// caret, the buffer-relative scroll offset, and a dirty flag that says the
/// visible grid is stale and must be repainted.
pub struct View {
    pub term_size: TermSize,
    pub cursor: Cursor,
    pub buffer: Buffer,
    pub offset: Offset,
    pub needs_redraw: bool,
}

/// Well-formedness of the coordinate state: the viewport has at least one
/// cell, the caret sits inside it, and while the buffer has lines the
/// scroll stays anchored to one of them.
pub open spec fn state_wf(cursor: Cursor, offset: Offset, size: TermSize, len: nat) -> bool {
    &&& size.cols >= 1
    &&& size.rows >= 1
    &&& cursor.x < size.cols
    &&& cursor.y < size.rows
    &&& (len > 0 ==> (offset.y as nat) < len)
}

impl View {
    /// The view's coordinate state is well-formed for its own buffer.
    pub open spec fn wf(self) -> bool {
        state_wf(self.cursor, self.offset, self.term_size, self.buffer.text@.len())
    }

    /// Forget any pending repaint without touching the coordinate state.
    pub open spec fn after_render(self) -> View {
        View { needs_redraw: false, ..self }
    }

    /// What screen row `row` shows once repainted: the slice of the buffer
    /// line under it that the viewport frames, clamped at both ends so an
    /// offset past the line's end never reaches outside it; the `~` filler
    /// stands on rows past the content and on the reserved last row.
    pub open spec fn row_chars(
        text: Seq<Seq<char>>,
        offset: Offset,
        size: TermSize,
        row: int,
    ) -> Seq<char> {
        let li = offset.y + row;
        if row + 1 < size.rows && li < text.len() {
            let line = text[li];
            let from = if offset.x as int <= line.len() as int {
                offset.x as int
            } else {
                line.len() as int
            };
            let to = if offset.x + size.cols <= line.len() as int {
                offset.x + size.cols
            } else {
                line.len() as int
            };
            line.subrange(from, to)
        } else {
            seq!['~']
        }
    }

    /// The whole repainted grid, one entry per screen row.
    pub open spec fn grid_chars(text: Seq<Seq<char>>, offset: Offset, size: TermSize) -> Seq<
        Seq<char>,
    > {
        Seq::new(size.rows as nat, |row: int| View::row_chars(text, offset, size, row))
    }

    /// What one render call hands the terminal: the full grid while the
    /// view is dirty, nothing at all otherwise.
    pub open spec fn render_output(self) -> Option<Seq<Seq<char>>> {
        if self.needs_redraw {
            Option::Some(
                View::grid_chars(self.buffer.text.deep_view(), self.offset, self.term_size),
            )
        } else {
            Option::None
        }
    }

    /// Repaint: while the view is dirty, hand back every screen row's new
    /// content and clear the dirty flag; a clean view gets nothing and no
    /// state change.  The caret and the whole coordinate state are left as
    /// they were.  The caller carries the returned rows to the terminal.
    pub fn render(&mut self) -> (r: Option<Vec<String>>)
        ensures
            *final(self) == old(self).after_render(),
            r.deep_view() == old(self).render_output(),
    {
        if !self.needs_redraw {
            return None;
        }
        self.needs_redraw = false;
        let ghost vsnap = *self;
        let ghost gspec = View::grid_chars(
            self.buffer.text.deep_view(),
            self.offset,
            self.term_size,
        );
        let rows = self.term_size.rows;
        let cols = self.term_size.cols;
        let ox = self.offset.x;
        let oy = self.offset.y;
        let mut grid: Vec<String> = Vec::new();
        proof {
            assert(grid.deep_view() =~= gspec.take(0));
        }
        let mut row: u16 = 0;
        while row < rows
            invariant
                row <= rows,
                *self == vsnap,
                rows == self.term_size.rows,
                cols == self.term_size.cols,
                ox == self.offset.x,
                oy == self.offset.y,
                gspec == View::grid_chars(
                    self.buffer.text.deep_view(),
                    self.offset,
                    self.term_size,
                ),
                grid.deep_view() == gspec.take(row as int),
            decreases rows - row,
        {
            let ghost dv_old = grid.deep_view();
            if row + 1 < rows && (oy as usize + row as usize) < self.buffer.text.len() {
                let li: usize = oy as usize + row as usize;
                let line = self.text_line(li);
                let llen = line.unicode_len();
                let from: usize = if ox as usize <= llen {
                    ox as usize
                } else {
                    llen
                };
                let to: usize = if ox as usize + cols as usize <= llen {
                    ox as usize + cols as usize
                } else {
                    llen
                };
                let piece = line.substring_char(from, to).to_owned();
                grid.push(piece);
            } else {
                let filler = "~";
                proof {
                    reveal_strlit("~");
                    assert(filler@ =~= seq!['~']);
                }
                grid.push(filler.to_owned());
            }
            proof {
                assert(grid.deep_view() =~= dv_old.push(grid.deep_view().last()));
                assert(grid.deep_view() =~= gspec.take(row as int + 1));
            }
            row = row + 1;
        }
        proof {
            assert(gspec.take(rows as int) =~= gspec);
        }
        Some(grid)
    }

    /// Rendering is idempotent: a second render with no state-changing
    /// motion in between finds the view already clean, emits nothing, and
    /// leaves the state exactly where the first call left it.
    pub proof fn lemma_render_idempotent(self)
        ensures
            self.after_render().render_output() is None,
            self.after_render().after_render() == self.after_render(),
    {
    }

    /// Borrow buffer line `i`.
    fn text_line(&self, i: usize) -> (r: &str)
        requires
            i < self.buffer.text@.len(),
        ensures
            r@ == self.buffer.text.deep_view()[i as int],
    {
        self.buffer.text[i].as_str()
    }

    /// Move the caret to the top-left cell of the viewport; the caller owns
    /// the matching terminal escape.
    pub fn zero_cursor(&mut self)
        ensures
            final(self).cursor == (Cursor { x: 0, y: 0 }),
            final(self).term_size == old(self).term_size,
            final(self).buffer == old(self).buffer,
            final(self).offset == old(self).offset,
            final(self).needs_redraw == old(self).needs_redraw,
    {
        self.cursor = Cursor { x: 0, y: 0 };
    }
}

impl Default for Offset {
    /// The top-left corner of the buffer: nothing scrolled away.
    fn default() -> (r: Self)
        ensures
            r.x == 0,
            r.y == 0,
    {
        Offset { x: 0, y: 0 }
    }
}

impl Default for View {
    /// An empty buffer under a zero-size viewport, nothing to repaint.
    fn default() -> (r: Self)
        ensures
            r.term_size == (TermSize { cols: 0, rows: 0 }),
            r.cursor == (Cursor { x: 0, y: 0 }),
            r.offset == (Offset { x: 0, y: 0 }),
            r.buffer.text@.len() == 0,
            r.needs_redraw == false,
    {
        View {
            term_size: TermSize { cols: 0, rows: 0 },
            cursor: Cursor { x: 0, y: 0 },
            buffer: Buffer { text: Vec::new() },
            offset: Offset { x: 0, y: 0 },
            needs_redraw: false,
        }
    }
}

} // verus!

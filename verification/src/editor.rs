use crate::terminal::{Cursor, MoveDirection, TermSize};
use crate::view::{state_wf, Offset, View};
use vstd::prelude::*;
use vstd::view::View as VstdView;

verus! {

/// The motion table, as one step of a pure state machine: from the caret,
/// the scroll offset and the dirty flag — under a viewport of `size` over
/// `len` buffer lines — to their three values after `direction`.
///
/// On an empty buffer every motion is a no-op.  A unit motion at the edge
/// of the viewport scrolls the offset one cell instead and marks the view
/// dirty; Down first advances the caret (bounded to the last row) and
/// scrolls once the caret stands on the last row while unseen lines remain
/// beyond the visible window — the content rows above the reserved last
/// row — so a buffer that fits the window never scrolls.  A motion only
/// ever sets the dirty flag, never clears it: a pending repaint survives.
/// Scrolls that would run past the coordinate type's ceiling are withheld
/// rather than wrapped.
pub open spec fn motion_step(
    cursor: Cursor,
    offset: Offset,
    dirty: bool,
    size: TermSize,
    len: nat,
    direction: MoveDirection,
) -> (Cursor, Offset, bool) {
    if len == 0 {
        (cursor, offset, dirty)
    } else {
        match direction {
            MoveDirection::Left => {
                let scrolled = cursor.x == 0 && offset.x > 0;
                let offset2 = if scrolled {
                    Offset { x: (offset.x - 1) as u16, ..offset }
                } else {
                    offset
                };
                let cursor2 = if cursor.x > 0 {
                    Cursor { x: (cursor.x - 1) as u16, ..cursor }
                } else {
                    cursor
                };
                (cursor2, offset2, if scrolled { true } else { dirty })
            },
            MoveDirection::Right => {
                if cursor.x == size.cols - 1 {
                    if offset.x < u16::MAX {
                        (cursor, Offset { x: (offset.x + 1) as u16, ..offset }, true)
                    } else {
                        (cursor, offset, dirty)
                    }
                } else {
                    (Cursor { x: (cursor.x + 1) as u16, ..cursor }, offset, dirty)
                }
            },
            MoveDirection::Up => {
                let scrolled = cursor.y == 0 && offset.y > 0;
                let offset2 = if scrolled {
                    Offset { y: (offset.y - 1) as u16, ..offset }
                } else {
                    offset
                };
                let cursor2 = if cursor.y > 0 {
                    Cursor { y: (cursor.y - 1) as u16, ..cursor }
                } else {
                    cursor
                };
                (cursor2, offset2, if scrolled { true } else { dirty })
            },
            MoveDirection::Down => {
                let cursor2 = if cursor.y != size.rows - 1 {
                    Cursor { y: (cursor.y + 1) as u16, ..cursor }
                } else {
                    cursor
                };
                if cursor2.y == size.rows - 1 && offset.y + 1 < len && offset.y + size.rows - 1
                    < len && offset.y < u16::MAX {
                    (cursor2, Offset { y: (offset.y + 1) as u16, ..offset }, true)
                } else {
                    (cursor2, offset, dirty)
                }
            },
            MoveDirection::LineEnd => (
                Cursor { x: (size.cols - 1) as u16, ..cursor },
                offset,
                dirty,
            ),
            MoveDirection::LineStart => (Cursor { x: 0, ..cursor }, offset, dirty),
            MoveDirection::FileStart => (Cursor { y: 0, ..cursor }, offset, dirty),
            MoveDirection::FileEnd => (
                Cursor { y: (size.rows - 1) as u16, ..cursor },
                offset,
                dirty,
            ),
        }
    }
}

/// One terminal input, reduced to the plain values the state machine
/// reads: a typed character with its control-modifier flag, or the new
/// viewport dimensions after the window changed.
#[derive(Clone, Copy, Debug, PartialEq, Eq, Structural)]
pub enum InputEvent {
    Key { ch: char, ctrl: bool },
    Resize { cols: u16, rows: u16 },
}

/// The motion a typed character asks for, if any.
pub open spec fn motion_of(ch: char) -> Option<MoveDirection> {
    if ch == 'h' {
        Option::Some(MoveDirection::Left)
    } else if ch == 'l' {
        Option::Some(MoveDirection::Right)
    } else if ch == 'k' {
        Option::Some(MoveDirection::Up)
    } else if ch == 'j' {
        Option::Some(MoveDirection::Down)
    } else if ch == '$' {
        Option::Some(MoveDirection::LineEnd)
    } else if ch == '0' {
        Option::Some(MoveDirection::LineStart)
    } else if ch == 'G' {
        Option::Some(MoveDirection::FileEnd)
    } else if ch == 'K' {
        Option::Some(MoveDirection::FileStart)
    } else {
        Option::None
    }
}

/// The coordinate state after a whole sequence of motions, run in order.
pub open spec fn apply_motions(
    cursor: Cursor,
    offset: Offset,
    dirty: bool,
    size: TermSize,
    len: nat,
    motions: Seq<MoveDirection>,
) -> (Cursor, Offset, bool)
    decreases motions.len(),
{
    if motions.len() == 0 {
        (cursor, offset, dirty)
    } else {
        let stepped = motion_step(cursor, offset, dirty, size, len, motions[0]);
        apply_motions(stepped.0, stepped.1, stepped.2, size, len, motions.skip(1))
    }
}

/// One motion from a well-formed coordinate state leaves a well-formed
/// one: the caret stays inside the viewport and the scroll anchored to a
/// buffer line.
pub proof fn lemma_motion_step_preserves_wf(
    cursor: Cursor,
    offset: Offset,
    dirty: bool,
    size: TermSize,
    len: nat,
    direction: MoveDirection,
)
    requires
        state_wf(cursor, offset, size, len),
    ensures
        ({
            let stepped = motion_step(cursor, offset, dirty, size, len, direction);
            state_wf(stepped.0, stepped.1, size, len)
        }),
{
}

/// However many motions run, a caret that started inside the viewport is
/// inside it after every one of them: `cursor.x` stays under `cols`,
/// `cursor.y` under `rows`, and the scroll anchored to the buffer.
pub proof fn lemma_motions_preserve_wf(
    cursor: Cursor,
    offset: Offset,
    dirty: bool,
    size: TermSize,
    len: nat,
    motions: Seq<MoveDirection>,
)
    requires
        state_wf(cursor, offset, size, len),
    ensures
        ({
            let run = apply_motions(cursor, offset, dirty, size, len, motions);
            state_wf(run.0, run.1, size, len)
        }),
    decreases motions.len(),
{
    if motions.len() > 0 {
        lemma_motion_step_preserves_wf(cursor, offset, dirty, size, len, motions[0]);
        let stepped = motion_step(cursor, offset, dirty, size, len, motions[0]);
        lemma_motions_preserve_wf(stepped.0, stepped.1, stepped.2, size, len, motions.skip(1));
    }
}

/// A motion never tears the scroll: each offset coordinate — unsigned, so
/// never below zero — moves by at most one cell, never both in one step,
/// and any step that moves the offset marks the view dirty.
pub proof fn lemma_scroll_unit_step(
    cursor: Cursor,
    offset: Offset,
    dirty: bool,
    size: TermSize,
    len: nat,
    direction: MoveDirection,
)
    requires
        state_wf(cursor, offset, size, len),
    ensures
        ({
            let stepped = motion_step(cursor, offset, dirty, size, len, direction);
            &&& stepped.1.x <= offset.x + 1
            &&& offset.x <= stepped.1.x + 1
            &&& stepped.1.y <= offset.y + 1
            &&& offset.y <= stepped.1.y + 1
            &&& (stepped.1.x != offset.x ==> stepped.1.y == offset.y)
            &&& stepped.2 == (dirty || stepped.1 != offset)
        }),
{
}

/// One Down over a buffer that fits within the visible window — at most
/// as many lines as the content rows above the reserved last row — never
/// scrolls, wherever the caret and the scroll stand.
pub proof fn lemma_down_fit_no_scroll(
    cursor: Cursor,
    offset: Offset,
    dirty: bool,
    size: TermSize,
    len: nat,
)
    requires
        state_wf(cursor, offset, size, len),
        len <= size.rows - 1,
    ensures
        motion_step(cursor, offset, dirty, size, len, MoveDirection::Down).1 == offset,
{
}

/// Nor does any number of them: moving Down repeatedly over a buffer that
/// fits within the window leaves the scroll offset exactly where it was —
/// from the top of the file, `offset.y` stays zero.
pub proof fn lemma_downs_fit_keep_top(
    cursor: Cursor,
    offset: Offset,
    dirty: bool,
    size: TermSize,
    len: nat,
    motions: Seq<MoveDirection>,
)
    requires
        state_wf(cursor, offset, size, len),
        len <= size.rows - 1,
        forall|i: int| 0 <= i < motions.len() ==> motions[i] == MoveDirection::Down,
    ensures
        apply_motions(cursor, offset, dirty, size, len, motions).1 == offset,
    decreases motions.len(),
{
    if motions.len() > 0 {
        lemma_motion_step_preserves_wf(cursor, offset, dirty, size, len, motions[0]);
        lemma_down_fit_no_scroll(cursor, offset, dirty, size, len);
        let stepped = motion_step(cursor, offset, dirty, size, len, motions[0]);
        lemma_downs_fit_keep_top(stepped.0, stepped.1, stepped.2, size, len, motions.skip(1));
    }
}

/// Over any buffer, Down scrolls only once the caret stands on the last
/// row while unseen lines remain beyond the visible window, and then by
/// one line exactly, marking the view dirty.
pub proof fn lemma_down_scroll_needs_last_row(
    cursor: Cursor,
    offset: Offset,
    dirty: bool,
    size: TermSize,
    len: nat,
)
    requires
        state_wf(cursor, offset, size, len),
    ensures
        ({
            let stepped = motion_step(cursor, offset, dirty, size, len, MoveDirection::Down);
            stepped.1 != offset ==> {
                &&& stepped.0.y == size.rows - 1
                &&& offset.y + size.rows - 1 < len
                &&& stepped.1.y == offset.y + 1
                &&& stepped.1.x == offset.x
                &&& stepped.2 == true
            }
        }),
{
}

/// Owns the view and the quit flag; its methods are the motion state
/// machine that the input loop drives, one event at a time.
pub struct Editor {
    pub should_quit: bool,
    pub view: View,
}

impl Editor {
    /// Apply one motion to the view: the caret, the scroll offset and the
    /// dirty flag move exactly as `motion_step` says; the buffer, the
    /// terminal size and the quit flag stay put.
    pub fn move_direction(&mut self, direction: MoveDirection)
        requires
            old(self).view.wf(),
        ensures
            final(self).view.wf(),
            final(self).should_quit == old(self).should_quit,
            final(self).view.buffer == old(self).view.buffer,
            final(self).view.term_size == old(self).view.term_size,
            (final(self).view.cursor, final(self).view.offset, final(self).view.needs_redraw)
                == motion_step(
                old(self).view.cursor,
                old(self).view.offset,
                old(self).view.needs_redraw,
                old(self).view.term_size,
                old(self).view.buffer.text@.len(),
                direction,
            ),
    {
        if self.view.buffer.text.len() == 0 {
            return ;
        }
        let cols = self.view.term_size.cols;
        let rows = self.view.term_size.rows;
        match direction {
            MoveDirection::Left => {
                if self.view.cursor.x == 0 && self.view.offset.x > 0 {
                    self.view.offset.x = self.view.offset.x - 1;
                    self.view.needs_redraw = true;
                }
                if self.view.cursor.x > 0 {
                    self.view.cursor.x = self.view.cursor.x - 1;
                }
            },
            MoveDirection::Right => {
                if self.view.cursor.x == cols - 1 {
                    if self.view.offset.x < u16::MAX {
                        self.view.offset.x = self.view.offset.x + 1;
                        self.view.needs_redraw = true;
                    }
                } else {
                    self.view.cursor.x = self.view.cursor.x + 1;
                }
            },
            MoveDirection::Up => {
                if self.view.cursor.y == 0 && self.view.offset.y > 0 {
                    self.view.offset.y = self.view.offset.y - 1;
                    self.view.needs_redraw = true;
                }
                if self.view.cursor.y > 0 {
                    self.view.cursor.y = self.view.cursor.y - 1;
                }
            },
            MoveDirection::Down => {
                let len = self.view.buffer.text.len();
                let next: usize = self.view.offset.y as usize + 1;
                // the window shows the content rows above the reserved last row
                let window: usize = (rows - 1) as usize;
                if self.view.cursor.y != rows - 1 {
                    self.view.cursor.y = self.view.cursor.y + 1;
                }
                if self.view.cursor.y == rows - 1 && next < len && (self.view.offset.y as usize
                    + window) < len && self.view.offset.y < u16::MAX {
                    self.view.offset.y = self.view.offset.y + 1;
                    self.view.needs_redraw = true;
                }
            },
            MoveDirection::LineEnd => {
                self.view.cursor.x = cols - 1;
            },
            MoveDirection::LineStart => {
                self.view.cursor.x = 0;
            },
            MoveDirection::FileStart => {
                self.view.cursor.y = 0;
            },
            MoveDirection::FileEnd => {
                self.view.cursor.y = rows - 1;
            },
        }
    }

    /// Dispatch one input event.  A control-q sets the quit flag; another
    /// character runs the motion it names, if any, through
    /// `move_direction`; a resize stores the new dimensions as they come,
    /// marks the view dirty since the old grid is stale, and draws the
    /// caret back inside the viewport when the window shrank past it, so
    /// the caret invariant holds at all times.
    pub fn evaluate_event(&mut self, event: InputEvent)
        requires
            match event {
                // a resize stands on its own: it overwrites the old size
                // whatever that was, so only the scroll anchor must hold
                InputEvent::Resize { cols, rows } => cols >= 1 && rows >= 1 && (old(
                    self,
                ).view.buffer.text@.len() > 0 ==> (old(self).view.offset.y as nat) < old(
                    self,
                ).view.buffer.text@.len()),
                InputEvent::Key { .. } => old(self).view.wf(),
            },
        ensures
            final(self).view.wf(),
            final(self).view.buffer == old(self).view.buffer,
            match event {
                InputEvent::Resize { cols, rows } => {
                    &&& final(self).should_quit == old(self).should_quit
                    &&& final(self).view.term_size == (TermSize { cols, rows })
                    &&& final(self).view.needs_redraw == true
                    &&& final(self).view.offset == old(self).view.offset
                    &&& final(self).view.cursor.x == if old(self).view.cursor.x < cols {
                        old(self).view.cursor.x
                    } else {
                        (cols - 1) as u16
                    }
                    &&& final(self).view.cursor.y == if old(self).view.cursor.y < rows {
                        old(self).view.cursor.y
                    } else {
                        (rows - 1) as u16
                    }
                },
                InputEvent::Key { ch, ctrl } => {
                    if ch == 'q' && ctrl {
                        &&& final(self).should_quit == true
                        &&& final(self).view == old(self).view
                    } else {
                        match motion_of(ch) {
                            Option::Some(direction) => {
                                &&& final(self).should_quit == old(self).should_quit
                                &&& final(self).view.term_size == old(self).view.term_size
                                &&& (
                                final(self).view.cursor,
                                final(self).view.offset,
                                final(self).view.needs_redraw,
                                ) == motion_step(
                                    old(self).view.cursor,
                                    old(self).view.offset,
                                    old(self).view.needs_redraw,
                                    old(self).view.term_size,
                                    old(self).view.buffer.text@.len(),
                                    direction,
                                )
                            },
                            Option::None => *final(self) == *old(self),
                        }
                    }
                },
            },
    {
        match event {
            InputEvent::Resize { cols, rows } => {
                self.view.term_size.cols = cols;
                self.view.term_size.rows = rows;
                if !(self.view.cursor.x < cols) {
                    self.view.cursor.x = cols - 1;
                }
                if !(self.view.cursor.y < rows) {
                    self.view.cursor.y = rows - 1;
                }
                self.view.needs_redraw = true;
            },
            InputEvent::Key { ch, ctrl } => {
                if ch == 'q' && ctrl {
                    self.should_quit = true;
                } else if ch == 'h' {
                    self.move_direction(MoveDirection::Left);
                } else if ch == 'l' {
                    self.move_direction(MoveDirection::Right);
                } else if ch == 'k' {
                    self.move_direction(MoveDirection::Up);
                } else if ch == 'j' {
                    self.move_direction(MoveDirection::Down);
                } else if ch == '$' {
                    self.move_direction(MoveDirection::LineEnd);
                } else if ch == '0' {
                    self.move_direction(MoveDirection::LineStart);
                } else if ch == 'G' {
                    self.move_direction(MoveDirection::FileEnd);
                } else if ch == 'K' {
                    self.move_direction(MoveDirection::FileStart);
                }
            },
        }
    }
}

impl Default for Editor {
    /// Not yet quitting, over a default view.
    fn default() -> (r: Self)
        ensures
            r.should_quit == false,
            r.view.buffer.text@.len() == 0,
            r.view.needs_redraw == false,
    {
        Editor { should_quit: false, view: View::default() }
    }
}

} // verus!

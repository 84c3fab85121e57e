//! The part of an input line that fits on the screen.

use crate::text_input::{input_text, line_value};
use vstd::prelude::*;
use vstd::string::*;

verus! {

/// A window of `length` characters that starts at character `start` of an
/// input line.
#[derive(Debug, PartialEq, Eq, Clone, Copy, Structural)]
pub struct InputWindow {
    pub start: usize,
    pub length: usize,
}

/// The smaller of two numbers.
pub open spec fn least(a: int, b: int) -> int {
    if a <= b {
        a
    } else {
        b
    }
}

impl InputWindow {
    /// The window of no width at the start of the line.
    #[inline]
    pub fn empty() -> (window: Self)
        ensures
            window == (InputWindow { start: 0, length: 0 }),
    {
        InputWindow { start: 0, length: 0 }
    }

    /// The characters of `text` that lie in the window.
    pub open spec fn visible(self, text: Seq<char>) -> Seq<char> {
        text.subrange(
            least(self.start as int, text.len() as int),
            least(self.start + self.length, text.len() as int),
        )
    }

    /// Where the window starts after the cursor went to `cursor`: it moves
    /// left to a cursor before it, right to a cursor beyond its end, and
    /// stays where the cursor is inside it.
    pub open spec fn start_after(self, cursor: int) -> int {
        if cursor < self.start {
            cursor
        } else if cursor - self.start > self.length {
            cursor - self.length
        } else {
            self.start as int
        }
    }

    /// The window after the cursor went to `cursor`: as wide as before, and
    /// moved as `start_after` says.
    pub open spec fn followed(self, cursor: int) -> InputWindow {
        InputWindow { start: self.start_after(cursor) as usize, length: self.length }
    }

    /// Whether the window shows the position `cursor`.
    pub open spec fn shows(self, cursor: int) -> bool {
        self.start <= cursor <= self.start + self.length
    }

    /// The screen cell of the cursor when the window is drawn from the cell
    /// `(x, y)` on, `width` cells to a row: the cursor's distance from the
    /// start of the window, wrapped at the row's end. There is none for a
    /// cursor before the window, for rows of no width, and where the cell
    /// lies beyond what a screen position can name.
    pub open spec fn cell_of(self, cursor: int, x: int, y: int, width: int) -> Option<(int, int)> {
        let offset = cursor - self.start;
        if width <= 0 || offset < 0 {
            None
        } else if x + offset % width > u16::MAX || y + offset / width > u16::MAX {
            None
        } else {
            Some((x + offset % width, y + offset / width))
        }
    }

    /// Where on the screen the cursor is drawn.
    pub fn cursor_cell(&self, cursor: usize, x: u16, y: u16, width: u16) -> (cell: Option<
        (u16, u16),
    >)
        ensures
            cell is Some <==> self.cell_of(cursor as int, x as int, y as int, width as int) is Some,
            cell is Some ==> self.cell_of(cursor as int, x as int, y as int, width as int) == Some(
                (cell.unwrap().0 as int, cell.unwrap().1 as int),
            ),
    {
        if width == 0 || cursor < self.start {
            return None;
        }
        let offset: usize = cursor - self.start;
        let wide: usize = width as usize;
        let across: usize = offset % wide;
        let down: usize = offset / wide;
        if across > (u16::MAX - x) as usize || down > (u16::MAX - y) as usize {
            return None;
        }
        Some((x + across as u16, y + down as u16))
    }

    /// The part of the line's text that lies in the window, counted in
    /// characters. A window that reaches beyond the end of the text shows
    /// what there is.
    #[inline]
    pub fn pruned_input<'a>(&self, source: &'a tui_input::Input) -> (shown: &'a str)
        ensures
            shown@ == self.visible(input_text(*source)),
    {
        self.pruned_text(line_value(source))
    }

    /// The part of `source` that lies in the window, counted in characters.
    pub fn pruned_text<'a>(&self, source: &'a str) -> (shown: &'a str)
        ensures
            shown@ == self.visible(source@),
    {
        let len = source.unicode_len();
        let from = if self.start < len {
            self.start
        } else {
            len
        };
        let to = if self.length < len - from {
            from + self.length
        } else {
            len
        };
        source.substring_char(from, to)
    }

    /// Moves the window so that it shows the cursor.
    #[inline]
    pub fn cursor_changed(&mut self, new_cursor: usize)
        ensures
            *final(self) == old(self).followed(new_cursor as int),
            final(self).shows(new_cursor as int),
    {
        if new_cursor < self.start {
            self.start = new_cursor;
        }
        if new_cursor - self.start > self.length {
            self.start = new_cursor - self.length;
        }
    }
}

/// A window that shows the cursor already stays where it is.
pub proof fn law_window_stays(window: InputWindow, cursor: usize)
    requires
        window.shows(cursor as int),
    ensures
        window.followed(cursor as int) == window,
{
}

/// Wherever the cursor goes, the window that followed it shows it.
pub proof fn law_window_shows_cursor(window: InputWindow, cursor: usize)
    ensures
        window.followed(cursor as int).shows(cursor as int),
{
}

} // verus!

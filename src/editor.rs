use vstd::prelude::*;

use crate::buffer::TextBuffer;
use crate::command::{action_of, first_word, parse_command};
use crate::text::{join_lines, splice, split_lines};
use crate::marker::Marker;
use crate::mode::{Action, Key, Mode};

verus! {

/// Width of the line-number column left of the text.
pub const NUMBERS_PADDING: usize = 4;

/// Screen columns left of the text: the line numbers and one blank.
pub const GUTTER_WIDTH: usize = NUMBERS_PADDING + 1;

/// Screen rows below the text: the status bar and the command line.
pub const STATUS_ROWS: usize = 2;

/// Lines shown above the target of a jump.
pub const JUMP_CONTEXT: usize = 9;

/// The last column the cursor may reach on a line of `len` characters:
/// the append position in Insert mode, the last character otherwise.
pub open spec fn max_col(len: nat, insert: bool) -> nat {
    if insert {
        len
    } else if len == 0 {
        0
    } else {
        (len - 1) as nat
    }
}

/// `v` brought into `[0, hi]`.
pub open spec fn clamp(v: int, hi: int) -> int {
    if v < 0 {
        0
    } else if v > hi {
        hi
    } else {
        v
    }
}

/// `a - b`, or zero where `b` exceeds `a`.
pub open spec fn sat_sub(a: int, b: int) -> int {
    if a >= b {
        a - b
    } else {
        0
    }
}

/// The scroll offset along one axis after the view, `extent` wide and
/// starting at `offset`, follows position `pos`: it moves by just enough to
/// show `pos`.
pub open spec fn scroll_axis(offset: int, pos: int, extent: int) -> int {
    if pos < offset {
        pos
    } else if pos >= offset + extent {
        pos - extent + 1
    } else {
        offset
    }
}

/// The part of `line` seen through a window starting at column `from` and
/// `width` columns wide.
pub open spec fn window(line: Seq<char>, from: int, width: int) -> Seq<char> {
    if from >= line.len() {
        Seq::empty()
    } else if from + width < line.len() {
        line.subrange(from, from + width)
    } else {
        line.subrange(from, line.len() as int)
    }
}

/// The editor state: the document, the scroll offset and the cursor
/// relative to it, the mode, the command line being typed, and the size of
/// the text area of the viewport as (width, height).
pub struct Editor {
    pub buffer: TextBuffer,
    pub mode: Mode,
    pub command: Vec<char>,
    pub size: (usize, usize),
    pub offset: Marker,
    pub cursor: Marker,
}

impl Editor {
    pub open spec fn lines(self) -> Seq<Seq<char>> {
        self.buffer@
    }

    /// The document line of the cursor.
    pub open spec fn row(self) -> int {
        self.offset.1 + self.cursor.1
    }

    /// The document column of the cursor.
    pub open spec fn col(self) -> int {
        self.offset.0 + self.cursor.0
    }

    pub open spec fn inserting(self) -> bool {
        self.mode == Mode::Insert
    }

    /// The last column the cursor may reach on line `y`.
    pub open spec fn col_limit(self, y: int) -> int {
        max_col(self.lines()[y].len(), self.inserting()) as int
    }

    /// The document is not empty and the viewport has a size that fits the
    /// terminal's coordinates.
    pub open spec fn frame_ok(self) -> bool {
        &&& self.lines().len() >= 1
        &&& 1 <= self.size.0
        &&& self.size.0 + GUTTER_WIDTH <= u16::MAX
        &&& 1 <= self.size.1
        &&& self.size.1 + STATUS_ROWS <= u16::MAX
    }

    /// The cursor lies inside the viewport and addresses a line of the
    /// document and a column that the mode allows on it.
    pub open spec fn well_formed(self) -> bool {
        &&& self.frame_ok()
        &&& self.cursor.0 < self.size.0
        &&& self.cursor.1 < self.size.1
        &&& self.row() < self.lines().len()
        &&& self.col() <= self.col_limit(self.row())
    }

    /// The cursor stands at (`x`, `y`) brought into the document, and the
    /// viewport has followed it from the offset (`from_x`, `from_y`).
    pub open spec fn lands(self, from_x: int, from_y: int, x: int, y: int) -> bool {
        let ty = clamp(y, self.lines().len() - 1);
        let tx = clamp(x, self.col_limit(ty));
        &&& self.row() == ty
        &&& self.col() == tx
        &&& self.offset.1 == scroll_axis(from_y, ty, self.size.1 as int)
        &&& self.offset.0 == scroll_axis(from_x, tx, self.size.0 as int)
    }

    /// `next` has the same document, mode, command line, viewport, offset
    /// and cursor as this state.
    pub open spec fn unchanged(self, next: Self) -> bool {
        &&& next.lines() == self.lines()
        &&& next.mode == self.mode
        &&& next.command@ == self.command@
        &&& next.size == self.size
        &&& next.offset == self.offset
        &&& next.cursor == self.cursor
    }

    /// `next` holds `lines` in mode `mode`, with the cursor aimed at (`x`,
    /// `y`) and the view following it from this state's offset.
    pub open spec fn goes(self, next: Self, lines: Seq<Seq<char>>, mode: Mode, x: int, y: int) -> bool {
        &&& next.lines() == lines
        &&& next.mode == mode
        &&& next.command@ == self.command@
        &&& next.size == self.size
        &&& next.lands(self.offset.0 as int, self.offset.1 as int, x, y)
    }

    /// What a key does in Normal mode.
    pub open spec fn normal_step(self, key: Key, next: Self) -> bool {
        let x = self.col();
        let y = self.row();
        let lines = self.lines();
        let line = lines[y];
        let half = (self.size.1 / 2) as int;
        match key {
            Key::Left => self.goes(next, lines, Mode::Normal, x - 1, y),
            Key::Right => self.goes(next, lines, Mode::Normal, x + 1, y),
            Key::Up => self.goes(next, lines, Mode::Normal, x, y - 1),
            Key::Down => self.goes(next, lines, Mode::Normal, x, y + 1),
            Key::Char(c) => if c == 'h' {
                self.goes(next, lines, Mode::Normal, x - 1, y)
            } else if c == 'l' {
                self.goes(next, lines, Mode::Normal, x + 1, y)
            } else if c == 'k' {
                self.goes(next, lines, Mode::Normal, x, y - 1)
            } else if c == 'j' {
                self.goes(next, lines, Mode::Normal, x, y + 1)
            } else if c == 'i' {
                self.goes(next, lines, Mode::Insert, x, y)
            } else if c == 'a' {
                self.goes(next, lines, Mode::Insert, x + 1, y)
            } else if c == 'A' {
                self.goes(next, lines, Mode::Insert, line.len() as int, y)
            } else if c == 'I' {
                self.goes(next, lines, Mode::Insert, 0, y)
            } else if c == '0' {
                self.goes(next, lines, Mode::Normal, 0, y)
            } else if c == '$' {
                self.goes(next, lines, Mode::Normal, line.len() - 1, y)
            } else if c == 'G' {
                &&& next.lines() == lines
                &&& next.mode == Mode::Normal
                &&& next.command@ == self.command@
                &&& next.size == self.size
                &&& next.lands(self.offset.0 as int, sat_sub(lines.len() - 1, JUMP_CONTEXT as int), 0, lines.len() - 1)
            } else if c == 'x' {
                self.goes(
                    next,
                    if line.len() > 0 { lines.update(y, line.remove(x)) } else { lines },
                    Mode::Normal,
                    x,
                    y,
                )
            } else if c == 'o' {
                self.goes(next, lines.insert(y + 1, Seq::empty()), Mode::Insert, 0, y + 1)
            } else if c == 'O' {
                self.goes(next, lines.insert(y, Seq::empty()), Mode::Insert, 0, y)
            } else if c == 'S' {
                self.goes(next, lines.update(y, Seq::empty()), Mode::Insert, 0, y)
            } else if c == 'C' {
                self.goes(next, lines.update(y, line.subrange(0, x)), Mode::Insert, x, y)
            } else if c == 'D' {
                self.goes(next, lines.update(y, line.subrange(0, x)), Mode::Normal, x, y)
            } else if c == 'd' {
                &&& next.lines() == lines
                &&& next.mode == Mode::Spatial('d')
                &&& next.command@ == self.command@
                &&& next.size == self.size
                &&& next.offset == self.offset
                &&& next.cursor == self.cursor
            } else if c == ':' {
                &&& next.lines() == lines
                &&& next.mode == Mode::Command
                &&& next.command@ == Seq::<char>::empty()
                &&& next.size == self.size
                &&& next.offset == self.offset
                &&& next.cursor == self.cursor
            } else {
                self.unchanged(next)
            },
            Key::Ctrl(c) => if c == 'u' {
                &&& next.lines() == lines
                &&& next.mode == Mode::Normal
                &&& next.command@ == self.command@
                &&& next.size == self.size
                &&& next.lands(self.offset.0 as int, sat_sub(self.offset.1 as int, half), x, y - half)
            } else if c == 'd' {
                &&& next.lines() == lines
                &&& next.mode == Mode::Normal
                &&& next.command@ == self.command@
                &&& next.size == self.size
                &&& next.lands(self.offset.0 as int, self.offset.1 + half, x, y + half)
            } else {
                self.unchanged(next)
            },
            _ => self.unchanged(next),
        }
    }

    /// What a key does in Insert mode.
    pub open spec fn insert_step(self, key: Key, next: Self) -> bool {
        let x = self.col();
        let y = self.row();
        let lines = self.lines();
        let line = lines[y];
        match key {
            Key::Left => self.goes(next, lines, Mode::Insert, x - 1, y),
            Key::Right => self.goes(next, lines, Mode::Insert, x + 1, y),
            Key::Up => self.goes(next, lines, Mode::Insert, x, y - 1),
            Key::Down => self.goes(next, lines, Mode::Insert, x, y + 1),
            Key::Esc => self.goes(next, lines, Mode::Normal, x - 1, y),
            Key::Backspace => if x == 0 && y > 0 {
                self.goes(
                    next,
                    lines.update(y - 1, lines[y - 1] + line).remove(y),
                    Mode::Insert,
                    lines[y - 1].len() as int,
                    y - 1,
                )
            } else if x > 0 {
                self.goes(next, lines.update(y, line.remove(x - 1)), Mode::Insert, x - 1, y)
            } else {
                self.unchanged(next)
            },
            Key::Char(c) => if c == '\t' {
                self.goes(next, lines.update(y, splice(line, x, seq![' ', ' ', ' ', ' '])), Mode::Insert, x + 4, y)
            } else if c == '\n' {
                self.goes(
                    next,
                    lines.update(y, line.subrange(0, x)).insert(y + 1, line.subrange(x, line.len() as int)),
                    Mode::Insert,
                    0,
                    y + 1,
                )
            } else {
                self.goes(next, lines.update(y, line.insert(x, c)), Mode::Insert, x + 1, y)
            },
            _ => self.unchanged(next),
        }
    }

    /// What the second key of a two-key operator does: `d` after `d`
    /// deletes the cursor's line; anything else cancels the operator.
    pub open spec fn pending_step(self, op: char, key: Key, next: Self) -> bool {
        if op == 'd' && key == Key::Char('d') {
            self.goes(
                next,
                if self.lines().len() == 1 { seq![Seq::<char>::empty()] } else { self.lines().remove(self.row()) },
                Mode::Normal,
                self.col(),
                self.row(),
            )
        } else {
            &&& next.lines() == self.lines()
            &&& next.mode == Mode::Normal
            &&& next.command@ == self.command@
            &&& next.size == self.size
            &&& next.offset == self.offset
            &&& next.cursor == self.cursor
        }
    }

    /// What a key does in Command mode, and the action it asks for.
    pub open spec fn command_step(self, key: Key, next: Self, action: Action) -> bool {
        let cmd = self.command@;
        &&& next.lines() == self.lines()
        &&& next.size == self.size
        &&& next.offset == self.offset
        &&& next.cursor == self.cursor
        &&& match key {
            Key::Esc => next.mode == Mode::Normal && next.command@ == Seq::<char>::empty() && action == Action::Nothing,
            Key::Backspace => next.mode == Mode::Command && action == Action::Nothing
                && next.command@ == (if cmd.len() > 0 { cmd.drop_last() } else { cmd }),
            Key::Char(c) => if c == '\n' {
                next.mode == Mode::Normal && next.command@ == Seq::<char>::empty()
                    && action == action_of(first_word(cmd))
            } else {
                next.mode == Mode::Command && next.command@ == cmd.push(c) && action == Action::Nothing
            },
            _ => next.mode == Mode::Command && next.command@ == cmd && action == Action::Nothing,
        }
    }

    /// An editor on one empty line, in Normal mode, with a one-cell viewport
    /// until the first resize.
    pub fn new() -> (r: Editor)
        ensures
            r.well_formed(),
            r.lines() == seq![Seq::<char>::empty()],
            r.mode == Mode::Normal,
            r.command@ == Seq::<char>::empty(),
            r.size == (1usize, 1usize),
            r.offset == Marker(0, 0),
            r.cursor == Marker(0, 0),
    {
        Editor {
            buffer: TextBuffer::new(),
            mode: Mode::Normal,
            command: Vec::new(),
            size: (1, 1),
            offset: Marker(0, 0),
            cursor: Marker(0, 0),
        }
    }

    /// Replaces the document by the lines of `text` and puts the cursor
    /// and the view at its start, in Normal mode.
    pub fn load_text(&mut self, text: &Vec<char>)
        requires
            old(self).frame_ok(),
        ensures
            final(self).well_formed(),
            final(self).lines() == split_lines(text@),
            final(self).mode == Mode::Normal,
            final(self).command@ == Seq::<char>::empty(),
            final(self).size == old(self).size,
            final(self).offset == Marker(0, 0),
            final(self).cursor == Marker(0, 0),
    {
        self.buffer = TextBuffer::from_text(text);
        proof { crate::text::lemma_split_lines(text@); }
        self.mode = Mode::Normal;
        self.command = Vec::new();
        self.offset = Marker(0, 0);
        self.cursor = Marker(0, 0);
    }

    /// The text to write out for the document: each line followed by one
    /// newline.
    pub fn save_text(&self) -> (r: Vec<char>)
        ensures
            r@ == join_lines(self.lines()),
    {
        self.buffer.to_text()
    }

    /// The document line of the cursor.
    pub fn current_line(&self) -> (r: usize)
        requires
            self.well_formed(),
        ensures
            r == self.row(),
    {
        proof { self.buffer.lemma_sizes(); }
        self.offset.1 + self.cursor.1
    }

    /// The document column of the cursor.
    pub fn current_column(&self) -> (r: usize)
        requires
            self.well_formed(),
        ensures
            r == self.col(),
    {
        proof { self.buffer.lemma_sizes(); }
        self.offset.0 + self.cursor.0
    }

    /// The length of the cursor's line.
    pub fn get_line_len(&self) -> (r: usize)
        requires
            self.well_formed(),
        ensures
            r == self.lines()[self.row()].len(),
    {
        self.buffer.line_length(self.current_line())
    }

    /// Scrolls the viewport by just enough to show a cursor that lies below
    /// or right of it, and brings the cursor back inside.
    pub fn align_scroll(&mut self)
        requires
            old(self).frame_ok(),
            old(self).row() <= usize::MAX,
            old(self).col() <= usize::MAX,
        ensures
            final(self).row() == old(self).row(),
            final(self).col() == old(self).col(),
            final(self).offset.1 == scroll_axis(old(self).offset.1 as int, old(self).row(), old(self).size.1 as int),
            final(self).offset.0 == scroll_axis(old(self).offset.0 as int, old(self).col(), old(self).size.0 as int),
            final(self).cursor.0 < final(self).size.0,
            final(self).cursor.1 < final(self).size.1,
            final(self).buffer == old(self).buffer,
            final(self).mode == old(self).mode,
            final(self).command == old(self).command,
            final(self).size == old(self).size,
    {
        // vertically
        let bottom = self.size.1 - 1;
        if self.cursor.1 > bottom {
            let delta = self.cursor.1 - bottom;
            self.offset.increase_y(delta);
            self.cursor.decrease_y(delta);
        }
        // horizontally
        let right = self.size.0 - 1;
        if self.cursor.0 > right {
            let delta = self.cursor.0 - right;
            self.offset.increase_x(delta);
            self.cursor.decrease_x(delta);
        }
    }

    /// Moves the cursor to document position (`x`, `y`) brought into the
    /// document, scrolling the viewport by just enough to show it.
    pub fn place(&mut self, x: usize, y: usize)
        requires
            old(self).frame_ok(),
        ensures
            final(self).well_formed(),
            final(self).lands(old(self).offset.0 as int, old(self).offset.1 as int, x as int, y as int),
            final(self).buffer == old(self).buffer,
            final(self).mode == old(self).mode,
            final(self).command == old(self).command,
            final(self).size == old(self).size,
    {
        self.move_to(x, y);
        self.align_bounds();
        self.align_scroll();
    }

    /// Moves the cursor and the view to the first column.
    pub fn reset_x(&mut self)
        requires
            old(self).well_formed(),
        ensures
            final(self).well_formed(),
            final(self).lands(old(self).offset.0 as int, old(self).offset.1 as int, 0, old(self).row()),
            final(self).offset.1 == old(self).offset.1,
            final(self).cursor.1 == old(self).cursor.1,
            final(self).buffer == old(self).buffer,
            final(self).mode == old(self).mode,
            final(self).command == old(self).command,
            final(self).size == old(self).size,
    {
        self.offset.0 = 0;
        self.cursor.0 = 0;
    }

    /// Jumps to document line `line` (the last line where it lies past the
    /// end), column zero, showing up to `JUMP_CONTEXT` lines above it.
    pub fn scroll_to(&mut self, line: usize)
        requires
            old(self).frame_ok(),
        ensures
            final(self).well_formed(),
            final(self).lands(old(self).offset.0 as int, sat_sub(line as int, JUMP_CONTEXT as int), 0, line as int),
            final(self).buffer == old(self).buffer,
            final(self).mode == old(self).mode,
            final(self).command == old(self).command,
            final(self).size == old(self).size,
    {
        self.offset.1 = line.saturating_sub(JUMP_CONTEXT);
        self.place(0, line);
    }

    /// Takes the terminal's size in columns and rows: the text area is what
    /// the line numbers, the status bar and the command line leave, at least
    /// one cell. The cursor keeps its document position; the viewport
    /// follows it.
    pub fn resize(&mut self, columns: u16, rows: u16)
        requires
            old(self).well_formed(),
        ensures
            final(self).well_formed(),
            final(self).size.0 == (if columns as int > GUTTER_WIDTH { columns - GUTTER_WIDTH } else { 1 }),
            final(self).size.1 == (if rows as int > STATUS_ROWS { rows - STATUS_ROWS } else { 1 }),
            final(self).lands(old(self).offset.0 as int, old(self).offset.1 as int, old(self).col(), old(self).row()),
            final(self).buffer == old(self).buffer,
            final(self).mode == old(self).mode,
            final(self).command == old(self).command,
    {
        proof { self.buffer.lemma_sizes(); }
        let columns = columns as usize;
        let rows = rows as usize;
        let width = if columns > GUTTER_WIDTH { columns - GUTTER_WIDTH } else { 1 };
        let height = if rows > STATUS_ROWS { rows - STATUS_ROWS } else { 1 };
        self.size = (width, height);
        self.align_scroll();
    }

    /// Where the terminal should show the cursor, counting columns and rows
    /// from one: right of the line numbers, on the cursor's row.
    pub fn to_screen_coordinate(&self) -> (r: (u16, u16))
        requires
            self.well_formed(),
        ensures
            r.0 == self.cursor.0 + GUTTER_WIDTH + 1,
            r.1 == self.cursor.1 + 1,
    {
        ((self.cursor.0 + GUTTER_WIDTH + 1) as u16, (self.cursor.1 + 1) as u16)
    }

    /// The number of document lines the viewport shows.
    pub fn visible_rows(&self) -> (r: usize)
        requires
            self.well_formed(),
        ensures
            r == (if self.lines().len() - self.offset.1 < self.size.1 {
                self.lines().len() - self.offset.1
            } else {
                self.size.1 as int
            }),
    {
        let n = self.buffer.line_count();
        let rest = n - self.offset.1;
        if rest < self.size.1 {
            rest
        } else {
            self.size.1
        }
    }

    /// The characters of the `i`-th visible line that the viewport shows.
    pub fn visible_slice(&self, i: usize) -> (r: Vec<char>)
        requires
            self.well_formed(),
            self.offset.1 + i < self.lines().len(),
        ensures
            r@ == window(self.lines()[self.offset.1 + i], self.offset.0 as int, self.size.0 as int),
    {
        proof { self.buffer.lemma_sizes(); }
        let line = self.buffer.line(self.offset.1 + i);
        let from = self.offset.0;
        let mut out: Vec<char> = Vec::new();
        if from < line.len() {
            let end = if line.len() - from > self.size.0 { from + self.size.0 } else { line.len() };
            let mut k: usize = from;
            while k < end
                invariant
                    from <= k <= end <= line@.len(),
                    out@ == line@.subrange(from as int, k as int),
                decreases end - k,
            {
                out.push(line[k]);
                assert(line@.subrange(from as int, k + 1) =~= line@.subrange(from as int, k as int).push(line@[k as int]));
                k = k + 1;
            }
        } else {
            assert(out@ =~= Seq::<char>::empty());
        }
        out
    }

    /// The distance of visible row `i` from the cursor's row, shown as its
    /// line number.
    pub fn relative_number(&self, i: usize) -> (r: usize)
        ensures
            r == (if i >= self.cursor.1 { i - self.cursor.1 } else { self.cursor.1 - i }),
    {
        if i >= self.cursor.1 {
            i - self.cursor.1
        } else {
            self.cursor.1 - i
        }
    }

    /// The cursor's document position as (column, line).
    pub fn position(&self) -> (r: (usize, usize))
        requires
            self.well_formed(),
        ensures
            r.0 == self.col(),
            r.1 == self.row(),
    {
        (self.current_column(), self.current_line())
    }

    /// Cuts the cursor's line at the cursor. The cursor is left as it was,
    /// possibly past the end of the line.
    pub fn delete_end(&mut self)
        requires
            old(self).well_formed(),
        ensures
            final(self).frame_ok(),
            final(self).lines() == old(self).lines().update(
                old(self).row(),
                old(self).lines()[old(self).row()].subrange(0, old(self).col()),
            ),
            final(self).mode == old(self).mode,
            final(self).command == old(self).command,
            final(self).size == old(self).size,
            final(self).offset == old(self).offset,
            final(self).cursor == old(self).cursor,
    {
        let y = self.current_line();
        let x = self.current_column();
        self.buffer.truncate_line(y, x);
    }

    /// Handles a key in Normal mode.
    pub fn handle_normal(&mut self, key: Key)
        requires
            old(self).well_formed(),
            old(self).mode == Mode::Normal,
        ensures
            final(self).well_formed(),
            old(self).normal_step(key, *final(self)),
    {
        match key {
            Key::Left => self.normal_motion('h'),
            Key::Right => self.normal_motion('l'),
            Key::Up => self.normal_motion('k'),
            Key::Down => self.normal_motion('j'),
            Key::Char(c) => {
                if c == 'h' || c == 'l' || c == 'k' || c == 'j' || c == '0' || c == '$' || c == 'G' {
                    self.normal_motion(c);
                } else {
                    self.normal_command(c);
                }
            },
            Key::Ctrl(c) => self.normal_scroll(c),
            _ => {},
        }
    }

    /// The cursor motions of Normal mode.
    fn normal_motion(&mut self, c: char)
        requires
            old(self).well_formed(),
            old(self).mode == Mode::Normal,
            c == 'h' || c == 'l' || c == 'k' || c == 'j' || c == '0' || c == '$' || c == 'G',
        ensures
            final(self).well_formed(),
            old(self).normal_step(Key::Char(c), *final(self)),
            c == 'h' ==> old(self).normal_step(Key::Left, *final(self)),
            c == 'l' ==> old(self).normal_step(Key::Right, *final(self)),
            c == 'k' ==> old(self).normal_step(Key::Up, *final(self)),
            c == 'j' ==> old(self).normal_step(Key::Down, *final(self)),
    {
        proof { self.buffer.lemma_sizes(); }
        let x = self.current_column();
        let y = self.current_line();
        let n = self.buffer.line_count();
        let len = self.get_line_len();
        if c == 'h' {
            self.place(x.saturating_sub(1), y);
        } else if c == 'l' {
            self.place(if x < len.saturating_sub(1) { x + 1 } else { x }, y);
        } else if c == 'k' {
            self.place(x, y.saturating_sub(1));
        } else if c == 'j' {
            self.place(x, if y + 1 < n { y + 1 } else { y });
        } else if c == '0' {
            self.reset_x();
        } else if c == '$' {
            self.place(len.saturating_sub(1), y);
        } else {
            self.scroll_to(n - 1);
        }
    }

    /// The mode switches and edits of Normal mode.
    fn normal_command(&mut self, c: char)
        requires
            old(self).well_formed(),
            old(self).mode == Mode::Normal,
            !(c == 'h' || c == 'l' || c == 'k' || c == 'j' || c == '0' || c == '$' || c == 'G'),
        ensures
            final(self).well_formed(),
            old(self).normal_step(Key::Char(c), *final(self)),
    {
        proof { self.buffer.lemma_sizes(); }
        let x = self.current_column();
        let y = self.current_line();
        let len = self.get_line_len();
        if c == 'i' {
            self.mode = Mode::Insert;
            self.place(x, y);
        } else if c == 'a' {
            self.mode = Mode::Insert;
            self.place(if x < len { x + 1 } else { x }, y);
        } else if c == 'A' {
            self.mode = Mode::Insert;
            self.place(len, y);
        } else if c == 'I' {
            self.mode = Mode::Insert;
            self.reset_x();
        } else if c == 'x' {
            if len > 0 {
                self.buffer.delete_char(y, x);
            }
            self.place(x, y);
        } else if c == 'o' {
            self.mode = Mode::Insert;
            self.buffer.insert_line(y + 1, Vec::new());
            self.place(0, y + 1);
        } else if c == 'O' {
            self.mode = Mode::Insert;
            self.buffer.insert_line(y, Vec::new());
            self.place(0, y);
        } else if c == 'S' {
            self.mode = Mode::Insert;
            self.buffer.truncate_line(y, 0);
            assert(old(self).lines()[y as int].subrange(0, 0) =~= Seq::<char>::empty());
            self.place(0, y);
        } else if c == 'C' {
            self.delete_end();
            self.mode = Mode::Insert;
            self.place(x, y);
        } else if c == 'D' {
            self.delete_end();
            self.place(x, y);
        } else if c == 'd' {
            self.mode = Mode::Spatial('d');
        } else if c == ':' {
            self.mode = Mode::Command;
            self.command = Vec::new();
        }
    }

    /// The half-page scrolls of Normal mode.
    fn normal_scroll(&mut self, c: char)
        requires
            old(self).well_formed(),
            old(self).mode == Mode::Normal,
        ensures
            final(self).well_formed(),
            old(self).normal_step(Key::Ctrl(c), *final(self)),
    {
        proof { self.buffer.lemma_sizes(); }
        let x = self.current_column();
        let y = self.current_line();
        let n = self.buffer.line_count();
        let half = self.size.1 / 2;
        if c == 'u' {
            self.offset.1 = self.offset.1.saturating_sub(half);
            self.place(x, y.saturating_sub(half));
        } else if c == 'd' {
            let target = if n - 1 - y > half { y + half } else { n - 1 };
            let top = self.offset.1;
            self.offset.1 = if target - top > half { top + half } else { target };
            self.place(x, target);
        }
    }

    /// Handles a key in Insert mode.
    pub fn handle_insert(&mut self, key: Key)
        requires
            old(self).well_formed(),
            old(self).mode == Mode::Insert,
        ensures
            final(self).well_formed(),
            old(self).insert_step(key, *final(self)),
    {
        proof { self.buffer.lemma_sizes(); }
        let x = self.current_column();
        let y = self.current_line();
        let n = self.buffer.line_count();
        let len = self.get_line_len();
        match key {
            Key::Left => self.place(x.saturating_sub(1), y),
            Key::Right => self.place(if x < len { x + 1 } else { x }, y),
            Key::Up => self.place(x, y.saturating_sub(1)),
            Key::Down => self.place(x, if y + 1 < n { y + 1 } else { y }),
            Key::Esc => {
                self.mode = Mode::Normal;
                self.place(x.saturating_sub(1), y);
            },
            Key::Backspace => self.insert_backspace(),
            Key::Char(c) => self.insert_char(c),
            _ => {},
        }
    }

    /// Backspace in Insert mode: deletes the character before the cursor,
    /// or at the start of a line joins it onto the line above.
    fn insert_backspace(&mut self)
        requires
            old(self).well_formed(),
            old(self).mode == Mode::Insert,
        ensures
            final(self).well_formed(),
            old(self).insert_step(Key::Backspace, *final(self)),
    {
        let x = self.current_column();
        let y = self.current_line();
        if x == 0 && y > 0 {
            let at = self.buffer.join_line(y - 1);
            self.place(at, y - 1);
        } else if x > 0 {
            self.buffer.delete_char(y, x - 1);
            self.place(x - 1, y);
        }
    }

    /// A character typed in Insert mode: Enter splits the line at the
    /// cursor, Tab inserts four spaces, anything else is inserted as it is.
    fn insert_char(&mut self, c: char)
        requires
            old(self).well_formed(),
            old(self).mode == Mode::Insert,
        ensures
            final(self).well_formed(),
            old(self).insert_step(Key::Char(c), *final(self)),
    {
        let x = self.current_column();
        let y = self.current_line();
        if c == '\t' {
            let spaces = vec![' ', ' ', ' ', ' '];
            assert(spaces@ =~= seq![' ', ' ', ' ', ' ']);
            self.buffer.insert_chars(y, x, &spaces);
            proof { self.buffer.lemma_sizes(); }
            let len = self.buffer.line_length(y);
            assert(len == old(self).lines()[y as int].len() + 4);
            self.place(x + 4, y);
        } else if c == '\n' {
            proof { self.buffer.lemma_sizes(); }
            self.buffer.split_line(y, x);
            self.place(0, y + 1);
        } else {
            self.buffer.insert_char(y, x, c);
            proof { self.buffer.lemma_sizes(); }
            let len = self.buffer.line_length(y);
            assert(len == old(self).lines()[y as int].len() + 1);
            self.place(x + 1, y);
        }
    }

    /// Handles the key that follows the first key `op` of a two-key
    /// operator, and returns to Normal mode.
    pub fn handle_spatial(&mut self, op: char, key: Key)
        requires
            old(self).well_formed(),
            old(self).mode == Mode::Spatial(op),
        ensures
            final(self).well_formed(),
            old(self).pending_step(op, key, *final(self)),
    {
        let x = self.current_column();
        let y = self.current_line();
        self.mode = Mode::Normal;
        if op == 'd' && key == Key::Char('d') {
            self.buffer.remove_line(y);
            self.place(x, y);
        }
    }

    /// Handles a key in Command mode and returns the action that the
    /// command line asks for.
    pub fn handle_command(&mut self, key: Key) -> (r: Action)
        requires
            old(self).well_formed(),
            old(self).mode == Mode::Command,
        ensures
            final(self).well_formed(),
            old(self).command_step(key, *final(self), r),
    {
        match key {
            Key::Esc => {
                self.mode = Mode::Normal;
                self.command = Vec::new();
                Action::Nothing
            },
            Key::Backspace => {
                self.command.pop();
                Action::Nothing
            },
            Key::Char(c) => {
                if c == '\n' {
                    let action = parse_command(&self.command);
                    self.mode = Mode::Normal;
                    self.command = Vec::new();
                    action
                } else {
                    self.command.push(c);
                    Action::Nothing
                }
            },
            _ => Action::Nothing,
        }
    }

    /// Handles one key event in the current mode and returns what the
    /// surrounding program must do. Ctrl-C and Ctrl-Z end the session in
    /// any mode.
    pub fn handle_key(&mut self, key: Key) -> (r: Action)
        requires
            old(self).well_formed(),
        ensures
            final(self).well_formed(),
            key == Key::Ctrl('c') || key == Key::Ctrl('z') ==> r == Action::Quit && old(self).unchanged(*final(self)),
            !(key == Key::Ctrl('c') || key == Key::Ctrl('z')) ==> match old(self).mode {
                Mode::Normal => r == Action::Nothing && old(self).normal_step(key, *final(self)),
                Mode::Insert => r == Action::Nothing && old(self).insert_step(key, *final(self)),
                Mode::Spatial(op) => r == Action::Nothing && old(self).pending_step(op, key, *final(self)),
                Mode::Command => old(self).command_step(key, *final(self), r),
            },
    {
        if key == Key::Ctrl('c') || key == Key::Ctrl('z') {
            return Action::Quit;
        }
        match self.mode {
            Mode::Normal => {
                self.handle_normal(key);
                Action::Nothing
            },
            Mode::Insert => {
                self.handle_insert(key);
                Action::Nothing
            },
            Mode::Spatial(op) => {
                self.handle_spatial(op, key);
                Action::Nothing
            },
            Mode::Command => self.handle_command(key),
        }
    }

    /// Points the cursor at document position (`x`, `y`), lowering the
    /// offset where the position lies above or left of it.
    fn move_to(&mut self, x: usize, y: usize)
        ensures
            final(self).offset.0 == (if x < old(self).offset.0 { x } else { old(self).offset.0 }),
            final(self).offset.1 == (if y < old(self).offset.1 { y } else { old(self).offset.1 }),
            final(self).col() == x,
            final(self).row() == y,
            final(self).buffer == old(self).buffer,
            final(self).mode == old(self).mode,
            final(self).command == old(self).command,
            final(self).size == old(self).size,
    {
        if x < self.offset.0 {
            self.offset.0 = x;
        }
        self.cursor.0 = x - self.offset.0;
        if y < self.offset.1 {
            self.offset.1 = y;
        }
        self.cursor.1 = y - self.offset.1;
    }

    /// Brings the cursor into the document: onto its last line at most, and
    /// onto the last column that the mode allows there at most. Lowers the
    /// offset where it lies past that position.
    pub fn align_bounds(&mut self)
        requires
            old(self).frame_ok(),
            old(self).row() <= usize::MAX,
            old(self).col() <= usize::MAX,
        ensures
            ({
                let ty = clamp(old(self).row(), old(self).lines().len() - 1);
                let tx = clamp(old(self).col(), old(self).col_limit(ty));
                &&& final(self).row() == ty
                &&& final(self).col() == tx
                &&& final(self).offset.1 == (if old(self).offset.1 <= ty { old(self).offset.1 as int } else { ty })
                &&& final(self).offset.0 == (if old(self).offset.0 <= tx { old(self).offset.0 as int } else { tx })
            }),
            final(self).buffer == old(self).buffer,
            final(self).mode == old(self).mode,
            final(self).command == old(self).command,
            final(self).size == old(self).size,
    {
        let n = self.buffer.line_count();
        if self.offset.1 > n - 1 {
            self.offset.1 = n - 1;
        }
        let y = if self.cursor.1 <= n - 1 - self.offset.1 { self.offset.1 + self.cursor.1 } else { n - 1 };
        let len = self.buffer.line_length(y);
        let bound = if self.mode == Mode::Insert { len } else if len == 0 { 0 } else { len - 1 };
        if self.offset.0 > bound {
            self.offset.0 = bound;
        }
        let offset = self.offset;
        self.cursor.align_bounds(&offset, (bound, n - 1));
    }
}

/// In every well-formed state the cursor's document position addresses a
/// line of the document, and a column on it: at most the last character
/// (column zero on an empty line) outside Insert mode, at most the append
/// position in Insert mode.
pub proof fn lemma_cursor_addresses_document(e: Editor)
    requires
        e.well_formed(),
    ensures
        0 <= e.row() < e.lines().len(),
        e.mode != Mode::Insert ==> e.col() <= (if e.lines()[e.row()].len() > 0 { e.lines()[e.row()].len() - 1 } else { 0 }),
        e.mode == Mode::Insert ==> e.col() <= e.lines()[e.row()].len(),
{
}

/// Pressing `h` at the first column, or `l` at the last column of the line,
/// changes nothing; pressing it again changes nothing either.
pub proof fn lemma_horizontal_idempotent(e0: Editor, e1: Editor, e2: Editor, key: Key)
    requires
        e0.well_formed(),
        e1.well_formed(),
        e0.mode == Mode::Normal,
        (key == Key::Char('h') && e0.col() == 0) || (key == Key::Char('l') && e0.col() == e0.col_limit(e0.row())),
        e0.normal_step(key, e1),
        e1.normal_step(key, e2),
    ensures
        e0.unchanged(e1),
        e1.unchanged(e2),
{
}

} // verus!

use vstd::prelude::*;

verus! {

/// A cursor in screen cells, relative to a scroll offset given as
/// (column, line): its document position is the sum of the two.
#[derive(Debug, Clone, Copy, PartialEq, Eq, Structural)]
pub struct Cursor(pub u16, pub u16);

impl Default for Cursor {
    fn default() -> (r: Cursor)
        ensures
            r == Cursor(0, 0),
    {
        Cursor(0, 0)
    }
}

impl Cursor {
    /// One column left, unless the cursor is at the left edge.
    pub open spec fn left(self) -> Cursor {
        if self.0 > 0 {
            Cursor((self.0 - 1) as u16, self.1)
        } else {
            self
        }
    }

    /// One column right, unless that would pass the last character of a
    /// line of `len` characters.
    pub open spec fn right(self, offset: (usize, usize), len: usize) -> Cursor {
        if self.0 + offset.0 + 1 < len && self.0 < u16::MAX {
            Cursor((self.0 + 1) as u16, self.1)
        } else {
            self
        }
    }

    /// The cursor with its column brought onto a line of `len` characters:
    /// onto the last character at most, column zero on an empty line.
    pub open spec fn aligned(self, offset: (usize, usize), len: usize) -> Cursor {
        if len == 0 || offset.0 + 1 > len {
            Cursor(0, self.1)
        } else if self.0 + offset.0 + 1 > len {
            Cursor((len - 1 - offset.0) as u16, self.1)
        } else {
            self
        }
    }

    /// Moves one column left; at the left edge nothing changes.
    pub fn move_left(&mut self, offset: &(usize, usize))
        ensures
            *final(self) == old(self).left(),
    {
        if self.0 > 0 {
            self.0 = self.0 - 1;
        }
    }

    /// Moves one line down, unless the cursor is on the last of
    /// `amount_lines` lines, then brings the column onto the line reached,
    /// which has `len` characters.
    pub fn move_down(&mut self, offset: &(usize, usize), amount_lines: usize, len: usize)
        ensures
            *final(self) == (if old(self).1 + offset.1 + 1 < amount_lines && old(self).1 < u16::MAX {
                Cursor(old(self).0, (old(self).1 + 1) as u16).aligned(*offset, len)
            } else {
                *old(self)
            }),
    {
        if (self.1 as usize) < u16::MAX as usize && offset.1 < amount_lines && (self.1 as usize) < amount_lines - 1 - offset.1 {
            self.1 = self.1 + 1;
            self.align_bounds(offset, len);
        }
    }

    /// Moves one line up, unless the cursor is at the top edge, then brings
    /// the column onto the line reached, which has `len` characters.
    pub fn move_up(&mut self, offset: &(usize, usize), len: usize)
        ensures
            *final(self) == (if old(self).1 > 0 {
                Cursor(old(self).0, (old(self).1 - 1) as u16).aligned(*offset, len)
            } else {
                *old(self)
            }),
    {
        if self.1 > 0 {
            self.1 = self.1 - 1;
            self.align_bounds(offset, len);
        }
    }

    /// Moves one column right, unless that would pass the last character of
    /// a line of `len` characters.
    pub fn move_right(&mut self, offset: &(usize, usize), len: usize)
        ensures
            *final(self) == old(self).right(*offset, len),
    {
        if self.0 < u16::MAX && offset.0 < len && (self.0 as usize) < len - 1 - offset.0 {
            self.0 = self.0 + 1;
        }
    }

    /// Brings the column onto a line of `len` characters.
    pub fn align_bounds(&mut self, offset: &(usize, usize), len: usize)
        ensures
            *final(self) == old(self).aligned(*offset, len),
    {
        if len == 0 || offset.0 >= len {
            self.0 = 0;
        } else if self.0 as usize > len - 1 - offset.0 {
            self.0 = (len - 1 - offset.0) as u16;
        }
    }
}

/// Moving left at the left edge, or right at the last character of the
/// line, leaves the cursor where it is; so does every further such move.
pub proof fn lemma_cursor_boundary(c: Cursor, offset: (usize, usize), len: usize)
    ensures
        c.0 == 0 ==> c.left() == c && c.left().left() == c,
        c.0 + offset.0 + 1 >= len ==> c.right(offset, len) == c && c.right(offset, len).right(offset, len) == c,
{
}

} // verus!

use vstd::prelude::*;

verus! {

/// The largest position, relative to `offset`, whose absolute coordinate
/// does not pass `last`; zero when the offset itself lies past `last`.
pub open spec fn rel_limit(offset: nat, last: nat) -> nat {
    if offset <= last {
        (last - offset) as nat
    } else {
        0
    }
}

/// A pair of coordinates `(x, y)`: a column and a line.
///
/// The editor keeps two of them: the scroll offset (the document position
/// shown at the top-left of the viewport) and the cursor relative to it.
#[derive(Debug, Clone, Copy, PartialEq, Eq, Structural)]
pub struct Marker(pub usize, pub usize);

impl Default for Marker {
    fn default() -> (r: Marker)
        ensures
            r == Marker(0, 0),
    {
        Marker(0, 0)
    }
}

impl Marker {
    /// Moves left by `value` columns, stopping at column zero.
    pub fn decrease_x(&mut self, value: usize)
        ensures
            final(self).0 == (if old(self).0 >= value { old(self).0 - value } else { 0 }),
            final(self).1 == old(self).1,
    {
        self.0 = self.0.saturating_sub(value);
    }

    /// Moves right by `value` columns.
    pub fn increase_x(&mut self, value: usize)
        requires
            old(self).0 + value <= usize::MAX,
        ensures
            final(self).0 == old(self).0 + value,
            final(self).1 == old(self).1,
    {
        self.0 = self.0 + value;
    }

    /// Moves up by `value` lines, stopping at line zero.
    pub fn decrease_y(&mut self, value: usize)
        ensures
            final(self).0 == old(self).0,
            final(self).1 == (if old(self).1 >= value { old(self).1 - value } else { 0 }),
    {
        self.1 = self.1.saturating_sub(value);
    }

    /// Moves down by `value` lines.
    pub fn increase_y(&mut self, value: usize)
        requires
            old(self).1 + value <= usize::MAX,
        ensures
            final(self).0 == old(self).0,
            final(self).1 == old(self).1 + value,
    {
        self.1 = self.1 + value;
    }

    /// Clamps this marker, read relative to `offset`, so that its absolute
    /// column does not pass `last.0` and its absolute line does not pass
    /// `last.1`. Where the offset itself lies past a bound, that coordinate
    /// becomes zero.
    pub fn align_bounds(&mut self, offset: &Marker, last: (usize, usize))
        ensures
            final(self).0 == (if old(self).0 <= rel_limit(offset.0 as nat, last.0 as nat) {
                old(self).0 as nat
            } else {
                rel_limit(offset.0 as nat, last.0 as nat)
            }),
            final(self).1 == (if old(self).1 <= rel_limit(offset.1 as nat, last.1 as nat) {
                old(self).1 as nat
            } else {
                rel_limit(offset.1 as nat, last.1 as nat)
            }),
    {
        // horizontally
        if offset.0 > last.0 {
            self.0 = 0;
        } else if self.0 > last.0 - offset.0 {
            self.0 = last.0 - offset.0;
        }
        // vertically
        if offset.1 > last.1 {
            self.1 = 0;
        } else if self.1 > last.1 - offset.1 {
            self.1 = last.1 - offset.1;
        }
    }
}

} // verus!

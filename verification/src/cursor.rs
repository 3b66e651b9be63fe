//! The cursor: a column and a row, with no policy of its own.

use vstd::prelude::*;

verus! {

/// A position in the text: `x` is the column, `y` the row, both counted from zero.
#[derive(Debug)]
pub struct Cursor {
    x: usize,
    y: usize,
}

impl Cursor {
    /// The column, for use in contracts.
    pub closed spec fn column(&self) -> usize {
        self.x
    }

    /// The row, for use in contracts.
    pub closed spec fn row(&self) -> usize {
        self.y
    }

    /// Creates a cursor at column `x` and row `y`.
    pub fn new(x: usize, y: usize) -> (c: Self)
        ensures
            c.column() == x,
            c.row() == y,
    {
        Self { x, y }
    }

    /// Returns the column and the row, in that order.
    pub fn position(&self) -> (at: (usize, usize))
        ensures
            at.0 == self.column(),
            at.1 == self.row(),
    {
        (self.x, self.y)
    }

    /// Returns the column and leaves the cursor as it was.
    pub fn x_copy(&mut self) -> (x: usize)
        ensures
            x == old(self).column(),
            *final(self) == *old(self),
    {
        self.x
    }

    /// Returns the row and leaves the cursor as it was.
    pub fn y_copy(&mut self) -> (y: usize)
        ensures
            y == old(self).row(),
            *final(self) == *old(self),
    {
        self.y
    }

    /// Hands out the column for writing: the row stays, the column becomes
    /// whatever is written through the reference.
    pub fn x_mut(&mut self) -> (x: &mut usize)
        ensures
            *x == old(self).column(),
            final(self).column() == *final(x),
            final(self).row() == old(self).row(),
    {
        &mut self.x
    }

    /// Hands out the row for writing: the column stays, the row becomes
    /// whatever is written through the reference.
    pub fn y_mut(&mut self) -> (y: &mut usize)
        ensures
            *y == old(self).row(),
            final(self).row() == *final(y),
            final(self).column() == old(self).column(),
    {
        &mut self.y
    }
}

} // verus!

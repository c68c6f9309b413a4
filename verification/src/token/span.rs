//! Positions and spans in a source text.

use vstd::prelude::*;

verus! {

/// A position in a source text: a line and a column, both counted from 1.
#[derive(Debug, Clone, Copy, PartialEq, Eq, Structural)]
pub struct Position {
    pub line: usize,
    pub column: usize,
}

impl Position {
    /// The position that follows `self` on the next line: column 1 of line `line + 1`.
    pub open spec fn next_line(self) -> Position {
        Position { line: (self.line + 1) as usize, column: 1 }
    }

    /// The position one column to the right of `self`.
    pub open spec fn next_column(self) -> Position {
        Position { line: self.line, column: (self.column + 1) as usize }
    }

    /// Creates a new `Position` at line 1, column 1.
    pub fn new() -> (r: Position)
        ensures
            r == (Position { line: 1, column: 1 }),
    {
        Position::new_at(1, 1)
    }

    /// Creates a new `Position` at the given line and column.
    pub fn new_at(line: usize, column: usize) -> (r: Position)
        ensures
            r == (Position { line, column }),
    {
        Position { line, column }
    }

    /// Returns the line of this `Position`.
    pub fn line(&self) -> (r: usize)
        ensures
            r == self.line,
    {
        self.line
    }

    /// Returns the column of this `Position`.
    pub fn column(&self) -> (r: usize)
        ensures
            r == self.column,
    {
        self.column
    }

    /// Increments the line of this `Position` by 1 and sets the column to 1.
    pub fn line_inc(&mut self)
        requires
            old(self).line < usize::MAX,
        ensures
            *final(self) == old(self).next_line(),
    {
        self.line += 1;
        self.column = 1;
    }

    /// Increments the column of this `Position` by 1.
    pub fn col_inc(&mut self)
        requires
            old(self).column < usize::MAX,
        ensures
            *final(self) == old(self).next_column(),
    {
        self.column += 1;
    }
}

impl Default for Position {
    fn default() -> (r: Position)
        ensures
            r == (Position { line: 1, column: 1 }),
    {
        Position::new()
    }
}

/// A span between two positions in a source text.
#[derive(Debug, Clone, Copy, PartialEq, Eq, Structural)]
pub struct Span {
    pub start: Position,
    pub end: Position,
}

impl Span {
    /// Creates a new `Span` between the given positions.
    pub fn new(start: Position, end: Position) -> (r: Span)
        ensures
            r == (Span { start, end }),
    {
        Span { start, end }
    }

    /// Returns the start position of this `Span`.
    pub fn start(&self) -> (r: Position)
        ensures
            r == self.start,
    {
        self.start
    }

    /// Returns the end position of this `Span`.
    pub fn end(&self) -> (r: Position)
        ensures
            r == self.end,
    {
        self.end
    }
}

} // verus!

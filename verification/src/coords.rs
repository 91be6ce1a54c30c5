//! The coordinate bridge: translating between the tokenizer's
//! `(row, column)` points and the protocol's `(line, character)`
//! positions.
//!
//! Both encodings are zero-based.  The column and character axes both
//! carry byte offsets: the source alphabet is ASCII whitespace, so
//! bytes, UTF-16 code units and code points coincide for every valid
//! program, and no re-encoding is performed.

use vstd::prelude::*;

verus! {

/// A tokenizer coordinate: `row` counts newlines before the place,
/// `column` counts bytes since the last newline (or the start of the
/// document on row zero).
#[derive(Clone, Copy, PartialEq, Eq, Structural, Debug)]
pub struct Point {
    pub row: usize,
    pub column: usize,
}

/// A protocol position: zero-based line and character.
#[derive(Clone, Copy, PartialEq, Eq, Structural, Debug)]
pub struct Position {
    pub line: usize,
    pub character: usize,
}

/// A protocol range: an ordered pair of positions.
#[derive(Clone, Copy, PartialEq, Eq, Structural, Debug)]
pub struct Range {
    pub start: Position,
    pub end: Position,
}

/// Lexicographic order on points: `a` comes no later than `b`.
pub open spec fn point_le(a: Point, b: Point) -> bool {
    a.row < b.row || (a.row == b.row && a.column <= b.column)
}

/// A point lies within a span when it is between the span's two ends,
/// both ends included.
pub open spec fn point_within(p: Point, start: Point, end: Point) -> bool {
    point_le(start, p) && point_le(p, end)
}

/// Decide the lexicographic order of two points.
pub fn points_le(a: Point, b: Point) -> (r: bool)
    ensures
        r == point_le(a, b),
{
    a.row < b.row || (a.row == b.row && a.column <= b.column)
}

/// Decide whether a point lies within a span given by its two ends.
pub fn points_within(p: Point, start: Point, end: Point) -> (r: bool)
    ensures
        r == point_within(p, start, end),
{
    points_le(start, p) && points_le(p, end)
}

/// The position a point maps to: the line is the row and the character
/// is the byte column, unchanged.
pub open spec fn spec_point_to_position(p: Point) -> Position {
    Position { line: p.row, character: p.column }
}

/// Translate a tokenizer point into a protocol position.
pub fn point_to_position(p: Point) -> (r: Position)
    ensures
        r == spec_point_to_position(p),
        r.line == p.row,
        r.character == p.column,
{
    Position { line: p.row, character: p.column }
}

/// The range spanned by a node that starts and ends at the given points.
pub open spec fn spec_range_of(start: Point, end: Point) -> Range {
    Range { start: spec_point_to_position(start), end: spec_point_to_position(end) }
}

/// Build a protocol range from a node's two end points.
pub fn range_of(start: Point, end: Point) -> (r: Range)
    ensures
        r == spec_range_of(start, end),
        r.start.line == start.row && r.start.character == start.column,
        r.end.line == end.row && r.end.character == end.column,
{
    Range { start: point_to_position(start), end: point_to_position(end) }
}

/// Faithfulness of the coordinate bridge: a range built from two points
/// copies each row into a line and each column into a character, and it
/// keeps the order of the points.
pub proof fn lemma_range_faithful(start: Point, end: Point)
    ensures
        spec_range_of(start, end).start.line == start.row,
        spec_range_of(start, end).start.character == start.column,
        spec_range_of(start, end).end.line == end.row,
        spec_range_of(start, end).end.character == end.column,
        point_le(start, end) ==> spec_range_of(start, end).start.line
            <= spec_range_of(start, end).end.line,
{
}

} // verus!

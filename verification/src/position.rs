//! Places in the text of a document.

use vstd::prelude::*;

verus! {

/// A place in a text: a line and a character of that line, both counted from zero.
#[derive(Debug, PartialEq, Eq, Structural, Clone, Copy)]
pub struct Position {
    pub line: u32,
    pub character: u32,
}

/// A stretch of a text between two places.
#[derive(Debug, PartialEq, Eq, Structural, Clone, Copy)]
pub struct Range {
    pub start: Position,
    pub end: Position,
}

impl Position {
    /// Whether this place is `other` or stands before it.
    pub open spec fn at_or_before(self, other: Position) -> bool {
        self.line < other.line || self.line == other.line && self.character <= other.character
    }

    fn is_at_or_before(&self, other: &Position) -> (before: bool)
        ensures
            before == self.at_or_before(*other),
    {
        self.line < other.line || self.line == other.line && self.character <= other.character
    }
}

impl Range {
    /// Whether the stretch does not end before it starts.
    pub open spec fn is_ordered(self) -> bool {
        self.start.at_or_before(self.end)
    }

    /// Whether a place lies in the stretch, its ends taken in.
    pub open spec fn covers(self, place: Position) -> bool {
        self.start.at_or_before(place) && place.at_or_before(self.end)
    }

    /// Whether each of two stretches starts no later than the other ends.
    pub open spec fn overlaps(self, other: Range) -> bool {
        self.start.at_or_before(other.end) && other.start.at_or_before(self.end)
    }
}

/// Whether each of two stretches starts no later than the other ends.
pub fn range_overlaps(a: Range, b: Range) -> (overlap: bool)
    ensures
        overlap == a.overlaps(b),
{
    a.start.is_at_or_before(&b.end) && b.start.is_at_or_before(&a.end)
}

/// Stretches overlap each other.
pub proof fn overlap_is_symmetric(a: Range, b: Range)
    ensures
        a.overlaps(b) == b.overlaps(a),
{
}

/// Two stretches that do not end before they start overlap exactly where they have a place in
/// common. Stretches that only touch do overlap.
pub proof fn overlap_is_a_common_place(a: Range, b: Range)
    requires
        a.is_ordered(),
        b.is_ordered(),
    ensures
        a.overlaps(b) <==> exists|place: Position| a.covers(place) && b.covers(place),
{
    if a.overlaps(b) {
        let place = if a.start.at_or_before(b.start) {
            b.start
        } else {
            a.start
        };
        assert(a.covers(place) && b.covers(place));
    }
}

/// A place on an earlier line stands before one on a later line, whatever the characters, and on one
/// line the characters decide.
pub proof fn lines_come_before_characters(a: Position, b: Position)
    ensures
        a.line < b.line ==> a.at_or_before(b) && !b.at_or_before(a),
        a.line == b.line && a.character < b.character ==> a.at_or_before(b) && !b.at_or_before(a),
        a.at_or_before(b) && b.at_or_before(a) <==> a == b,
        a.at_or_before(b) || b.at_or_before(a),
{
}

/// Two stretches do not overlap exactly where one of them ends on a line before that on which the
/// other starts, or on the same line at an earlier character.
pub proof fn apart_where_one_ends_first(a: Range, b: Range)
    ensures
        !a.overlaps(b) <==> {
            ||| a.end.line < b.start.line
            ||| a.end.line == b.start.line && a.end.character < b.start.character
            ||| b.end.line < a.start.line
            ||| b.end.line == a.start.line && b.end.character < a.start.character
        },
{
}

/// A stretch covers the places that do not stand before its start or behind its end, and no others.
pub proof fn covered_between_the_ends(range: Range, place: Position)
    ensures
        !range.covers(place) <==> {
            ||| place.line < range.start.line
            ||| place.line == range.start.line && place.character < range.start.character
            ||| range.end.line < place.line
            ||| range.end.line == place.line && range.end.character < place.character
        },
        range.is_ordered() <==> range.covers(range.start) && range.covers(range.end),
{
}

} // verus!

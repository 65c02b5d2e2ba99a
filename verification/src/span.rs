use vstd::prelude::*;

verus! {

/// A source span in parser-native coordinates: lines are 1-indexed,
/// columns are 0-indexed, the end position is exclusive.
#[derive(Clone, Copy, Debug, PartialEq, Eq, Structural)]
pub struct Span {
    pub start_line: u32,
    pub start_col: u32,
    pub end_line: u32,
    pub end_col: u32,
}

/// A position in editor-protocol coordinates: line and column both 0-indexed.
#[derive(Clone, Copy, Debug, PartialEq, Eq, Structural)]
pub struct Position {
    pub line: u32,
    pub character: u32,
}

/// A range in editor-protocol coordinates, end exclusive.
#[derive(Clone, Copy, Debug, PartialEq, Eq, Structural)]
pub struct Range {
    pub start: Position,
    pub end: Position,
}

impl Span {
    /// The parser reports 1-indexed line numbers, so a span it produced
    /// never names a line 0.
    pub open spec fn wf(self) -> bool {
        self.start_line >= 1 && self.end_line >= 1
    }
}

/// Editor position of a parser position: the line shifts down by one,
/// the column is unchanged.
pub open spec fn spec_position(line: u32, col: u32) -> Position
    recommends
        line >= 1,
{
    Position { line: (line - 1) as u32, character: col }
}

/// Editor range denoted by a parser span.
pub open spec fn spec_span_range(s: Span) -> Range {
    Range {
        start: spec_position(s.start_line, s.start_col),
        end: spec_position(s.end_line, s.end_col),
    }
}

/// Parser span denoted by an editor range: the inverse shift.
pub open spec fn spec_range_span(r: Range) -> Span
    recommends
        r.start.line < u32::MAX,
        r.end.line < u32::MAX,
{
    Span {
        start_line: (r.start.line + 1) as u32,
        start_col: r.start.character,
        end_line: (r.end.line + 1) as u32,
        end_col: r.end.character,
    }
}

/// Converts a parser span into the editor range it denotes.
pub fn span_to_range(s: Span) -> (r: Range)
    requires
        s.wf(),
    ensures
        r == spec_span_range(s),
{
    Range {
        start: Position { line: s.start_line - 1, character: s.start_col },
        end: Position { line: s.end_line - 1, character: s.end_col },
    }
}

/// The position mapping is a pure shift and hence a bijection between
/// well-formed parser spans and editor ranges whose lines stay below
/// `u32::MAX`: mapping a span and shifting the range back returns the
/// original span, and shifting a range and mapping the span back returns
/// the original range.
pub proof fn lemma_span_mapping_bijective(s: Span, r: Range)
    ensures
        s.wf() ==> spec_range_span(spec_span_range(s)) == s,
        r.start.line < u32::MAX && r.end.line < u32::MAX ==> spec_span_range(spec_range_span(r))
            == r,
        r.start.line < u32::MAX && r.end.line < u32::MAX ==> spec_range_span(r).wf(),
{
}

} // verus!

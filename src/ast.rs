//! The syntax node model: one construct of a parsed file and its span.

use crate::error::Error;
use vstd::prelude::*;

verus! {

/// One syntactic construct (a function, a class, a block) and where it lies.
///
/// Rows and columns are zero-based. The line span is the inclusive interval
/// `[start_row, end_row]`.
#[derive(Debug, Clone, PartialEq, Eq)]
pub struct CodeNode {
    /// The grammar category of the construct (e.g. "function_definition").
    pub kind: String,
    /// The construct's identifier, absent for anonymous constructs.
    pub name: Option<String>,
    /// First row of the construct.
    pub start_row: usize,
    /// Column at which the construct starts on its first row.
    pub start_col: usize,
    /// Last row of the construct.
    pub end_row: usize,
    /// Column at which the construct ends on its last row.
    pub end_col: usize,
}

/// The ordering invariant of a span: the start does not come after the end.
pub open spec fn span_ordered(start_row: usize, start_col: usize, end_row: usize, end_col: usize) -> bool {
    start_row <= end_row && (start_row == end_row ==> start_col <= end_col)
}

impl CodeNode {
    /// The node's span is ordered.
    pub open spec fn wf(self) -> bool {
        span_ordered(self.start_row, self.start_col, self.end_row, self.end_col)
    }

    /// The node's line span contains `line`.
    pub open spec fn covers(self, line: int) -> bool {
        self.start_row <= line <= self.end_row
    }

    /// The node built from exactly these fields.
    pub open spec fn has_fields(
        self,
        kind: String,
        name: Option<String>,
        start_row: usize,
        start_col: usize,
        end_row: usize,
        end_col: usize,
    ) -> bool {
        &&& self.kind == kind
        &&& self.name == name
        &&& self.start_row == start_row
        &&& self.start_col == start_col
        &&& self.end_row == end_row
        &&& self.end_col == end_col
    }

    /// Creates a node; the span must be ordered.
    pub fn new(
        kind: String,
        name: Option<String>,
        start_row: usize,
        start_col: usize,
        end_row: usize,
        end_col: usize,
    ) -> (r: Self)
        requires
            span_ordered(start_row, start_col, end_row, end_col),
        ensures
            r.has_fields(kind, name, start_row, start_col, end_row, end_col),
            r.wf(),
    {
        CodeNode { kind, name, start_row, start_col, end_row, end_col }
    }

    /// Creates a node, or rejects a span whose start comes after its end.
    pub fn try_new(
        kind: String,
        name: Option<String>,
        start_row: usize,
        start_col: usize,
        end_row: usize,
        end_col: usize,
    ) -> (r: Result<Self, Error>)
        ensures
            r is Ok <==> span_ordered(start_row, start_col, end_row, end_col),
            r matches Ok(n) ==> n.has_fields(kind, name, start_row, start_col, end_row, end_col),
            r matches Err(e) ==> e.is_invalid_node(),
    {
        if start_row > end_row {
            Err(Error::InvalidNode("start row comes after end row".to_string()))
        } else if start_row == end_row && start_col > end_col {
            Err(Error::InvalidNode("start column comes after end column on a single row".to_string()))
        } else {
            Ok(CodeNode::new(kind, name, start_row, start_col, end_row, end_col))
        }
    }

    /// The node's line span as `(start_row, end_row)`.
    pub fn line_span(&self) -> (r: (usize, usize))
        ensures
            r == (self.start_row, self.end_row),
    {
        (self.start_row, self.end_row)
    }

    /// Whether the node's line span contains `line`.
    pub fn contains_line(&self, line: usize) -> (r: bool)
        ensures
            r == self.covers(line as int),
    {
        self.start_row <= line && line <= self.end_row
    }
}

} // verus!

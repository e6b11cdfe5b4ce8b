//! The errors that parsing and merging report.

use crate::record::Position;
use vstd::prelude::*;

verus! {

/// The cell of a telemetry row that breaks the conversion rules.
#[derive(Debug, Clone, Copy, PartialEq, Eq, Structural)]
pub enum ConversionField {
    A0,
    A1,
    A2,
    A3,
    A4,
    A5,
    Status,
}

/// What went wrong.
#[derive(Debug, Clone, PartialEq, Eq)]
pub enum ErrorKind {
    /// A header cell does not hold the label that the table layout fixes.
    SchemaMismatch { expected: String, actual: String },
    /// A row has fewer cells than its layout needs.
    ColumnCountMismatch { required: usize, found: usize },
    /// The rows ended inside a block of fixed height.
    UnexpectedEndOfInput,
    /// A field row came before any row that opens a group.
    UnexpectedField,
    /// A field row that opens no group names a variable or function.
    UnexpectedExpression,
    /// A command declares more parameters than it gives types for.
    MissingParameterType { index: usize },
    /// A command declares more parameters than a row can hold.
    TooManyParameters { count: usize },
    /// A cell that must hold a `0x`-prefixed hexadecimal number does not.
    InvalidHexLiteral,
    /// A numeric cell holds no number, or one that is out of range.
    InvalidNumber,
    /// A cell holds a token outside the fixed set allowed there.
    InvalidEnumValue,
    /// A coefficient or status cell is present where the conversion type
    /// forbids it, or absent where the type needs it.
    InvalidConversionInfo { field: ConversionField },
    /// A status rule has no `=`.
    MalformedStatusPair,
    /// Two status rules share an integer key.
    DuplicateStatusKey { key: i64 },
    /// Two status rules give a default value.
    DuplicateDefaultValue,
    /// A status key is neither `*` nor an integer.
    InvalidStatusKey,
    /// A file name does not follow the telemetry naming convention.
    InvalidFilename,
    /// Two components to be merged share a name.
    DuplicateComponentName { name: String },
    /// The tokenizer rejected the input.
    Csv { message: String },
}

/// The mathematical value of an [`ErrorKind`].
pub enum ErrorKindView {
    SchemaMismatch { expected: Seq<char>, actual: Seq<char> },
    ColumnCountMismatch { required: usize, found: usize },
    UnexpectedEndOfInput,
    UnexpectedField,
    UnexpectedExpression,
    MissingParameterType { index: usize },
    TooManyParameters { count: usize },
    InvalidHexLiteral,
    InvalidNumber,
    InvalidEnumValue,
    InvalidConversionInfo { field: ConversionField },
    MalformedStatusPair,
    DuplicateStatusKey { key: i64 },
    DuplicateDefaultValue,
    InvalidStatusKey,
    InvalidFilename,
    DuplicateComponentName { name: Seq<char> },
    Csv { message: Seq<char> },
}

impl View for ErrorKind {
    type V = ErrorKindView;

    open spec fn view(&self) -> ErrorKindView {
        match *self {
            ErrorKind::SchemaMismatch { expected, actual } => ErrorKindView::SchemaMismatch {
                expected: expected@,
                actual: actual@,
            },
            ErrorKind::ColumnCountMismatch { required, found } => {
                ErrorKindView::ColumnCountMismatch { required, found }
            },
            ErrorKind::UnexpectedEndOfInput => ErrorKindView::UnexpectedEndOfInput,
            ErrorKind::UnexpectedField => ErrorKindView::UnexpectedField,
            ErrorKind::UnexpectedExpression => ErrorKindView::UnexpectedExpression,
            ErrorKind::MissingParameterType { index } => ErrorKindView::MissingParameterType {
                index,
            },
            ErrorKind::TooManyParameters { count } => ErrorKindView::TooManyParameters { count },
            ErrorKind::InvalidHexLiteral => ErrorKindView::InvalidHexLiteral,
            ErrorKind::InvalidNumber => ErrorKindView::InvalidNumber,
            ErrorKind::InvalidEnumValue => ErrorKindView::InvalidEnumValue,
            ErrorKind::InvalidConversionInfo { field } => ErrorKindView::InvalidConversionInfo {
                field,
            },
            ErrorKind::MalformedStatusPair => ErrorKindView::MalformedStatusPair,
            ErrorKind::DuplicateStatusKey { key } => ErrorKindView::DuplicateStatusKey { key },
            ErrorKind::DuplicateDefaultValue => ErrorKindView::DuplicateDefaultValue,
            ErrorKind::InvalidStatusKey => ErrorKindView::InvalidStatusKey,
            ErrorKind::InvalidFilename => ErrorKindView::InvalidFilename,
            ErrorKind::DuplicateComponentName { name } => ErrorKindView::DuplicateComponentName {
                name: name@,
            },
            ErrorKind::Csv { message } => ErrorKindView::Csv { message: message@ },
        }
    }
}

/// An error together with the place of the row that caused it, where a row
/// did.
#[derive(Debug, Clone, PartialEq, Eq)]
pub struct ParseError {
    pub position: Option<Position>,
    pub kind: ErrorKind,
}

/// The mathematical value of a [`ParseError`].
pub struct ParseErrorView {
    pub position: Option<Position>,
    pub kind: ErrorKindView,
}

impl View for ParseError {
    type V = ParseErrorView;

    open spec fn view(&self) -> ParseErrorView {
        ParseErrorView { position: self.position, kind: self.kind@ }
    }
}

impl ParseError {
    /// An error that no row caused.
    pub fn unplaced(kind: ErrorKind) -> (e: ParseError)
        ensures
            e@ == unplaced(kind@),
    {
        ParseError { position: None, kind }
    }

    /// An error caused by the row at `position`.
    pub fn at(position: Position, kind: ErrorKind) -> (e: ParseError)
        ensures
            e@ == at(position, kind@),
    {
        ParseError { position: Some(position), kind }
    }

    /// The 1-based number of the line on which the offending row starts.
    pub fn line(&self) -> (r: Option<u64>)
        ensures
            r == match self.position {
                Some(p) => Some(p.line),
                None => None,
            },
    {
        match self.position {
            Some(p) => Some(p.line),
            None => None,
        }
    }
}

/// The error value for `kind` with no position.
pub open spec fn unplaced(kind: ErrorKindView) -> ParseErrorView {
    ParseErrorView { position: None, kind }
}

/// The error value for `kind` at `position`.
pub open spec fn at(position: Position, kind: ErrorKindView) -> ParseErrorView {
    ParseErrorView { position: Some(position), kind }
}

} // verus!

//! The two generations of the telemetry table layout, and how to tell which
//! one a table follows.

use crate::error::{ErrorKind, ErrorKindView, ParseError, ParseErrorView, unplaced};
use crate::record::{RecordReader, Row, cells_view};
use crate::text::str_eq;
use vstd::prelude::*;

verus! {

/// The generation of a telemetry table's layout.
#[derive(Debug, Clone, Copy, PartialEq, Eq, Structural)]
pub struct Version {
    pub major: u64,
}

impl Version {
    /// Whether rows of this generation carry the display columns.
    pub open spec fn has_display_info(self) -> bool {
        self.major >= 3
    }

    /// Whether rows of this generation carry the display columns.
    pub fn shows_display_info(&self) -> (r: bool)
        ensures
            r == self.has_display_info(),
    {
        self.major >= 3
    }
}

/// The number of rows that stand before the first header row of the body.
pub open spec fn preamble_rows() -> nat {
    5
}

/// The generation that the rows of a table show: the third if a cell of
/// the body's first header row reads `Display Info.`, the second otherwise.
pub open spec fn guess_spec(rows: Seq<Row>) -> Result<Version, ParseErrorView> {
    if rows.len() <= preamble_rows() {
        Err(unplaced(ErrorKindView::UnexpectedEndOfInput))
    } else {
        match rows[preamble_rows() as int] {
            Err(message) => Err(unplaced(ErrorKindView::Csv { message })),
            Ok(row) => if row.record.contains("Display Info."@) {
                Ok(Version { major: 3 })
            } else {
                Ok(Version { major: 2 })
            },
        }
    }
}

/// Whether one of `cells` reads `text`.
fn any_cell_reads(cells: &Vec<String>, text: &str) -> (r: bool)
    ensures
        r == cells_view(cells@).contains(text@),
{
    let ghost all = cells_view(cells@);
    let mut i: usize = 0;
    while i < cells.len()
        invariant
            i <= cells.len(),
            all == cells_view(cells@),
            forall|j: int| 0 <= j < i ==> all[j] != text@,
        decreases cells.len() - i,
    {
        if str_eq(cells[i].as_str(), text) {
            assert(all[i as int] == text@);
            return true;
        }
        i += 1;
    }
    false
}

/// Tells the generation of a table from the first header row of its body,
/// which stands after the preamble, and hands the reader back with every
/// row still to come.
pub fn guess(reader: RecordReader) -> (r: Result<(Version, RecordReader), ParseError>)
    ensures
        match r {
            Ok((version, same)) => guess_spec(reader.remaining()) == Ok::<_, ParseErrorView>(
                version,
            ) && same.remaining() == reader.remaining(),
            Err(e) => guess_spec(reader.remaining()) == Err::<Version, _>(e@),
        },
{
    let version = match reader.peek(5) {
        None => {
            return Err(ParseError::unplaced(ErrorKind::UnexpectedEndOfInput));
        },
        Some(Err(message)) => {
            return Err(ParseError::unplaced(ErrorKind::Csv { message: message.clone() }));
        },
        Some(Ok(row)) => {
            if any_cell_reads(&row.record, "Display Info.") {
                Version { major: 3 }
            } else {
                Version { major: 2 }
            }
        },
    };
    Ok((version, reader))
}

} // verus!

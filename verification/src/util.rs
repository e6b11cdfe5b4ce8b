//! Steps that the telemetry and the command parser share: taking rows from
//! a reader, holding a header cell to its label, and joining a comment row.

use crate::error::{ErrorKind, ErrorKindView, ParseError, ParseErrorView, unplaced};
use crate::escape::{unescape, unescape_chars};
use crate::record::{PosStringRecord, PosStringRecordView, RecordReader, Row};
use crate::text::{chars_of, str_eq, string_of};
use vstd::prelude::*;

verus! {

/// What a parser leaves behind: its result and the rows that it has not
/// taken.
pub struct Outcome<T> {
    pub result: Result<T, ParseErrorView>,
    pub rest: Seq<Row>,
}

/// The rows that are left once the first has been taken.
pub open spec fn after_one(rows: Seq<Row>) -> Seq<Row> {
    if rows.len() == 0 {
        rows
    } else {
        rows.drop_first()
    }
}

/// The row that a block of fixed height takes next.
pub open spec fn next_record_spec(rows: Seq<Row>) -> Result<PosStringRecordView, ParseErrorView> {
    if rows.len() == 0 {
        Err(unplaced(ErrorKindView::UnexpectedEndOfInput))
    } else {
        match rows[0] {
            Ok(record) => Ok(record),
            Err(message) => Err(unplaced(ErrorKindView::Csv { message })),
        }
    }
}

/// Whether a row has no cell, or only empty ones.
pub open spec fn is_blank(cells: Seq<Seq<char>>) -> bool {
    forall|i: int| 0 <= i < cells.len() ==> (#[trigger] cells[i]).len() == 0
}

/// The row that a body takes next: none at the end of the rows and none at
/// a blank row, which ends the body.
pub open spec fn try_next_record_spec(rows: Seq<Row>) -> Result<
    Option<PosStringRecordView>,
    ParseErrorView,
> {
    if rows.len() == 0 {
        Ok(None)
    } else {
        match rows[0] {
            Ok(record) => if is_blank(record.record) {
                Ok(None)
            } else {
                Ok(Some(record))
            },
            Err(message) => Err(unplaced(ErrorKindView::Csv { message })),
        }
    }
}

/// Takes the next row, which must exist.
pub fn next_record(reader: &mut RecordReader) -> (r: Result<PosStringRecord, ParseError>)
    ensures
        match r {
            Ok(record) => next_record_spec(old(reader).remaining()) == Ok::<_, ParseErrorView>(
                record@,
            ),
            Err(e) => next_record_spec(old(reader).remaining()) == Err::<PosStringRecordView, _>(
                e@,
            ),
        },
        final(reader).remaining() == after_one(old(reader).remaining()),
{
    match reader.next() {
        None => Err(ParseError::unplaced(ErrorKind::UnexpectedEndOfInput)),
        Some(Ok(record)) => Ok(record),
        Some(Err(message)) => Err(ParseError::unplaced(ErrorKind::Csv { message })),
    }
}

/// Whether the row `cells` is blank.
pub fn row_is_blank(cells: &Vec<String>) -> (r: bool)
    ensures
        r == is_blank(crate::record::cells_view(cells@)),
{
    let mut i: usize = 0;
    while i < cells.len()
        invariant
            i <= cells.len(),
            forall|j: int| 0 <= j < i ==> (#[trigger] cells@[j])@.len() == 0,
        decreases cells.len() - i,
    {
        if !cells[i].as_str().is_empty() {
            assert(crate::record::cells_view(cells@)[i as int].len() != 0);
            return false;
        }
        i += 1;
    }
    true
}

/// Takes the next row of a body, if the body goes on.
pub fn try_next_record(reader: &mut RecordReader) -> (r: Result<
    Option<PosStringRecord>,
    ParseError,
>)
    ensures
        match r {
            Ok(Some(record)) => try_next_record_spec(old(reader).remaining()) == Ok::<
                _,
                ParseErrorView,
            >(Some(record@)),
            Ok(None) => try_next_record_spec(old(reader).remaining()) == Ok::<
                Option<PosStringRecordView>,
                ParseErrorView,
            >(None),
            Err(e) => try_next_record_spec(old(reader).remaining()) == Err::<
                Option<PosStringRecordView>,
                _,
            >(e@),
        },
        final(reader).remaining() == after_one(old(reader).remaining()),
{
    match reader.next() {
        None => Ok(None),
        Some(Ok(record)) => {
            if row_is_blank(&record.record) {
                Ok(None)
            } else {
                Ok(Some(record))
            }
        },
        Some(Err(message)) => Err(ParseError::unplaced(ErrorKind::Csv { message })),
    }
}

/// What holding the cell `cell` to the label `expected` gives.
pub open spec fn check_header_spec(cell: Seq<char>, expected: Seq<char>) -> Result<
    (),
    ErrorKindView,
> {
    if unescape_chars(cell) == expected {
        Ok(())
    } else {
        Err(ErrorKindView::SchemaMismatch { expected, actual: unescape_chars(cell) })
    }
}

/// Holds a header cell to the label that the layout fixes for it.
pub fn check_header(cell: &str, expected: &str) -> (r: Result<(), ErrorKind>)
    ensures
        match r {
            Ok(()) => check_header_spec(cell@, expected@) == Ok::<(), ErrorKindView>(()),
            Err(e) => check_header_spec(cell@, expected@) == Err::<(), _>(e@),
        },
{
    let actual = unescape(cell);
    if str_eq(actual.as_str(), expected) {
        Ok(())
    } else {
        let v = chars_of(expected);
        Err(ErrorKind::SchemaMismatch { expected: string_of(&v), actual })
    }
}

/// The text of a comment row: its cells unescaped and joined by commas.
pub open spec fn comment_text(cells: Seq<Seq<char>>) -> Seq<char>
    decreases cells.len(),
{
    if cells.len() == 0 {
        Seq::empty()
    } else if cells.len() == 1 {
        unescape_chars(cells[0])
    } else {
        comment_text(cells.drop_last()) + seq![','] + unescape_chars(cells.last())
    }
}

/// Joins the cells of a comment row.
pub fn build_comment_text(cells: &Vec<String>) -> (text: String)
    ensures
        text@ == comment_text(crate::record::cells_view(cells@)),
{
    let ghost all = crate::record::cells_view(cells@);
    let mut text = String::new();
    let mut i: usize = 0;
    while i < cells.len()
        invariant
            i <= cells.len(),
            all == crate::record::cells_view(cells@),
            text@ == comment_text(all.take(i as int)),
        decreases cells.len() - i,
    {
        if i > 0 {
            text.push(',');
        }
        let cell = unescape(cells[i].as_str());
        text.push_str(cell.as_str());
        proof {
            let now = all.take(i + 1);
            assert(now.drop_last() == all.take(i as int));
        }
        i += 1;
    }
    assert(all.take(cells.len() as int) == all);
    text
}

/// A label that a header row must show, with the column that shows it.
pub struct Label {
    pub column: usize,
    pub text: &'static str,
}

/// The mathematical value of a [`Label`].
pub struct LabelView {
    pub column: usize,
    pub text: Seq<char>,
}

impl View for Label {
    type V = LabelView;

    open spec fn view(&self) -> LabelView {
        LabelView { column: self.column, text: self.text@ }
    }
}

/// The values of a sequence of labels.
pub open spec fn labels_view(labels: Seq<Label>) -> Seq<LabelView> {
    labels.map_values(|l: Label| l@)
}

/// What holding `cells` to `labels` gives, one label after the other.
pub open spec fn check_labels(cells: Seq<Seq<char>>, labels: Seq<LabelView>) -> Result<
    (),
    ErrorKindView,
>
    decreases labels.len(),
{
    if labels.len() == 0 {
        Ok(())
    } else {
        match check_header_spec(cells[labels[0].column as int], labels[0].text) {
            Err(e) => Err(e),
            Ok(()) => check_labels(cells, labels.skip(1)),
        }
    }
}

/// What holding a header row to its layout gives: the row must have
/// `width` cells at least, and show every label in its column.
pub open spec fn check_schema_spec(
    cells: Seq<Seq<char>>,
    width: usize,
    labels: Seq<LabelView>,
) -> Result<(), ErrorKindView> {
    if cells.len() < width {
        Err(ErrorKindView::ColumnCountMismatch { required: width, found: cells.len() as usize })
    } else {
        check_labels(cells, labels)
    }
}

/// Whether every label of `labels` lies within `width` columns.
pub open spec fn labels_within(labels: Seq<LabelView>, width: usize) -> bool {
    forall|i: int| 0 <= i < labels.len() ==> (#[trigger] labels[i]).column < width
}

/// Holds a header row to its layout.
pub fn check_schema(cells: &Vec<String>, width: usize, labels: &Vec<Label>) -> (r: Result<
    (),
    ErrorKind,
>)
    requires
        labels_within(labels_view(labels@), width),
    ensures
        match r {
            Ok(()) => check_schema_spec(
                crate::record::cells_view(cells@),
                width,
                labels_view(labels@),
            ) == Ok::<(), ErrorKindView>(()),
            Err(e) => check_schema_spec(
                crate::record::cells_view(cells@),
                width,
                labels_view(labels@),
            ) == Err::<(), _>(e@),
        },
{
    let ghost all = crate::record::cells_view(cells@);
    let ghost expected = labels_view(labels@);
    if cells.len() < width {
        return Err(ErrorKind::ColumnCountMismatch { required: width, found: cells.len() });
    }
    let mut i: usize = 0;
    assert(expected.skip(0) == expected);
    while i < labels.len()
        invariant
            i <= labels.len(),
            all == crate::record::cells_view(cells@),
            expected == labels_view(labels@),
            labels_within(expected, width),
            width <= cells.len(),
            check_labels(all, expected.skip(i as int)) == check_labels(all, expected),
        decreases labels.len() - i,
    {
        let ghost rest = expected.skip(i as int);
        assert(rest.skip(1) == expected.skip(i + 1));
        let column = labels[i].column;
        match check_header(cells[column].as_str(), labels[i].text) {
            Err(e) => {
                return Err(e);
            },
            Ok(()) => {},
        }
        i += 1;
    }
    Ok(())
}

/// What taking one row and reading its cells by `read` gives. The error of
/// a row that is there carries the row's position.
pub open spec fn read_row<T>(
    rows: Seq<Row>,
    read: spec_fn(Seq<Seq<char>>) -> Result<T, ErrorKindView>,
) -> Result<T, ParseErrorView> {
    match next_record_spec(rows) {
        Err(e) => Err(e),
        Ok(row) => match read(row.record) {
            Err(kind) => Err(crate::error::at(row.position, kind)),
            Ok(value) => Ok(value),
        },
    }
}

/// The elements of `v` in the opposite order.
pub fn reversed<T>(v: Vec<T>) -> (r: Vec<T>)
    ensures
        r@ == v@.reverse(),
{
    let mut v = v;
    let ghost all = v@;
    let mut r: Vec<T> = Vec::new();
    while v.len() > 0
        invariant
            v@.len() + r@.len() == all.len(),
            v@ == all.take(v@.len() as int),
            forall|i: int| 0 <= i < r@.len() ==> r@[i] == all[all.len() - 1 - i],
        decreases v.len(),
    {
        let item = v.pop().unwrap();
        r.push(item);
    }
    r
}

} // verus!

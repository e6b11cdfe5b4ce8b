//! Rows of a table with their place in the input, and the reader that hands
//! them out one by one.

use vstd::prelude::*;

verus! {

/// Where a row starts in the input.
#[derive(Debug, Clone, Copy, PartialEq, Eq, Structural)]
pub struct Position {
    /// Offset of the row's first byte.
    pub byte: u64,
    /// Number of the line on which the row starts, counted from 1.
    pub line: u64,
    /// Index of the row among the rows of the input, counted from 0.
    pub record: u64,
}

/// One row: its cells and where it starts.
#[derive(Debug, Clone, PartialEq, Eq)]
pub struct PosStringRecord {
    pub position: Position,
    pub record: Vec<String>,
}

/// The mathematical value of a [`PosStringRecord`].
pub struct PosStringRecordView {
    pub position: Position,
    pub record: Seq<Seq<char>>,
}

/// The cells of a row as character sequences.
pub open spec fn cells_view(cells: Seq<String>) -> Seq<Seq<char>> {
    cells.map_values(|s: String| s@)
}

impl View for PosStringRecord {
    type V = PosStringRecordView;

    open spec fn view(&self) -> PosStringRecordView {
        PosStringRecordView { position: self.position, record: cells_view(self.record@) }
    }
}

/// What a reader yields at one step: a row, or the tokenizer's message about
/// input that it could not turn into one.
pub type Row = Result<PosStringRecordView, Seq<char>>;

/// The mathematical value of one step of a reader.
pub open spec fn row_view(r: Result<PosStringRecord, String>) -> Row {
    match r {
        Ok(record) => Ok(record@),
        Err(message) => Err(message@),
    }
}

/// The rows that the tokenizer finds in `data`, read without a header row
/// and with every row held to the width of the first.
pub uninterp spec fn csv_records(data: Seq<u8>) -> Seq<Row>;

/// Runs `csv::Reader` over `data` with `has_headers(false)` and collects
/// what `into_records` yields. Each record becomes its fields and the
/// position that the reader set on it; each error becomes its message. The
/// outcome is a function of the bytes alone, which [`csv_records`] names.
#[verifier::external_body]
fn read_records(data: &[u8]) -> (out: Vec<Result<PosStringRecord, String>>)
    ensures
        out@.map_values(|r: Result<PosStringRecord, String>| row_view(r)) == csv_records(data@),
{
    csv::ReaderBuilder::new().has_headers(false).from_reader(data).into_records().map(
        |r| match r {
            Ok(rec) => {
                let p = rec.position().cloned().unwrap_or_else(csv::Position::new);
                Ok(PosStringRecord {
                    position: Position { byte: p.byte(), line: p.line(), record: p.record() },
                    record: rec.iter().map(String::from).collect(),
                })
            },
            Err(e) => Err(e.to_string()),
        },
    ).collect()
}

/// A cursor over the rows of one table.
pub struct RecordReader {
    /// The rows not yet handed out, last one first.
    pending: Vec<Result<PosStringRecord, String>>,
}

impl RecordReader {
    /// The rows not yet handed out, in the order in which they will come.
    pub closed spec fn remaining(&self) -> Seq<Row> {
        Seq::new(
            self.pending@.len(),
            |i: int| row_view(self.pending@[self.pending@.len() - 1 - i]),
        )
    }

    /// A reader over the rows that the tokenizer finds in `data`.
    pub fn from_bytes(data: &[u8]) -> (reader: RecordReader)
        ensures
            reader.remaining() == csv_records(data@),
    {
        let forward = read_records(data);
        let reader = RecordReader { pending: crate::util::reversed(forward) };
        reader
    }

    /// A reader over rows that are already at hand.
    pub fn from_records(records: Vec<PosStringRecord>) -> (reader: RecordReader)
        ensures
            reader.remaining() == records@.map_values(|r: PosStringRecord| Ok::<_, Seq<char>>(r@)),
    {
        let mut forward = records;
        let ghost all = forward@;
        let mut pending: Vec<Result<PosStringRecord, String>> = Vec::new();
        while forward.len() > 0
            invariant
                forward@.len() + pending@.len() == all.len(),
                forward@ == all.take(forward@.len() as int),
                forall|i: int|
                    0 <= i < pending@.len() ==> pending@[i] == Ok::<PosStringRecord, String>(
                        all[all.len() - 1 - i],
                    ),
            decreases forward.len(),
        {
            let item = forward.pop().unwrap();
            pending.push(Ok(item));
        }
        let reader = RecordReader { pending };
        reader
    }

    /// How many rows are left.
    pub fn len(&self) -> (n: usize)
        ensures
            n == self.remaining().len(),
    {
        self.pending.len()
    }

    /// Hands out the next row, if one is left.
    pub fn next(&mut self) -> (r: Option<Result<PosStringRecord, String>>)
        ensures
            match r {
                Some(item) => old(self).remaining().len() > 0 && row_view(item) == old(
                    self,
                ).remaining()[0] && final(self).remaining() == old(self).remaining().drop_first(),
                None => old(self).remaining().len() == 0 && final(self).remaining() == old(
                    self,
                ).remaining(),
            },
    {
        let r = self.pending.pop();
        r
    }

    /// The row that will come after `ahead` others, without taking it.
    pub fn peek(&self, ahead: usize) -> (r: Option<&Result<PosStringRecord, String>>)
        ensures
            match r {
                Some(item) => ahead < self.remaining().len() && row_view(*item)
                    == self.remaining()[ahead as int],
                None => ahead >= self.remaining().len(),
            },
    {
        let n = self.pending.len();
        if ahead < n {
            Some(&self.pending[n - 1 - ahead])
        } else {
            None
        }
    }
}

} // verus!

use tlmcmddb::error::{ErrorKind, ParseError};
use tlmcmddb::record::{PosStringRecord, Position, RecordReader};
use tlmcmddb::util::{build_comment_text, check_header, next_record, try_next_record};

fn strings(cells: &[&str]) -> Vec<String> {
    cells.iter().map(|s| s.to_string()).collect()
}

#[test]
fn reader_hands_out_rows_with_their_positions() {
    let mut reader = RecordReader::from_bytes(b"a,b\n\"c\nd\",e\nf,g\n");
    assert_eq!(reader.len(), 3);
    assert_eq!(
        reader.next(),
        Some(Ok(PosStringRecord {
            position: Position { byte: 0, line: 1, record: 0 },
            record: strings(&["a", "b"]),
        }))
    );
    assert_eq!(
        reader.peek(1),
        Some(&Ok(PosStringRecord {
            position: Position { byte: 12, line: 4, record: 2 },
            record: strings(&["f", "g"]),
        }))
    );
    assert_eq!(
        reader.next(),
        Some(Ok(PosStringRecord {
            position: Position { byte: 4, line: 2, record: 1 },
            record: strings(&["c\nd", "e"]),
        }))
    );
    assert_eq!(reader.len(), 1);
    assert!(reader.next().is_some());
    assert_eq!(reader.next(), None);
    assert_eq!(reader.peek(0), None);
}

#[test]
fn reader_keeps_the_first_row_as_a_row() {
    let mut reader = RecordReader::from_bytes(b"Name,Value\nx,1\n");
    assert_eq!(reader.next().unwrap().unwrap().record, strings(&["Name", "Value"]));
}

#[test]
fn reader_reports_rows_that_the_tokenizer_rejects() {
    let mut reader = RecordReader::from_bytes(b"a,b\nc\nd,e\n");
    assert!(reader.next().unwrap().is_ok());
    assert!(reader.next().unwrap().is_err());
    assert_eq!(reader.next().unwrap().unwrap().record, strings(&["d", "e"]));
    let mut reader = RecordReader::from_bytes(b"a,\xff\n");
    assert!(reader.next().unwrap().is_err());
    assert_eq!(reader.next(), None);
}

#[test]
fn next_record_needs_a_row() {
    let mut reader = RecordReader::from_bytes(b"a,b\n");
    assert_eq!(next_record(&mut reader).unwrap().record, strings(&["a", "b"]));
    assert_eq!(
        next_record(&mut reader),
        Err(ParseError { position: None, kind: ErrorKind::UnexpectedEndOfInput })
    );
}

#[test]
fn try_next_record_stops_at_a_blank_row() {
    let mut reader = RecordReader::from_bytes(b"a,b\n,\nc,d\n");
    assert_eq!(try_next_record(&mut reader).unwrap().unwrap().record, strings(&["a", "b"]));
    assert_eq!(try_next_record(&mut reader), Ok(None));
    assert_eq!(reader.len(), 1);
    assert_eq!(try_next_record(&mut reader).unwrap().unwrap().record, strings(&["c", "d"]));
    assert_eq!(try_next_record(&mut reader), Ok(None));
    let mut reader = RecordReader::from_records(vec![PosStringRecord {
        position: Position { byte: 0, line: 1, record: 0 },
        record: vec![],
    }]);
    assert_eq!(try_next_record(&mut reader), Ok(None));
    assert_eq!(reader.len(), 0);
}

#[test]
fn header_cell_is_compared_after_unescaping() {
    assert_eq!(check_header("Note", "Note"), Ok(()));
    assert_eq!(check_header("Var.%%##Type", "Var.\r\nType"), Ok(()));
    assert_eq!(
        check_header("Var.%%##Type", "Var.%%##Type"),
        Err(ErrorKind::SchemaMismatch {
            expected: "Var.%%##Type".to_string(),
            actual: "Var.\r\nType".to_string(),
        })
    );
    assert_eq!(
        check_header("", "Note"),
        Err(ErrorKind::SchemaMismatch { expected: "Note".to_string(), actual: String::new() })
    );
}

#[test]
fn comment_text_joins_the_unescaped_cells() {
    assert_eq!(build_comment_text(&strings(&["#", "a@@b", "", "c##d"])), "#,a,b,,c\nd");
    assert_eq!(build_comment_text(&strings(&["only"])), "only");
    assert_eq!(build_comment_text(&strings(&["", ""])), ",");
    assert_eq!(build_comment_text(&[].to_vec()), "");
}

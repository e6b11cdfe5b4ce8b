use tlmcmddb::error::{ErrorKind, ParseError};
use tlmcmddb::record::{Position, RecordReader};
use tlmcmddb::tlm::metadata::{parse, parse_packet_id};
use tlmcmddb::tlm::Metadata;

fn table(rows: &[&str]) -> Vec<u8> {
    let mut text = String::new();
    for row in rows {
        text.push_str(row);
        text.push('\n');
    }
    text.into_bytes()
}

const VALID: [&str; 5] = [
    ",Target,OBC,Local Var",
    ",PacketID,0xf0,int offset = 0;",
    ",Enable/Disable,ENABLE,",
    ",IsRestricted,FALSE,",
    ",,,",
];

fn with_row(index: usize, row: &'static str) -> Vec<u8> {
    let mut rows = VALID;
    rows[index] = row;
    table(&rows)
}

fn kind_and_line(result: Result<Metadata, ParseError>) -> (ErrorKind, Option<u64>) {
    let error = result.unwrap_err();
    let line = error.line();
    (error.kind, line)
}

#[test]
fn metadata_test() {
    let csv = table(&VALID);
    let mut iter = RecordReader::from_bytes(csv.as_slice());
    let metadata = parse(&mut iter).unwrap();
    assert_eq!("OBC", metadata.target);
    assert_eq!(0xf0, metadata.packet_id);
    assert!(metadata.is_enabled);
    assert!(!metadata.is_restricted);
    assert!(iter.next().is_none());
}

#[test]
fn metadata_holds_every_field() {
    let csv = table(&[
        ",Target,A@@B,Local Var",
        ",PacketID,0x0A,int a = 1;##int b = 2;",
        ",Enable/Disable,DISABLE,",
        ",IsRestricted,TRUE,",
        ",,,",
        "next,,,",
    ]);
    let mut reader = RecordReader::from_bytes(&csv);
    assert_eq!(
        parse(&mut reader),
        Ok(Metadata {
            target: "A,B".to_string(),
            packet_id: 10,
            is_enabled: false,
            is_restricted: true,
            local_variables: "int a = 1;\nint b = 2;".to_string(),
        })
    );
    assert_eq!(reader.len(), 1);
    let rest = reader.next().unwrap().unwrap();
    assert_eq!(rest.record[0], "next");
    assert_eq!(rest.position.line, 6);
}

#[test]
fn metadata_rejects_a_wrong_label() {
    let mut reader = RecordReader::from_bytes(&with_row(0, ",Targets,OBC,Local Var"));
    assert_eq!(
        parse(&mut reader),
        Err(ParseError {
            position: Some(Position { byte: 0, line: 1, record: 0 }),
            kind: ErrorKind::SchemaMismatch {
                expected: "Target".to_string(),
                actual: "Targets".to_string(),
            },
        })
    );
    let mut reader = RecordReader::from_bytes(&with_row(0, ",Target,OBC,Local@@Var"));
    assert_eq!(
        kind_and_line(parse(&mut reader)),
        (
            ErrorKind::SchemaMismatch {
                expected: "Local Var".to_string(),
                actual: "Local,Var".to_string(),
            },
            Some(1)
        )
    );
    let mut reader = RecordReader::from_bytes(&with_row(3, ",Restricted,FALSE,"));
    assert_eq!(
        kind_and_line(parse(&mut reader)),
        (
            ErrorKind::SchemaMismatch {
                expected: "IsRestricted".to_string(),
                actual: "Restricted".to_string(),
            },
            Some(4)
        )
    );
}

#[test]
fn metadata_rejects_an_unknown_flag() {
    let mut reader = RecordReader::from_bytes(&with_row(2, ",Enable/Disable,enable,"));
    assert_eq!(kind_and_line(parse(&mut reader)), (ErrorKind::InvalidEnumValue, Some(3)));
    let mut reader = RecordReader::from_bytes(&with_row(3, ",IsRestricted,,"));
    assert_eq!(kind_and_line(parse(&mut reader)), (ErrorKind::InvalidEnumValue, Some(4)));
}

#[test]
fn metadata_rejects_a_packet_id_that_is_no_hexadecimal_byte() {
    let mut reader = RecordReader::from_bytes(&with_row(1, ",PacketID,f0,"));
    assert_eq!(kind_and_line(parse(&mut reader)), (ErrorKind::InvalidHexLiteral, Some(2)));
    let mut reader = RecordReader::from_bytes(&with_row(1, ",PacketID,0x100,"));
    assert_eq!(kind_and_line(parse(&mut reader)), (ErrorKind::InvalidHexLiteral, Some(2)));
}

#[test]
fn metadata_rejects_a_short_row() {
    let csv = table(&[",Target,OBC", ",PacketID,0xf0", ",Enable/Disable,ENABLE"]);
    let mut reader = RecordReader::from_bytes(&csv);
    assert_eq!(
        kind_and_line(parse(&mut reader)),
        (ErrorKind::ColumnCountMismatch { required: 4, found: 3 }, Some(1))
    );
}

#[test]
fn metadata_needs_five_rows() {
    let csv = table(&VALID[..4]);
    let mut reader = RecordReader::from_bytes(&csv);
    assert_eq!(kind_and_line(parse(&mut reader)), (ErrorKind::UnexpectedEndOfInput, None));
    assert_eq!(reader.len(), 0);
    let mut reader = RecordReader::from_bytes(b"");
    assert_eq!(kind_and_line(parse(&mut reader)), (ErrorKind::UnexpectedEndOfInput, None));
}

#[test]
fn metadata_stops_at_the_row_that_is_wrong() {
    let mut reader = RecordReader::from_bytes(&with_row(1, ",Packet,0xf0,"));
    assert!(parse(&mut reader).is_err());
    assert_eq!(reader.len(), 3);
}

#[test]
fn metadata_reports_what_the_tokenizer_rejects() {
    let csv = table(&[",Target,OBC,Local Var", ",PacketID,0xf0"]);
    let mut reader = RecordReader::from_bytes(&csv);
    let error = parse(&mut reader).unwrap_err();
    assert_eq!(error.position, None);
    assert!(matches!(error.kind, ErrorKind::Csv { .. }));
}

#[test]
fn packet_id_is_a_hexadecimal_byte() {
    assert_eq!(parse_packet_id("0xf0"), Ok(0xf0));
    assert_eq!(parse_packet_id("0x00"), Ok(0));
    assert_eq!(parse_packet_id("0xFF"), Ok(255));
    assert_eq!(parse_packet_id("0x0000000ff"), Ok(255));
    assert_eq!(parse_packet_id("0x+1"), Ok(1));
    assert_eq!(parse_packet_id("0x100"), Err(ErrorKind::InvalidHexLiteral));
    assert_eq!(parse_packet_id("0x"), Err(ErrorKind::InvalidHexLiteral));
    assert_eq!(parse_packet_id("0x-1"), Err(ErrorKind::InvalidHexLiteral));
    assert_eq!(parse_packet_id("0X10"), Err(ErrorKind::InvalidHexLiteral));
    assert_eq!(parse_packet_id("240"), Err(ErrorKind::InvalidHexLiteral));
    assert_eq!(parse_packet_id(""), Err(ErrorKind::InvalidHexLiteral));
    assert_eq!(parse_packet_id("0xg0"), Err(ErrorKind::InvalidHexLiteral));
}

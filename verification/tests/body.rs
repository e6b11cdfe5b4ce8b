use tlmcmddb::error::{ConversionField, ErrorKind, ParseError};
use tlmcmddb::record::RecordReader;
use tlmcmddb::tlm::body::{parse, parse_entries};
use tlmcmddb::tlm::line::{decode_line, line_model, LineModel};
use tlmcmddb::tlm::conversion::{Polynomial, Status, Variant};
use tlmcmddb::tlm::version::Version;
use tlmcmddb::tlm::{
    Comment, ConversionInfo, DisplayInfo, Entry, Field, FieldExtractionInfo, FieldGroup,
    OnboardSoftwareInfo, SubEntry, VariableType,
};

const V2: Version = Version { major: 2 };
const V3: Version = Version { major: 3 };

const HEADERS_V2: [&str; 3] = [
    "Comment,TLM Entry,Onboard Software Info.,,Extraction Info.,,,,Conversion Info.,,,,,,,,Description,Note",
    ",Name,Var.%%##Type,Variable or Function Name,Ext.%%##Type,Pos. Desiginator,,,Conv.%%##Type,Poly (\u{3a3}a_i * x^i),,,,,,Status,,",
    ",,,,,Octet%%##Pos.,bit%%##Pos.,bit%%##Len.,,a0,a1,a2,a3,a4,a5,,,",
];

const HEADERS_V3: [&str; 3] = [
    "Comment,TLM Entry,Onboard Software Info.,,Extraction Info.,,,,Conversion Info.,,,,,,,,Display Info.,,,Description,Note",
    ",Name,Var.%%##Type,Variable or Function Name,Ext.%%##Type,Pos. Desiginator,,,Conv.%%##Type,Poly (\u{3a3}a_i * x^i),,,,,,Status,Label,Unit,Format,,",
    ",,,,,Octet%%##Pos.,bit%%##Pos.,bit%%##Len.,,a0,a1,a2,a3,a4,a5,,,,,,",
];

fn table(headers: &[&str], rows: &[&str]) -> Vec<u8> {
    let mut text = String::new();
    for row in headers.iter().chain(rows.iter()) {
        text.push_str(row);
        text.push('\n');
    }
    text.into_bytes()
}

fn read(version: Version, headers: &[&str], rows: &[&str]) -> Result<Vec<Entry>, ParseError> {
    let mut reader = RecordReader::from_bytes(&table(headers, rows));
    parse(&mut reader, version)
}

fn kind_and_line(result: Result<Vec<Entry>, ParseError>) -> (ErrorKind, Option<u64>) {
    let error = result.unwrap_err();
    let line = error.line();
    (error.kind, line)
}

fn field(name: &str, octet: usize, bit: usize, length: usize, conversion: ConversionInfo) -> Field {
    Field {
        name: name.to_string(),
        extraction_info: FieldExtractionInfo {
            extraction_type: "PACKET".to_string(),
            octet_position: octet,
            bit_position: bit,
            bit_length: length,
        },
        conversion_info: conversion,
        description: String::new(),
        note: String::new(),
        display_info: DisplayInfo { label: None, unit: None, format: None },
    }
}

fn group(variable_type: VariableType, expression: &str, sub_entries: Vec<SubEntry>) -> Entry {
    Entry::FieldGroup(FieldGroup {
        onboard_software_info: OnboardSoftwareInfo {
            variable_type,
            expression: expression.to_string(),
        },
        sub_entries,
    })
}

fn cells(row: &str) -> Vec<String> {
    row.split(',').map(|s| s.to_string()).collect()
}

#[test]
fn body_test() {
    let entries = read(
        V2,
        &HEADERS_V2,
        &[
            "*,section one,,,,,,,,,,,,,,,,",
            ",PH.VER,uint16_t,packet->header.version,PACKET,0,0,3,NONE,,,,,,,,version,",
            ",PH.TYPE,,,PACKET,0,3,1,STATUS,,,,,,,0=TLM@@ 1=CMD@@*=N/A,type,see##spec",
            "*,inside the group,,,,,,,,,,,,,,,,",
            ",TEMP,float,(float)temp,PACKET,2,0,32,POLY,1.5,-2e3,,,,,,temperature,",
            ",MODE,uint8_t,mode,PACKET,0x06,0,8,HEX,,,,,,,,mode,",
        ],
    )
    .unwrap();
    let expected = vec![
        Entry::Comment(Comment { text: "*,section one,,,,,,,,,,,,,,,,".to_string() }),
        group(
            VariableType::Uint16,
            "packet->header.version",
            vec![
                SubEntry::Field(Field {
                    description: "version".to_string(),
                    ..field("PH.VER", 0, 0, 3, ConversionInfo::Identity)
                }),
                SubEntry::Field(Field {
                    description: "type".to_string(),
                    note: "see\nspec".to_string(),
                    ..field(
                        "PH.TYPE",
                        0,
                        3,
                        1,
                        ConversionInfo::Status(Status {
                            variants: vec![
                                Variant { key: 0, value: "TLM".to_string() },
                                Variant { key: 1, value: "CMD".to_string() },
                            ],
                            default_value: Some("N/A".to_string()),
                        }),
                    )
                }),
                SubEntry::Comment(Comment { text: "*,inside the group,,,,,,,,,,,,,,,,".to_string() }),
            ],
        ),
        group(
            VariableType::Float,
            "(float)temp",
            vec![SubEntry::Field(Field {
                description: "temperature".to_string(),
                ..field(
                    "TEMP",
                    2,
                    0,
                    32,
                    ConversionInfo::Polynomial(Polynomial {
                        a0: "1.5".to_string(),
                        a1: "-2e3".to_string(),
                        a2: "0.0".to_string(),
                        a3: "0.0".to_string(),
                        a4: "0.0".to_string(),
                        a5: "0.0".to_string(),
                    }),
                )
            })],
        ),
        group(
            VariableType::Uint8,
            "mode",
            vec![SubEntry::Field(Field {
                description: "mode".to_string(),
                ..field("MODE", 6, 0, 8, ConversionInfo::Hex)
            })],
        ),
    ];
    assert_eq!(expected, entries)
}

#[test]
fn two_group_rows_in_a_row_give_two_groups() {
    let entries = read(
        V2,
        &HEADERS_V2,
        &[
            ",A,uint8_t,a,PACKET,0,0,8,NONE,,,,,,,,,",
            ",B,uint8_t,b,PACKET,1,0,4,NONE,,,,,,,,,",
            ",B2,,,PACKET,1,4,4,NONE,,,,,,,,,",
        ],
    )
    .unwrap();
    assert_eq!(
        entries,
        vec![
            group(
                VariableType::Uint8,
                "a",
                vec![SubEntry::Field(field("A", 0, 0, 8, ConversionInfo::Identity))]
            ),
            group(
                VariableType::Uint8,
                "b",
                vec![
                    SubEntry::Field(field("B", 1, 0, 4, ConversionInfo::Identity)),
                    SubEntry::Field(field("B2", 1, 4, 4, ConversionInfo::Identity)),
                ]
            ),
        ]
    );
}

#[test]
fn body_without_rows_has_no_entries() {
    assert_eq!(read(V2, &HEADERS_V2, &[]), Ok(vec![]));
}

#[test]
fn body_ends_at_a_blank_row() {
    let mut reader = RecordReader::from_bytes(&table(
        &HEADERS_V2,
        &[
            ",A,uint8_t,a,PACKET,0,0,8,NONE,,,,,,,,,",
            ",,,,,,,,,,,,,,,,,",
            ",B,uint8_t,b,PACKET,1,0,8,NONE,,,,,,,,,",
        ],
    ));
    let entries = parse(&mut reader, V2).unwrap();
    assert_eq!(
        entries,
        vec![group(
            VariableType::Uint8,
            "a",
            vec![SubEntry::Field(field("A", 0, 0, 8, ConversionInfo::Identity))]
        )]
    );
    assert_eq!(reader.len(), 1);
}

#[test]
fn field_without_a_group_is_rejected() {
    assert_eq!(
        kind_and_line(read(V2, &HEADERS_V2, &[",B2,,,PACKET,1,4,4,NONE,,,,,,,,,"])),
        (ErrorKind::UnexpectedField, Some(4))
    );
    assert_eq!(
        kind_and_line(read(
            V2,
            &HEADERS_V2,
            &["*,comment,,,,,,,,,,,,,,,,", ",B2,,,PACKET,1,4,4,NONE,,,,,,,,,"]
        )),
        (ErrorKind::UnexpectedField, Some(5))
    );
}

#[test]
fn field_row_may_not_name_an_expression() {
    assert_eq!(
        kind_and_line(read(
            V2,
            &HEADERS_V2,
            &[
                ",A,uint8_t,a,PACKET,0,0,8,NONE,,,,,,,,,",
                ",B,,b,PACKET,1,0,8,NONE,,,,,,,,,"
            ]
        )),
        (ErrorKind::UnexpectedExpression, Some(5))
    );
}

#[test]
fn group_row_may_leave_the_expression_out() {
    assert_eq!(
        read(V2, &HEADERS_V2, &[",A,double,,PACKET,0,0,64,NONE,,,,,,,,,"]),
        Ok(vec![group(
            VariableType::Double,
            "",
            vec![SubEntry::Field(field("A", 0, 0, 64, ConversionInfo::Identity))]
        )])
    );
}

#[test]
fn body_rejects_cells_that_break_the_row_layout() {
    let bad = |row: &'static str| kind_and_line(read(V2, &HEADERS_V2, &[row])).0;
    assert_eq!(bad(",A,uint64_t,a,PACKET,0,0,8,NONE,,,,,,,,,"), ErrorKind::InvalidEnumValue);
    assert_eq!(bad(",A,uint8_t,a,PACKET,x,0,8,NONE,,,,,,,,,"), ErrorKind::InvalidNumber);
    assert_eq!(bad(",A,uint8_t,a,PACKET,0,-1,8,NONE,,,,,,,,,"), ErrorKind::InvalidNumber);
    assert_eq!(bad(",A,uint8_t,a,PACKET,0,0,,NONE,,,,,,,,,"), ErrorKind::InvalidNumber);
    assert_eq!(bad(",A,uint8_t,a,PACKET,0,0,8,,,,,,,,,,"), ErrorKind::InvalidEnumValue);
    assert_eq!(bad(",A,uint8_t,a,PACKET,0,0,8,none,,,,,,,,,"), ErrorKind::InvalidEnumValue);
    assert_eq!(bad(",A,uint8_t,a,PACKET,0,0,8,POLY,1,2,x,,,,,,"), ErrorKind::InvalidNumber);
    assert_eq!(bad(",A,uint8_t,a,PACKET,0,0,8,NONE,,,,,,1e,,,"), ErrorKind::InvalidNumber);
    assert_eq!(
        bad(",A,uint8_t,a,PACKET,0,0,8,NONE,,,,,,1e5,,,"),
        ErrorKind::InvalidConversionInfo { field: ConversionField::A5 }
    );
    assert_eq!(
        bad(",A,uint8_t,a,PACKET,0,0,8,STATUS,,,,,,,,,"),
        ErrorKind::InvalidConversionInfo { field: ConversionField::Status }
    );
    assert_eq!(bad(",A,uint8_t,a,PACKET,0,0,8,STATUS,,,,,,,1=A@@1=B,,"), ErrorKind::DuplicateStatusKey { key: 1 });
}

#[test]
fn coefficient_cells_hold_floating_point_literals() {
    let accepted = [
        "0", "1.", ".5", "+1.5", "-0.25", "1e10", "1E-3", "2.5e+7", "inf", "-Infinity", "NaN", "+nan", "007",
    ];
    for literal in accepted {
        let row = format!(",A,uint8_t,a,PACKET,0,0,8,POLY,{},,,,,,,,", literal);
        let entries = read(V2, &HEADERS_V2, &[row.as_str()]).unwrap();
        assert!(literal.parse::<f64>().is_ok());
        match &entries[0] {
            Entry::FieldGroup(g) => match &g.sub_entries[0] {
                SubEntry::Field(f) => match &f.conversion_info {
                    ConversionInfo::Polynomial(p) => assert_eq!(p.a0, literal),
                    _ => panic!("not a polynomial"),
                },
                _ => panic!("not a field"),
            },
            _ => panic!("not a group"),
        }
    }
    let rejected = [".", "e5", "1e", "1e+", "+", "-", "1.5.2", "1 ", " 1", "0x10", "1_000", "infinit", "nane", "1f", "--1"];
    for literal in rejected {
        let row = format!(",A,uint8_t,a,PACKET,0,0,8,POLY,{},,,,,,,,", literal);
        assert!(literal.parse::<f64>().is_err());
        assert_eq!(
            kind_and_line(read(V2, &HEADERS_V2, &[row.as_str()])),
            (ErrorKind::InvalidNumber, Some(4))
        );
    }
}

#[test]
fn body_rejects_a_row_that_is_too_short() {
    let mut reader = RecordReader::from_bytes(b",A,uint8_t,a,PACKET,0,0,8,NONE\n");
    assert_eq!(
        kind_and_line(parse_entries(&mut reader, V2)),
        (ErrorKind::ColumnCountMismatch { required: 18, found: 9 }, Some(1))
    );
    let mut reader =
        RecordReader::from_bytes(b",A,uint8_t,a,PACKET,0,0,8,NONE,,,,,,,,,\n");
    assert_eq!(
        kind_and_line(parse_entries(&mut reader, V3)),
        (ErrorKind::ColumnCountMismatch { required: 21, found: 18 }, Some(1))
    );
}

#[test]
fn body_headers_are_held_to_their_labels() {
    let mut headers = HEADERS_V2;
    headers[0] = "Comment,TLM Entry,Onboard Software Info.,,Extraction Info.,,,,Conversion,,,,,,,,Description,Note";
    assert_eq!(
        kind_and_line(read(V2, &headers, &[])),
        (
            ErrorKind::SchemaMismatch {
                expected: "Conversion Info.".to_string(),
                actual: "Conversion".to_string()
            },
            Some(1)
        )
    );
    let mut headers = HEADERS_V2;
    headers[1] = ",Name,,Variable or Function Name,,Pos. Desiginator,,,,Poly,,,,,,Status,,";
    assert_eq!(
        kind_and_line(read(V2, &headers, &[])),
        (
            ErrorKind::SchemaMismatch {
                expected: "Poly (\u{3a3}a_i * x^i)".to_string(),
                actual: "Poly".to_string()
            },
            Some(2)
        )
    );
    let mut headers = HEADERS_V2;
    headers[2] = ",,,,,,,,,a0,a1,a2,a3,a4,A5,,,";
    assert_eq!(
        kind_and_line(read(V2, &headers, &[])),
        (ErrorKind::SchemaMismatch { expected: "a5".to_string(), actual: "A5".to_string() }, Some(3))
    );
    assert_eq!(
        kind_and_line(read(V2, &HEADERS_V2[..2], &[])),
        (ErrorKind::UnexpectedEndOfInput, None)
    );
}

#[test]
fn body_headers_leave_the_spanned_columns_unchecked() {
    let headers = [
        "Comment,TLM Entry,Onboard Software Info.,x,Extraction Info.,x,x,x,Conversion Info.,x,x,x,x,x,x,x,Description,Note",
        "x,Name,x,Variable or Function Name,x,Pos. Desiginator,x,x,x,Poly (\u{3a3}a_i * x^i),x,x,x,x,x,Status,x,x",
        "x,x,x,x,x,x,x,x,x,a0,a1,a2,a3,a4,a5,x,x,x",
    ];
    assert_eq!(read(V2, &headers, &[]), Ok(vec![]));
}

#[test]
fn headers_of_the_second_generation_do_not_fit_the_third() {
    assert_eq!(
        kind_and_line(read(V3, &HEADERS_V2, &[])),
        (ErrorKind::ColumnCountMismatch { required: 21, found: 18 }, Some(1))
    );
    assert_eq!(
        kind_and_line(read(V2, &HEADERS_V3, &[])),
        (
            ErrorKind::SchemaMismatch {
                expected: "Description".to_string(),
                actual: "Display Info.".to_string()
            },
            Some(1)
        )
    );
}

#[test]
fn third_generation_reads_the_display_columns() {
    let entries = read(
        V3,
        &HEADERS_V3,
        &[
            ",TEMP,float,temp,PACKET,2,0,32,POLY,1,,,,,,,Temperature,degC,%.2f,temperature,dev",
            ",RAW,,,PACKET,6,0,8,NONE,,,,,,,,,,,raw,",
        ],
    )
    .unwrap();
    assert_eq!(
        entries,
        vec![group(
            VariableType::Float,
            "temp",
            vec![
                SubEntry::Field(Field {
                    description: "temperature".to_string(),
                    note: "dev".to_string(),
                    display_info: DisplayInfo {
                        label: Some("Temperature".to_string()),
                        unit: Some("degC".to_string()),
                        format: Some("%.2f".to_string()),
                    },
                    ..field(
                        "TEMP",
                        2,
                        0,
                        32,
                        ConversionInfo::Polynomial(Polynomial {
                            a0: "1".to_string(),
                            a1: "0.0".to_string(),
                            a2: "0.0".to_string(),
                            a3: "0.0".to_string(),
                            a4: "0.0".to_string(),
                            a5: "0.0".to_string(),
                        })
                    )
                }),
                SubEntry::Field(Field {
                    description: "raw".to_string(),
                    ..field("RAW", 6, 0, 8, ConversionInfo::Identity)
                }),
            ]
        )]
    );
}

#[test]
fn second_generation_has_no_display_information() {
    let line = decode_line(&cells(",A,uint8_t,a,PACKET,0,0,8,NONE,,,,,,,,label,unit,format,description,note"), V2)
        .unwrap();
    assert_eq!(line.display_label, None);
    assert_eq!(line.display_unit, None);
    assert_eq!(line.display_format, None);
    assert_eq!(line.description, "label");
    assert_eq!(line.note, "unit");
    match line_model(line).unwrap() {
        LineModel::BitFieldGroup(g) => match &g.sub_entries[0] {
            SubEntry::Field(f) => {
                assert_eq!(f.display_info, DisplayInfo { label: None, unit: None, format: None })
            }
            _ => panic!("not a field"),
        },
        _ => panic!("not a group"),
    }
}

#[test]
fn numeric_cells_may_be_hexadecimal() {
    let line = decode_line(&cells(",A,uint8_t,a,PACKET,0x10,+3,0x0000008,NONE,,,,,,,,,"), V2).unwrap();
    assert_eq!(line.octet_position, 16);
    assert_eq!(line.bit_position, 3);
    assert_eq!(line.bit_length, 8);
    assert_eq!(
        decode_line(&cells(",A,uint8_t,a,PACKET,18446744073709551616,0,8,NONE,,,,,,,,,"), V2).err(),
        Some(ErrorKind::InvalidNumber)
    );
}

use tlmcmddb::cmd::{
    command_of, decode_line, parse, parse_csv, Command, Comment, DataType, Database, Entry,
    Parameter,
};
use tlmcmddb::error::{ErrorKind, ParseError};
use tlmcmddb::record::RecordReader;

const HEADERS: [&str; 3] = [
    "Component,Name,Target,Code,Params,,,,,,,,,,,,,Danger Flag,Is Restricted,Description,Note",
    "MOBC,,,,Num Params,Param1,,Param2,,Param3,,Param4,,Param5,,Param6,,,,,",
    "Comment,,,,,Type,Description,Type,Description,Type,Description,Type,Description,Type,Description,Type,Description,,,,",
];

fn table(headers: &[&str], rows: &[&str]) -> Vec<u8> {
    let mut text = String::new();
    for row in headers.iter().chain(rows.iter()) {
        text.push_str(row);
        text.push('\n');
    }
    text.into_bytes()
}

fn read(rows: &[&str]) -> Result<(String, Database), ParseError> {
    parse_csv(&table(&HEADERS, rows))
}

fn kind_and_line(result: Result<(String, Database), ParseError>) -> (ErrorKind, Option<u64>) {
    let error = result.unwrap_err();
    let line = error.line();
    (error.kind, line)
}

fn command(name: &str, code: u16, parameters: Vec<Parameter>) -> Command {
    Command {
        name: name.to_string(),
        target: "OBC".to_string(),
        code,
        parameters,
        is_danger: false,
        is_restricted: false,
        description: String::new(),
        note: String::new(),
    }
}

fn parameter(data_type: DataType, description: &str) -> Parameter {
    Parameter { data_type, description: description.to_string() }
}

fn cells(row: &str) -> Vec<String> {
    row.split(',').map(|s| s.to_string()).collect()
}

#[test]
fn cmd_test() {
    let csv = table(
        &HEADERS,
        &[
            ",Cmd_NOP,OBC,0x0000,0,,,,,,,,,,,,,,,no operation,",
            "*,section@@ one,,,,,,,,,,,,,,,,,,,",
            ",Cmd_SET,OBC,0x0012,2,uint8_t,index,int32_t,value,,,,,,,,,danger,,set a value,first##second",
            ",Cmd_ALL,OBC,0xFFFF,6,int8_t,a,int16_t,b,uint16_t,c,uint32_t,d,float,e,raw,f,,restricted,,",
            ",Cmd_DBL,OBC,0x1,1,double,x,,,,,,,,,,,danger,restricted,,",
        ],
    );
    let expected = Database {
        entries: vec![
            Entry::Command(Command {
                description: "no operation".to_string(),
                ..command("Cmd_NOP", 0, vec![])
            }),
            Entry::Comment(Comment { text: "*,section, one,,,,,,,,,,,,,,,,,,,".to_string() }),
            Entry::Command(Command {
                is_danger: true,
                description: "set a value".to_string(),
                note: "first\nsecond".to_string(),
                ..command(
                    "Cmd_SET",
                    0x12,
                    vec![parameter(DataType::Uint8, "index"), parameter(DataType::Int32, "value")],
                )
            }),
            Entry::Command(Command {
                is_restricted: true,
                ..command(
                    "Cmd_ALL",
                    0xffff,
                    vec![
                        parameter(DataType::Int8, "a"),
                        parameter(DataType::Int16, "b"),
                        parameter(DataType::Uint16, "c"),
                        parameter(DataType::Uint32, "d"),
                        parameter(DataType::Float, "e"),
                        parameter(DataType::Raw, "f"),
                    ],
                )
            }),
            Entry::Command(Command {
                is_danger: true,
                is_restricted: true,
                ..command("Cmd_DBL", 1, vec![parameter(DataType::Double, "x")])
            }),
        ],
    };
    let mut iter = RecordReader::from_bytes(csv.as_slice());
    let (_component, actual) = parse(&mut iter).unwrap();
    assert_eq!(expected, actual);
}

#[test]
fn component_name_comes_from_the_second_header_row() {
    let (component, database) = read(&[]).unwrap();
    assert_eq!(component, "MOBC");
    assert_eq!(database, Database { entries: vec![] });
    let mut headers = HEADERS;
    headers[1] = "AOBC@@2,,,,Num Params,Param1,,Param2,,Param3,,Param4,,Param5,,Param6,,,,,";
    let (component, _) = parse_csv(&table(&headers, &[])).unwrap();
    assert_eq!(component, "AOBC,2");
}

#[test]
fn parameters_beyond_the_count_are_ignored() {
    let (_, database) =
        read(&[",Cmd,OBC,0x01,1,uint8_t,used,,no type,bogus,unknown type,int8_t,unused,,,,,,,,"])
            .unwrap();
    assert_eq!(
        database.entries,
        vec![Entry::Command(command("Cmd", 1, vec![parameter(DataType::Uint8, "used")]))]
    );
    let (_, database) =
        read(&[",Cmd,OBC,0x01,0,bogus,a,bogus,b,bogus,c,bogus,d,bogus,e,bogus,f,,,,"]).unwrap();
    assert_eq!(database.entries, vec![Entry::Command(command("Cmd", 1, vec![]))]);
}

#[test]
fn parameters_within_the_count_need_a_type() {
    assert_eq!(
        kind_and_line(read(&[",Cmd,OBC,0x01,1,,a,,,,,,,,,,,,,,"])),
        (ErrorKind::MissingParameterType { index: 1 }, Some(4))
    );
    assert_eq!(
        kind_and_line(read(&[",Cmd,OBC,0x01,3,uint8_t,a,uint8_t,b,,c,,,,,,,,,,"])),
        (ErrorKind::MissingParameterType { index: 3 }, Some(4))
    );
    assert_eq!(
        kind_and_line(read(&[",Cmd,OBC,0x01,6,uint8_t,a,uint8_t,b,raw,c,raw,d,raw,e,,f,,,,"])),
        (ErrorKind::MissingParameterType { index: 6 }, Some(4))
    );
    assert_eq!(
        kind_and_line(read(&[",Cmd,OBC,0x01,2,uint8_t,a,uint64_t,b,,,,,,,,,,,,"])),
        (ErrorKind::InvalidEnumValue, Some(4))
    );
    assert_eq!(
        kind_and_line(read(&[",Cmd,OBC,0x01,2,,a,uint64_t,b,,,,,,,,,,,,"])),
        (ErrorKind::MissingParameterType { index: 1 }, Some(4))
    );
}

#[test]
fn more_than_six_parameters_are_rejected() {
    assert_eq!(
        kind_and_line(read(&[",Cmd,OBC,0x01,7,raw,a,raw,b,raw,c,raw,d,raw,e,raw,f,,,,"])),
        (ErrorKind::TooManyParameters { count: 7 }, Some(4))
    );
    assert_eq!(
        kind_and_line(read(&[",Cmd,OBC,0x01,0x10,,,,,,,,,,,,,,,,"])),
        (ErrorKind::TooManyParameters { count: 16 }, Some(4))
    );
}

#[test]
fn command_code_is_a_hexadecimal_number_of_sixteen_bits() {
    let code = |text: &str| {
        let row = format!(",Cmd,OBC,{},0,,,,,,,,,,,,,,,,", text);
        read(&[row.as_str()]).map(|(_, database)| match &database.entries[0] {
            Entry::Command(c) => c.code,
            _ => panic!("not a command"),
        })
    };
    assert_eq!(code("0x0000"), Ok(0));
    assert_eq!(code("0xabCD"), Ok(0xabcd));
    assert_eq!(code("0xffff"), Ok(0xffff));
    assert_eq!(code("0x10000").unwrap_err().kind, ErrorKind::InvalidHexLiteral);
    assert_eq!(code("1234").unwrap_err().kind, ErrorKind::InvalidHexLiteral);
    assert_eq!(code("").unwrap_err().kind, ErrorKind::InvalidHexLiteral);
    assert_eq!(code("0xZZ").unwrap_err().kind, ErrorKind::InvalidHexLiteral);
    assert_eq!(code("x12").unwrap_err().kind, ErrorKind::InvalidHexLiteral);
}

#[test]
fn flags_are_set_by_their_token_alone() {
    assert_eq!(
        kind_and_line(read(&[",Cmd,OBC,0x01,0,,,,,,,,,,,,,DANGER,,,"])),
        (ErrorKind::InvalidEnumValue, Some(4))
    );
    assert_eq!(
        kind_and_line(read(&[",Cmd,OBC,0x01,0,,,,,,,,,,,,,,yes,,"])),
        (ErrorKind::InvalidEnumValue, Some(4))
    );
    assert_eq!(
        kind_and_line(read(&[",Cmd,OBC,0x01,0,,,,,,,,,,,,,restricted,danger,,"])),
        (ErrorKind::InvalidEnumValue, Some(4))
    );
}

#[test]
fn parameter_count_is_a_number() {
    assert_eq!(
        kind_and_line(read(&[",Cmd,OBC,0x01,,,,,,,,,,,,,,,,,"])),
        (ErrorKind::InvalidNumber, Some(4))
    );
    assert_eq!(
        kind_and_line(read(&[",Cmd,OBC,0x01,two,,,,,,,,,,,,,,,,"])),
        (ErrorKind::InvalidNumber, Some(4))
    );
    assert_eq!(
        kind_and_line(read(&[",Cmd,OBC,0x01,-1,,,,,,,,,,,,,,,,"])),
        (ErrorKind::InvalidNumber, Some(4))
    );
}

#[test]
fn command_headers_are_held_to_their_labels() {
    let mut headers = HEADERS;
    headers[0] =
        "Component,Name,Target,Code,Params,,,,,,,,,,,,,Danger,Is Restricted,Description,Note";
    assert_eq!(
        kind_and_line(parse_csv(&table(&headers, &[]))),
        (
            ErrorKind::SchemaMismatch {
                expected: "Danger Flag".to_string(),
                actual: "Danger".to_string()
            },
            Some(1)
        )
    );
    let mut headers = HEADERS;
    headers[1] = "MOBC,,,,Num Params,Param1,,Param2,,Param3,,Param4,,Param5,,Param7,,,,,";
    assert_eq!(
        kind_and_line(parse_csv(&table(&headers, &[]))),
        (
            ErrorKind::SchemaMismatch {
                expected: "Param6".to_string(),
                actual: "Param7".to_string()
            },
            Some(2)
        )
    );
    let mut headers = HEADERS;
    headers[2] = "Comments,,,,,Type,Description,Type,Description,Type,Description,Type,Description,Type,Description,Type,Description,,,,";
    assert_eq!(
        kind_and_line(parse_csv(&table(&headers, &[]))),
        (
            ErrorKind::SchemaMismatch {
                expected: "Comment".to_string(),
                actual: "Comments".to_string()
            },
            Some(3)
        )
    );
    assert_eq!(
        kind_and_line(parse_csv(&table(&HEADERS[..1], &[]))),
        (ErrorKind::UnexpectedEndOfInput, None)
    );
    assert_eq!(
        kind_and_line(parse_csv(b"Component,Name,Target\n")),
        (ErrorKind::ColumnCountMismatch { required: 21, found: 3 }, Some(1))
    );
}

#[test]
fn command_body_ends_at_a_blank_row() {
    let (_, database) = read(&[
        ",Cmd_A,OBC,0x01,0,,,,,,,,,,,,,,,,",
        ",,,,,,,,,,,,,,,,,,,,",
        ",Cmd_B,OBC,0x02,0,,,,,,,,,,,,,,,,",
    ])
    .unwrap();
    assert_eq!(database.entries, vec![Entry::Command(command("Cmd_A", 1, vec![]))]);
}

#[test]
fn command_row_is_decoded_by_its_columns() {
    let line = decode_line(&cells(
        ",name,target,0x0a,0x2,t1,d1,t2,d2,t3,d3,t4,d4,t5,d5,t6,d6,danger,,description,note,more",
    ))
    .unwrap();
    assert_eq!(line.command_name, "name");
    assert_eq!(line.target, "target");
    assert_eq!(line.code, 10);
    assert_eq!(line.num_params, 2);
    assert_eq!(
        line.param_types,
        ["t1", "t2", "t3", "t4", "t5", "t6"].map(|s| Some(s.to_string())).to_vec()
    );
    assert_eq!(line.param_descriptions, ["d1", "d2", "d3", "d4", "d5", "d6"].map(String::from).to_vec());
    assert!(line.danger_flag);
    assert!(!line.is_restricted);
    assert_eq!(line.description, "description");
    assert_eq!(line.note, "note");
    assert_eq!(command_of(line).err(), Some(ErrorKind::InvalidEnumValue));
    assert_eq!(
        decode_line(&cells(",name,target,0x0a,0")).err(),
        Some(ErrorKind::ColumnCountMismatch { required: 21, found: 5 })
    );
}

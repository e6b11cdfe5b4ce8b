//! Command definitions of one component, and the parser of the table that
//! they are written in.

use crate::error::{ErrorKind, ErrorKindView, ParseError, ParseErrorView, at};
use crate::escape::{unescape, unescape_chars};
use crate::record::{PosStringRecordView, RecordReader, Row, cells_view, csv_records};
use crate::text::{
    chars_of, hex_literal, number_literal, option_text, optional_cell, parse_hex, parse_number,
    str_eq,
};
use crate::util::{
    Label, LabelView, Outcome, after_one, build_comment_text, check_schema, check_schema_spec,
    comment_text, labels_view, next_record, read_row, try_next_record, try_next_record_spec,
};
use vstd::prelude::*;

verus! {

/// The command definitions of one component.
#[derive(Debug, Clone, PartialEq, Eq)]
pub struct Database {
    pub entries: Vec<Entry>,
}

/// One row of a command table.
#[derive(Debug, Clone, PartialEq, Eq)]
pub enum Entry {
    Command(Command),
    Comment(Comment),
}

/// One command.
#[derive(Debug, Clone, PartialEq, Eq)]
pub struct Command {
    pub name: String,
    pub target: String,
    pub code: u16,
    /// At most six.
    pub parameters: Vec<Parameter>,
    pub is_danger: bool,
    pub is_restricted: bool,
    /// For operators.
    pub description: String,
    /// For developers.
    pub note: String,
}

/// One parameter of a command.
#[derive(Debug, Clone, PartialEq, Eq)]
pub struct Parameter {
    pub data_type: DataType,
    pub description: String,
}

/// The type of a command parameter.
#[derive(Debug, Clone, Copy, PartialEq, Eq, Hash, Structural)]
pub enum DataType {
    Int8,
    Int16,
    Int32,
    Uint8,
    Uint16,
    Uint32,
    Float,
    Double,
    /// Bytes of any length.
    Raw,
}

/// A comment row.
#[derive(Debug, Clone, PartialEq, Eq)]
pub struct Comment {
    pub text: String,
}

/// The mathematical value of a [`Database`].
pub struct DatabaseView {
    pub entries: Seq<EntryView>,
}

/// The mathematical value of a [`Entry`].
pub enum EntryView {
    Command(CommandView),
    Comment(Seq<char>),
}

/// The mathematical value of a [`Command`].
pub struct CommandView {
    pub name: Seq<char>,
    pub target: Seq<char>,
    pub code: u16,
    pub parameters: Seq<ParameterView>,
    pub is_danger: bool,
    pub is_restricted: bool,
    pub description: Seq<char>,
    pub note: Seq<char>,
}

/// The mathematical value of a [`Parameter`].
pub struct ParameterView {
    pub data_type: DataType,
    pub description: Seq<char>,
}

/// The values of a sequence of entries.
pub open spec fn entries_view(entries: Seq<Entry>) -> Seq<EntryView> {
    entries.map_values(|e: Entry| e@)
}

/// The values of a sequence of parameters.
pub open spec fn parameters_view(parameters: Seq<Parameter>) -> Seq<ParameterView> {
    parameters.map_values(|p: Parameter| p@)
}

impl View for Database {
    type V = DatabaseView;

    open spec fn view(&self) -> DatabaseView {
        DatabaseView { entries: entries_view(self.entries@) }
    }
}

impl View for Entry {
    type V = EntryView;

    open spec fn view(&self) -> EntryView {
        match *self {
            Entry::Command(command) => EntryView::Command(command@),
            Entry::Comment(comment) => EntryView::Comment(comment.text@),
        }
    }
}

impl View for Command {
    type V = CommandView;

    open spec fn view(&self) -> CommandView {
        CommandView {
            name: self.name@,
            target: self.target@,
            code: self.code,
            parameters: parameters_view(self.parameters@),
            is_danger: self.is_danger,
            is_restricted: self.is_restricted,
            description: self.description@,
            note: self.note@,
        }
    }
}

impl View for Parameter {
    type V = ParameterView;

    open spec fn view(&self) -> ParameterView {
        ParameterView { data_type: self.data_type, description: self.description@ }
    }
}

/// The data type that a token names.
pub open spec fn data_type_of(token: Seq<char>) -> Option<DataType> {
    if token == "int8_t"@ {
        Some(DataType::Int8)
    } else if token == "int16_t"@ {
        Some(DataType::Int16)
    } else if token == "int32_t"@ {
        Some(DataType::Int32)
    } else if token == "uint8_t"@ {
        Some(DataType::Uint8)
    } else if token == "uint16_t"@ {
        Some(DataType::Uint16)
    } else if token == "uint32_t"@ {
        Some(DataType::Uint32)
    } else if token == "float"@ {
        Some(DataType::Float)
    } else if token == "double"@ {
        Some(DataType::Double)
    } else if token == "raw"@ {
        Some(DataType::Raw)
    } else {
        None
    }
}

/// Reads the token of a data type.
pub fn parse_data_type(token: &str) -> (r: Option<DataType>)
    ensures
        r == data_type_of(token@),
{
    if str_eq(token, "int8_t") {
        Some(DataType::Int8)
    } else if str_eq(token, "int16_t") {
        Some(DataType::Int16)
    } else if str_eq(token, "int32_t") {
        Some(DataType::Int32)
    } else if str_eq(token, "uint8_t") {
        Some(DataType::Uint8)
    } else if str_eq(token, "uint16_t") {
        Some(DataType::Uint16)
    } else if str_eq(token, "uint32_t") {
        Some(DataType::Uint32)
    } else if str_eq(token, "float") {
        Some(DataType::Float)
    } else if str_eq(token, "double") {
        Some(DataType::Double)
    } else if str_eq(token, "raw") {
        Some(DataType::Raw)
    } else {
        None
    }
}

/// The most parameters that a command can have.
pub open spec fn max_params() -> usize {
    6
}

/// The number of cells that a row of the body must have.
pub open spec fn line_width() -> usize {
    21
}

/// The column that holds the type of the parameter `index`, counted from 0.
pub open spec fn type_column(index: int) -> int {
    5 + 2 * index
}

/// The column that holds the description of the parameter `index`, counted
/// from 0.
pub open spec fn description_column(index: int) -> int {
    6 + 2 * index
}

/// The cells of a command row, read by their columns. The cells of the six
/// parameters are kept as they stand.
pub struct Line {
    pub command_name: String,
    pub target: String,
    pub code: u16,
    pub num_params: usize,
    pub param_types: Vec<Option<String>>,
    pub param_descriptions: Vec<String>,
    pub danger_flag: bool,
    pub is_restricted: bool,
    pub description: String,
    pub note: String,
}

/// The mathematical value of a [`Line`].
pub struct LineView {
    pub command_name: Seq<char>,
    pub target: Seq<char>,
    pub code: u16,
    pub num_params: usize,
    pub param_types: Seq<Option<Seq<char>>>,
    pub param_descriptions: Seq<Seq<char>>,
    pub danger_flag: bool,
    pub is_restricted: bool,
    pub description: Seq<char>,
    pub note: Seq<char>,
}

impl View for Line {
    type V = LineView;

    open spec fn view(&self) -> LineView {
        LineView {
            command_name: self.command_name@,
            target: self.target@,
            code: self.code,
            num_params: self.num_params,
            param_types: self.param_types@.map_values(|t: Option<String>| option_text(t)),
            param_descriptions: cells_view(self.param_descriptions@),
            danger_flag: self.danger_flag,
            is_restricted: self.is_restricted,
            description: self.description@,
            note: self.note@,
        }
    }
}

impl Line {
    /// Whether the row holds the cells of all six parameters.
    pub open spec fn wf(&self) -> bool {
        self.param_types.len() == max_params() && self.param_descriptions.len() == max_params()
    }
}

/// The command code that a cell holds: a hexadecimal number of sixteen bits
/// after `0x`.
pub open spec fn code_of_cell(cell: Seq<char>) -> Option<u16> {
    match hex_literal(cell, 0, 0xffff) {
        Some(n) => Some(n as u16),
        None => None,
    }
}

/// The parameter count that a cell holds.
pub open spec fn count_of_cell(cell: Seq<char>) -> Option<usize> {
    match number_literal(cell, 0, usize::MAX as int) {
        Some(n) => Some(n as usize),
        None => None,
    }
}

/// The flag that a cell holds: set by `token`, not set by an empty cell.
pub open spec fn marker_of_cell(cell: Seq<char>, token: Seq<char>) -> Option<bool> {
    if cell.len() == 0 {
        Some(false)
    } else if cell == token {
        Some(true)
    } else {
        None
    }
}

/// What is wrong with the cells of a command row, taken in the order of
/// the columns, if anything is.
pub open spec fn line_error(cells: Seq<Seq<char>>) -> Option<ErrorKindView> {
    if cells.len() < line_width() {
        Some(
            ErrorKindView::ColumnCountMismatch {
                required: line_width(),
                found: cells.len() as usize,
            },
        )
    } else if code_of_cell(cells[3]) is None {
        Some(ErrorKindView::InvalidHexLiteral)
    } else if count_of_cell(cells[4]) is None {
        Some(ErrorKindView::InvalidNumber)
    } else if marker_of_cell(cells[17], "danger"@) is None || marker_of_cell(
        cells[18],
        "restricted"@,
    ) is None {
        Some(ErrorKindView::InvalidEnumValue)
    } else {
        None
    }
}

/// The cells of a command row by their columns.
pub open spec fn line_value(cells: Seq<Seq<char>>) -> LineView {
    LineView {
        command_name: cells[1],
        target: cells[2],
        code: code_of_cell(cells[3]).unwrap(),
        num_params: count_of_cell(cells[4]).unwrap(),
        param_types: Seq::new(
            max_params() as nat,
            |i: int| optional_cell(cells[type_column(i)]),
        ),
        param_descriptions: Seq::new(max_params() as nat, |i: int| cells[description_column(i)]),
        danger_flag: marker_of_cell(cells[17], "danger"@).unwrap(),
        is_restricted: marker_of_cell(cells[18], "restricted"@).unwrap(),
        description: cells[19],
        note: cells[20],
    }
}

/// The reading of a command row.
pub open spec fn decode_line_spec(cells: Seq<Seq<char>>) -> Result<LineView, ErrorKindView> {
    match line_error(cells) {
        Some(e) => Err(e),
        None => Ok(line_value(cells)),
    }
}

/// The parameter `index`, counted from 0, of a row. Its type must be given
/// and known.
pub open spec fn parameter_spec(line: LineView, index: int) -> Result<
    ParameterView,
    ErrorKindView,
> {
    match line.param_types[index] {
        None => Err(ErrorKindView::MissingParameterType { index: (index + 1) as usize }),
        Some(token) => match data_type_of(token) {
            None => Err(ErrorKindView::InvalidEnumValue),
            Some(data_type) => Ok(
                ParameterView {
                    data_type,
                    description: unescape_chars(line.param_descriptions[index]),
                },
            ),
        },
    }
}

/// The first `count` parameters of a row.
pub open spec fn parameters_spec(line: LineView, count: int) -> Result<
    Seq<ParameterView>,
    ErrorKindView,
>
    decreases count,
{
    if count <= 0 {
        Ok(Seq::empty())
    } else {
        match parameters_spec(line, count - 1) {
            Err(e) => Err(e),
            Ok(parameters) => match parameter_spec(line, count - 1) {
                Err(e) => Err(e),
                Ok(parameter) => Ok(parameters.push(parameter)),
            },
        }
    }
}

/// The command that a row describes. It has as many parameters as the row
/// counts; what the row holds for further parameters has no part in it.
pub open spec fn command_spec(line: LineView) -> Result<CommandView, ErrorKindView> {
    if line.num_params > max_params() {
        Err(ErrorKindView::TooManyParameters { count: line.num_params })
    } else {
        match parameters_spec(line, line.num_params as int) {
            Err(e) => Err(e),
            Ok(parameters) => Ok(
                CommandView {
                    name: unescape_chars(line.command_name),
                    target: unescape_chars(line.target),
                    code: line.code,
                    parameters,
                    is_danger: line.danger_flag,
                    is_restricted: line.is_restricted,
                    description: unescape_chars(line.description),
                    note: unescape_chars(line.note),
                },
            ),
        }
    }
}

/// The command that the cells of a row describe.
pub open spec fn row_command_spec(cells: Seq<Seq<char>>) -> Result<CommandView, ErrorKindView> {
    match decode_line_spec(cells) {
        Err(e) => Err(e),
        Ok(line) => command_spec(line),
    }
}

/// Reads a flag that is set by `token`.
fn parse_marker(cell: &str, token: &str) -> (r: Option<bool>)
    ensures
        r == marker_of_cell(cell@, token@),
{
    if cell.is_empty() {
        Some(false)
    } else if str_eq(cell, token) {
        Some(true)
    } else {
        None
    }
}

/// Reads a command row by its columns.
pub fn decode_line(cells: &Vec<String>) -> (r: Result<Line, ErrorKind>)
    ensures
        match r {
            Ok(line) => decode_line_spec(cells_view(cells@)) == Ok::<_, ErrorKindView>(line@)
                && line.wf(),
            Err(e) => decode_line_spec(cells_view(cells@)) == Err::<LineView, _>(e@),
        },
{
    let ghost all = cells_view(cells@);
    if cells.len() < 21 {
        return Err(ErrorKind::ColumnCountMismatch { required: 21, found: cells.len() });
    }
    let code_text = chars_of(cells[3].as_str());
    let code: u16 = match parse_hex(&code_text, 0, 0xffff) {
        Some(n) => n as u16,
        None => {
            return Err(ErrorKind::InvalidHexLiteral);
        },
    };
    let count_text = chars_of(cells[4].as_str());
    let num_params: usize = match parse_number(&count_text, 0, usize::MAX as i128) {
        Some(n) => n as usize,
        None => {
            return Err(ErrorKind::InvalidNumber);
        },
    };
    let danger_flag = match parse_marker(cells[17].as_str(), "danger") {
        Some(flag) => flag,
        None => {
            return Err(ErrorKind::InvalidEnumValue);
        },
    };
    let is_restricted = match parse_marker(cells[18].as_str(), "restricted") {
        Some(flag) => flag,
        None => {
            return Err(ErrorKind::InvalidEnumValue);
        },
    };
    let mut param_types: Vec<Option<String>> = Vec::new();
    let mut param_descriptions: Vec<String> = Vec::new();
    let mut i: usize = 0;
    while i < 6
        invariant
            i <= 6,
            cells.len() >= 21,
            all == cells_view(cells@),
            param_types.len() == i,
            param_descriptions.len() == i,
            forall|j: int|
                0 <= j < i ==> option_text(#[trigger] param_types@[j]) == optional_cell(
                    all[type_column(j)],
                ),
            forall|j: int|
                0 <= j < i ==> (#[trigger] param_descriptions@[j])@ == all[description_column(j)],
        decreases 6 - i,
    {
        let type_cell = &cells[5 + 2 * i];
        let kind = if type_cell.as_str().is_empty() {
            None
        } else {
            Some(type_cell.clone())
        };
        param_types.push(kind);
        param_descriptions.push(cells[6 + 2 * i].clone());
        i += 1;
    }
    let line = Line {
        command_name: cells[1].clone(),
        target: cells[2].clone(),
        code,
        num_params,
        param_types,
        param_descriptions,
        danger_flag,
        is_restricted,
        description: cells[19].clone(),
        note: cells[20].clone(),
    };
    assert(line@.param_types =~= line_value(all).param_types);
    assert(line@.param_descriptions =~= line_value(all).param_descriptions);
    Ok(line)
}

proof fn lemma_parameters_error_persists(line: LineView, failed: int, count: int)
    requires
        0 <= failed <= count,
        parameters_spec(line, failed) is Err,
    ensures
        parameters_spec(line, count) == parameters_spec(line, failed),
    decreases count - failed,
{
    if failed < count {
        lemma_parameters_error_persists(line, failed, count - 1);
    }
}

/// Builds the command that a row describes.
pub fn command_of(line: Line) -> (r: Result<Command, ErrorKind>)
    requires
        line.wf(),
    ensures
        match r {
            Ok(command) => command_spec(line@) == Ok::<_, ErrorKindView>(command@)
                && command.parameters.len() == line.num_params <= max_params(),
            Err(e) => command_spec(line@) == Err::<CommandView, _>(e@),
        },
{
    if line.num_params > 6 {
        return Err(ErrorKind::TooManyParameters { count: line.num_params });
    }
    let mut parameters: Vec<Parameter> = Vec::new();
    let mut i: usize = 0;
    assert(parameters_view(parameters@) =~= Seq::<ParameterView>::empty());
    while i < line.num_params
        invariant
            i <= line.num_params <= 6,
            line.param_types.len() == 6,
            line.param_descriptions.len() == 6,
            parameters.len() == i,
            parameters_spec(line@, i as int) == Ok::<_, ErrorKindView>(
                parameters_view(parameters@),
            ),
        decreases line.num_params - i,
    {
        let ghost before = parameters@;
        proof {
            if parameter_spec(line@, i as int) is Err {
                lemma_parameters_error_persists(line@, i + 1, line.num_params as int);
            }
        }
        let data_type = match &line.param_types[i] {
            None => {
                return Err(ErrorKind::MissingParameterType { index: i + 1 });
            },
            Some(token) => match parse_data_type(token.as_str()) {
                None => {
                    return Err(ErrorKind::InvalidEnumValue);
                },
                Some(data_type) => data_type,
            },
        };
        let description = unescape(line.param_descriptions[i].as_str());
        parameters.push(Parameter { data_type, description });
        assert(parameters_view(parameters@) =~= parameters_view(before).push(
            ParameterView { data_type, description: description@ },
        ));
        i += 1;
    }
    Ok(
        Command {
            name: unescape(line.command_name.as_str()),
            target: unescape(line.target.as_str()),
            code: line.code,
            parameters,
            is_danger: line.danger_flag,
            is_restricted: line.is_restricted,
            description: unescape(line.description.as_str()),
            note: unescape(line.note.as_str()),
        },
    )
}

/// The labels of the first header row.
pub open spec fn first_header_labels() -> Seq<LabelView> {
    seq![
        LabelView { column: 0, text: "Component"@ },
        LabelView { column: 1, text: "Name"@ },
        LabelView { column: 2, text: "Target"@ },
        LabelView { column: 3, text: "Code"@ },
        LabelView { column: 4, text: "Params"@ },
        LabelView { column: 17, text: "Danger Flag"@ },
        LabelView { column: 18, text: "Is Restricted"@ },
        LabelView { column: 19, text: "Description"@ },
        LabelView { column: 20, text: "Note"@ },
    ]
}

/// The labels of the second header row, whose first cell names the
/// component.
pub open spec fn second_header_labels() -> Seq<LabelView> {
    seq![
        LabelView { column: 4, text: "Num Params"@ },
        LabelView { column: 5, text: "Param1"@ },
        LabelView { column: 7, text: "Param2"@ },
        LabelView { column: 9, text: "Param3"@ },
        LabelView { column: 11, text: "Param4"@ },
        LabelView { column: 13, text: "Param5"@ },
        LabelView { column: 15, text: "Param6"@ },
    ]
}

/// The labels of the third header row.
pub open spec fn third_header_labels() -> Seq<LabelView> {
    seq![
        LabelView { column: 0, text: "Comment"@ },
        LabelView { column: 5, text: "Type"@ },
        LabelView { column: 6, text: "Description"@ },
        LabelView { column: 7, text: "Type"@ },
        LabelView { column: 8, text: "Description"@ },
        LabelView { column: 9, text: "Type"@ },
        LabelView { column: 10, text: "Description"@ },
        LabelView { column: 11, text: "Type"@ },
        LabelView { column: 12, text: "Description"@ },
        LabelView { column: 13, text: "Type"@ },
        LabelView { column: 14, text: "Description"@ },
        LabelView { column: 15, text: "Type"@ },
        LabelView { column: 16, text: "Description"@ },
    ]
}

/// The entry that a row of the body stands for: a command if its first
/// cell is empty, a comment otherwise.
pub open spec fn row_entry_spec(row: PosStringRecordView) -> Result<EntryView, ParseErrorView> {
    if row.record.len() < line_width() {
        Err(
            at(
                row.position,
                ErrorKindView::ColumnCountMismatch {
                    required: line_width(),
                    found: row.record.len() as usize,
                },
            ),
        )
    } else if row.record[0].len() == 0 {
        match row_command_spec(row.record) {
            Err(kind) => Err(at(row.position, kind)),
            Ok(command) => Ok(EntryView::Command(command)),
        }
    } else {
        Ok(EntryView::Comment(comment_text(row.record)))
    }
}

/// What reading the rows of a body gives, `entries` being those of the
/// rows before. The body ends with the rows or at a blank row.
pub open spec fn body_entries_spec(entries: Seq<EntryView>, rows: Seq<Row>) -> Outcome<
    Seq<EntryView>,
>
    decreases rows.len(),
{
    match try_next_record_spec(rows) {
        Err(e) => Outcome { result: Err(e), rest: after_one(rows) },
        Ok(None) => Outcome { result: Ok(entries), rest: after_one(rows) },
        Ok(Some(row)) => match row_entry_spec(row) {
            Err(e) => Outcome { result: Err(e), rest: after_one(rows) },
            Ok(entry) => body_entries_spec(entries.push(entry), after_one(rows)),
        },
    }
}

/// What reading the body of a command table gives.
pub open spec fn parse_body_spec(rows: Seq<Row>) -> Outcome<Seq<EntryView>> {
    body_entries_spec(Seq::empty(), rows)
}

/// What holding the first header row to its layout gives.
pub open spec fn check_first_header_spec(cells: Seq<Seq<char>>) -> Result<(), ErrorKindView> {
    check_schema_spec(cells, 21, first_header_labels())
}

/// What the second header row gives: the name of the component, which its
/// first cell holds.
pub open spec fn parse_second_header_spec(cells: Seq<Seq<char>>) -> Result<
    Seq<char>,
    ErrorKindView,
> {
    match check_schema_spec(cells, 16, second_header_labels()) {
        Err(e) => Err(e),
        Ok(()) => Ok(unescape_chars(cells[0])),
    }
}

/// What holding the third header row to its layout gives.
pub open spec fn check_third_header_spec(cells: Seq<Seq<char>>) -> Result<(), ErrorKindView> {
    check_schema_spec(cells, 17, third_header_labels())
}

/// What reading a command table gives: the name of the component and the
/// commands.
pub open spec fn parse_spec(rows: Seq<Row>) -> Outcome<(Seq<char>, DatabaseView)> {
    let second = after_one(rows);
    let third = after_one(second);
    let body = after_one(third);
    match read_row(rows, |cells: Seq<Seq<char>>| check_first_header_spec(cells)) {
        Err(e) => Outcome { result: Err(e), rest: second },
        Ok(()) => match read_row(second, |cells: Seq<Seq<char>>| parse_second_header_spec(cells)) {
            Err(e) => Outcome { result: Err(e), rest: third },
            Ok(component) => match read_row(
                third,
                |cells: Seq<Seq<char>>| check_third_header_spec(cells),
            ) {
                Err(e) => Outcome { result: Err(e), rest: body },
                Ok(()) => {
                    let read = parse_body_spec(body);
                    match read.result {
                        Err(e) => Outcome { result: Err(e), rest: read.rest },
                        Ok(entries) => Outcome {
                            result: Ok((component, DatabaseView { entries })),
                            rest: read.rest,
                        },
                    }
                },
            },
        },
    }
}

/// Holds the first header row to its layout.
pub fn check_first_header(record: &Vec<String>) -> (r: Result<(), ErrorKind>)
    ensures
        match r {
            Ok(()) => check_first_header_spec(cells_view(record@)) == Ok::<(), ErrorKindView>(()),
            Err(e) => check_first_header_spec(cells_view(record@)) == Err::<(), _>(e@),
        },
{
    let labels = vec![
        Label { column: 0, text: "Component" },
        Label { column: 1, text: "Name" },
        Label { column: 2, text: "Target" },
        Label { column: 3, text: "Code" },
        Label { column: 4, text: "Params" },
        Label { column: 17, text: "Danger Flag" },
        Label { column: 18, text: "Is Restricted" },
        Label { column: 19, text: "Description" },
        Label { column: 20, text: "Note" },
    ];
    assert(labels_view(labels@) =~= first_header_labels());
    check_schema(record, 21, &labels)
}

/// Holds the second header row to its layout and reads the name of the
/// component.
pub fn parse_second_header(record: &Vec<String>) -> (r: Result<String, ErrorKind>)
    ensures
        match r {
            Ok(component) => parse_second_header_spec(cells_view(record@)) == Ok::<
                _,
                ErrorKindView,
            >(component@),
            Err(e) => parse_second_header_spec(cells_view(record@)) == Err::<Seq<char>, _>(e@),
        },
{
    let labels = vec![
        Label { column: 4, text: "Num Params" },
        Label { column: 5, text: "Param1" },
        Label { column: 7, text: "Param2" },
        Label { column: 9, text: "Param3" },
        Label { column: 11, text: "Param4" },
        Label { column: 13, text: "Param5" },
        Label { column: 15, text: "Param6" },
    ];
    assert(labels_view(labels@) =~= second_header_labels());
    match check_schema(record, 16, &labels) {
        Err(e) => Err(e),
        Ok(()) => {
            Ok(unescape(record[0].as_str()))
        },
    }
}

/// Holds the third header row to its layout.
pub fn check_third_header(record: &Vec<String>) -> (r: Result<(), ErrorKind>)
    ensures
        match r {
            Ok(()) => check_third_header_spec(cells_view(record@)) == Ok::<(), ErrorKindView>(()),
            Err(e) => check_third_header_spec(cells_view(record@)) == Err::<(), _>(e@),
        },
{
    let labels = vec![
        Label { column: 0, text: "Comment" },
        Label { column: 5, text: "Type" },
        Label { column: 6, text: "Description" },
        Label { column: 7, text: "Type" },
        Label { column: 8, text: "Description" },
        Label { column: 9, text: "Type" },
        Label { column: 10, text: "Description" },
        Label { column: 11, text: "Type" },
        Label { column: 12, text: "Description" },
        Label { column: 13, text: "Type" },
        Label { column: 14, text: "Description" },
        Label { column: 15, text: "Type" },
        Label { column: 16, text: "Description" },
    ];
    assert(labels_view(labels@) =~= third_header_labels());
    check_schema(record, 17, &labels)
}

/// The comment that a row stands for.
pub fn build_comment(cells: &Vec<String>) -> (comment: Comment)
    ensures
        comment.text@ == comment_text(cells_view(cells@)),
{
    Comment { text: build_comment_text(cells) }
}

/// Reads the body of a command table.
pub fn parse_body(reader: &mut RecordReader) -> (r: Result<Vec<Entry>, ParseError>)
    ensures
        match r {
            Ok(entries) => parse_body_spec(old(reader).remaining()).result == Ok::<
                _,
                ParseErrorView,
            >(entries_view(entries@)),
            Err(e) => parse_body_spec(old(reader).remaining()).result == Err::<
                Seq<EntryView>,
                _,
            >(e@),
        },
        final(reader).remaining() == parse_body_spec(old(reader).remaining()).rest,
{
    let mut entries: Vec<Entry> = Vec::new();
    let ghost goal = parse_body_spec(old(reader).remaining());
    assert(entries_view(entries@) =~= Seq::<EntryView>::empty());
    loop
        invariant_except_break
            body_entries_spec(entries_view(entries@), reader.remaining()) == goal,
        invariant
            goal == parse_body_spec(old(reader).remaining()),
        ensures
            goal.result == Ok::<_, ParseErrorView>(entries_view(entries@)),
            reader.remaining() == goal.rest,
        decreases reader.remaining().len(),
    {
        let record = match try_next_record(reader) {
            Err(e) => {
                return Err(e);
            },
            Ok(None) => {
                break ;
            },
            Ok(Some(record)) => record,
        };
        let ghost before = entries@;
        if record.record.len() < 21 {
            return Err(
                ParseError::at(
                    record.position,
                    ErrorKind::ColumnCountMismatch { required: 21, found: record.record.len() },
                ),
            );
        }
        let entry = if record.record[0].as_str().is_empty() {
            let line = match decode_line(&record.record) {
                Ok(line) => line,
                Err(kind) => {
                    return Err(ParseError::at(record.position, kind));
                },
            };
            match command_of(line) {
                Ok(command) => Entry::Command(command),
                Err(kind) => {
                    return Err(ParseError::at(record.position, kind));
                },
            }
        } else {
            Entry::Comment(build_comment(&record.record))
        };
        entries.push(entry);
        assert(entries_view(entries@) =~= entries_view(before).push(entry@));
    }
    Ok(entries)
}

/// Reads a command table: three header rows, then the body.
pub fn parse(reader: &mut RecordReader) -> (r: Result<(String, Database), ParseError>)
    ensures
        match r {
            Ok((component, database)) => parse_spec(old(reader).remaining()).result == Ok::<
                _,
                ParseErrorView,
            >((component@, database@)),
            Err(e) => parse_spec(old(reader).remaining()).result == Err::<
                (Seq<char>, DatabaseView),
                _,
            >(e@),
        },
        final(reader).remaining() == parse_spec(old(reader).remaining()).rest,
{
    let first = match next_record(reader) {
        Ok(row) => row,
        Err(e) => {
            return Err(e);
        },
    };
    match check_first_header(&first.record) {
        Ok(()) => {},
        Err(kind) => {
            return Err(ParseError::at(first.position, kind));
        },
    }
    let second = match next_record(reader) {
        Ok(row) => row,
        Err(e) => {
            return Err(e);
        },
    };
    let component = match parse_second_header(&second.record) {
        Ok(component) => component,
        Err(kind) => {
            return Err(ParseError::at(second.position, kind));
        },
    };
    let third = match next_record(reader) {
        Ok(row) => row,
        Err(e) => {
            return Err(e);
        },
    };
    match check_third_header(&third.record) {
        Ok(()) => {},
        Err(kind) => {
            return Err(ParseError::at(third.position, kind));
        },
    }
    match parse_body(reader) {
        Ok(entries) => Ok((component, Database { entries })),
        Err(e) => Err(e),
    }
}

/// Reads a command table from its bytes.
pub fn parse_csv(data: &[u8]) -> (r: Result<(String, Database), ParseError>)
    ensures
        match r {
            Ok((component, database)) => parse_spec(csv_records(data@)).result == Ok::<
                _,
                ParseErrorView,
            >((component@, database@)),
            Err(e) => parse_spec(csv_records(data@)).result == Err::<
                (Seq<char>, DatabaseView),
                _,
            >(e@),
        },
{
    let mut reader = RecordReader::from_bytes(data);
    parse(&mut reader)
}

/// Whether the parameter `index` of a row has a type that is given and
/// known.
pub open spec fn has_known_type(line: LineView, index: int) -> bool {
    line.param_types[index] matches Some(token) && data_type_of(token) is Some
}

proof fn lemma_parameters(line: LineView, count: int)
    requires
        0 <= count,
    ensures
        parameters_spec(line, count) matches Ok(parameters) ==> parameters.len() == count
            && (forall|i: int| 0 <= i < count ==> #[trigger] has_known_type(line, i))
            && forall|i: int|
            0 <= i < count ==> (#[trigger] parameters[i]) == (ParameterView {
                data_type: data_type_of(line.param_types[i]->0)->0,
                description: unescape_chars(line.param_descriptions[i]),
            }),
        (forall|i: int| 0 <= i < count ==> #[trigger] has_known_type(line, i))
            ==> parameters_spec(line, count) is Ok,
    decreases count,
{
    if count > 0 {
        lemma_parameters(line, count - 1);
        if forall|i: int| 0 <= i < count ==> #[trigger] has_known_type(line, i) {
            assert(has_known_type(line, count - 1));
        }
    }
}

/// A row makes a command exactly if it counts at most six parameters and
/// gives a known type for each of them. The command then has the counted
/// parameters, each with the type and the description that the row gives
/// for it, in the order of the row. A row that counts more than six is
/// refused for that.
pub proof fn lemma_command_parameters(line: LineView)
    ensures
        command_spec(line) is Ok <==> line.num_params <= max_params() && forall|i: int|
            0 <= i < line.num_params ==> #[trigger] has_known_type(line, i),
        command_spec(line) matches Ok(command) ==> command.parameters.len() == line.num_params
            && forall|i: int|
            0 <= i < line.num_params ==> (#[trigger] command.parameters[i]) == (ParameterView {
                data_type: data_type_of(line.param_types[i]->0)->0,
                description: unescape_chars(line.param_descriptions[i]),
            }),
        line.num_params > max_params() ==> command_spec(line) == Err::<CommandView, _>(
            ErrorKindView::TooManyParameters { count: line.num_params },
        ),
{
    lemma_parameters(line, line.num_params as int);
}

proof fn lemma_parameters_depend_on_counted(line: LineView, other: LineView, count: int)
    requires
        forall|i: int|
            0 <= i < count ==> line.param_types[i] == other.param_types[i]
                && line.param_descriptions[i] == other.param_descriptions[i],
    ensures
        parameters_spec(line, count) == parameters_spec(other, count),
    decreases count,
{
    if count > 0 {
        lemma_parameters_depend_on_counted(line, other, count - 1);
    }
}

/// Whether the column `column` holds the type or the description of a
/// parameter that the row `cells` does not count.
pub open spec fn is_beyond_count(cells: Seq<Seq<char>>, column: int) -> bool {
    cells.len() > 4 && (count_of_cell(cells[4]) matches Some(count) && type_column(count as int)
        <= column < type_column(max_params() as int))
}

/// What a row holds for parameters beyond its count has no part in what
/// the row gives: two rows that differ in such cells alone give the same
/// command, or are refused for the same reason.
pub proof fn lemma_parameters_beyond_count_ignored(cells: Seq<Seq<char>>, other: Seq<Seq<char>>)
    requires
        cells.len() == other.len(),
        forall|column: int|
            0 <= column < cells.len() && !is_beyond_count(cells, column) ==> cells[column]
                == other[column],
    ensures
        row_command_spec(cells) == row_command_spec(other),
{
    if cells.len() >= line_width() {
        if line_error(cells) is None {
            let line = line_value(cells);
            let other_line = line_value(other);
            if line.num_params <= max_params() {
                lemma_parameters_depend_on_counted(line, other_line, line.num_params as int);
            }
        }
    }
}

} // verus!

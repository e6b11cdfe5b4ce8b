//! One row of a telemetry body that is no comment: its cells by their
//! columns, and the field or the group that it stands for.

use crate::error::{ErrorKind, ErrorKindView};
use crate::escape::{unescape, unescape_chars};
use crate::record::cells_view;
use crate::text::{
    chars_of, is_float, is_float_literal, number_literal, option_text, optional_cell, parse_number,
    str_eq,
};
use crate::tlm::{
    ConversionInfoView, DisplayInfo, DisplayInfoView, Field, FieldExtractionInfo,
    FieldExtractionInfoView, FieldGroup, FieldGroupView, FieldView, OnboardSoftwareInfo,
    OnboardSoftwareInfoView, SubEntry, SubEntryView, VariableType,
};

use crate::tlm::validator::{
    ConversionType, LineConversionInfo, LineConversionInfoView, coefficients_are_literals,
    conversion_info, conversion_info_spec, lemma_zero_coefficient_is_literal,
};
use crate::tlm::version::Version;
use vstd::prelude::*;

verus! {

/// The variable type that a token names.
pub open spec fn variable_type_of(token: Seq<char>) -> Option<VariableType> {
    if token == "int8_t"@ {
        Some(VariableType::Int8)
    } else if token == "int16_t"@ {
        Some(VariableType::Int16)
    } else if token == "int32_t"@ {
        Some(VariableType::Int32)
    } else if token == "uint8_t"@ {
        Some(VariableType::Uint8)
    } else if token == "uint16_t"@ {
        Some(VariableType::Uint16)
    } else if token == "uint32_t"@ {
        Some(VariableType::Uint32)
    } else if token == "float"@ {
        Some(VariableType::Float)
    } else if token == "double"@ {
        Some(VariableType::Double)
    } else {
        None
    }
}

/// The conversion type that a token names.
pub open spec fn conversion_type_of(token: Seq<char>) -> Option<ConversionType> {
    if token == "NONE"@ {
        Some(ConversionType::Identity)
    } else if token == "HEX"@ {
        Some(ConversionType::Hex)
    } else if token == "STATUS"@ {
        Some(ConversionType::Status)
    } else if token == "POLY"@ {
        Some(ConversionType::Poly)
    } else {
        None
    }
}

/// Reads the token of a variable type.
pub fn parse_variable_type(token: &str) -> (r: Option<VariableType>)
    ensures
        r == variable_type_of(token@),
{
    if str_eq(token, "int8_t") {
        Some(VariableType::Int8)
    } else if str_eq(token, "int16_t") {
        Some(VariableType::Int16)
    } else if str_eq(token, "int32_t") {
        Some(VariableType::Int32)
    } else if str_eq(token, "uint8_t") {
        Some(VariableType::Uint8)
    } else if str_eq(token, "uint16_t") {
        Some(VariableType::Uint16)
    } else if str_eq(token, "uint32_t") {
        Some(VariableType::Uint32)
    } else if str_eq(token, "float") {
        Some(VariableType::Float)
    } else if str_eq(token, "double") {
        Some(VariableType::Double)
    } else {
        None
    }
}

/// Reads the token of a conversion type.
pub fn parse_conversion_type(token: &str) -> (r: Option<ConversionType>)
    ensures
        r == conversion_type_of(token@),
{
    if str_eq(token, "NONE") {
        Some(ConversionType::Identity)
    } else if str_eq(token, "HEX") {
        Some(ConversionType::Hex)
    } else if str_eq(token, "STATUS") {
        Some(ConversionType::Status)
    } else if str_eq(token, "POLY") {
        Some(ConversionType::Poly)
    } else {
        None
    }
}

/// The unsigned number that a cell holds.
pub open spec fn size_of_cell(cell: Seq<char>) -> Option<usize> {
    match number_literal(cell, 0, usize::MAX as int) {
        Some(n) => Some(n as usize),
        None => None,
    }
}

/// Reads the unsigned number that a cell holds.
pub fn parse_size(cell: &str) -> (r: Option<usize>)
    ensures
        r == size_of_cell(cell@),
{
    let v = chars_of(cell);
    match parse_number(&v, 0, usize::MAX as i128) {
        Some(n) => Some(n as usize),
        None => None,
    }
}

/// Whether a coefficient cell holds what it may: nothing, or a
/// floating-point literal.
pub open spec fn is_coefficient_cell(cell: Seq<char>) -> bool {
    cell.len() == 0 || is_float_literal(cell)
}

/// The cells of a row that is no comment, read by their columns.
pub struct Line {
    pub field_name: String,
    pub variable_type: Option<VariableType>,
    pub expression: Option<String>,
    pub extraction_type: String,
    pub octet_position: usize,
    pub bit_position: usize,
    pub bit_length: usize,
    pub conversion: LineConversionInfo,
    pub display_label: Option<String>,
    pub display_unit: Option<String>,
    pub display_format: Option<String>,
    pub description: String,
    pub note: String,
}

/// The mathematical value of a [`Line`].
pub struct LineView {
    pub field_name: Seq<char>,
    pub variable_type: Option<VariableType>,
    pub expression: Option<Seq<char>>,
    pub extraction_type: Seq<char>,
    pub octet_position: usize,
    pub bit_position: usize,
    pub bit_length: usize,
    pub conversion: LineConversionInfoView,
    pub display_label: Option<Seq<char>>,
    pub display_unit: Option<Seq<char>>,
    pub display_format: Option<Seq<char>>,
    pub description: Seq<char>,
    pub note: Seq<char>,
}

impl View for Line {
    type V = LineView;

    open spec fn view(&self) -> LineView {
        LineView {
            field_name: self.field_name@,
            variable_type: self.variable_type,
            expression: option_text(self.expression),
            extraction_type: self.extraction_type@,
            octet_position: self.octet_position,
            bit_position: self.bit_position,
            bit_length: self.bit_length,
            conversion: self.conversion@,
            display_label: option_text(self.display_label),
            display_unit: option_text(self.display_unit),
            display_format: option_text(self.display_format),
            description: self.description@,
            note: self.note@,
        }
    }
}

/// The number of cells that a row of the given generation must have.
pub open spec fn line_width(version: Version) -> usize {
    if version.has_display_info() {
        21
    } else {
        18
    }
}

/// What is wrong with the cells of a row, taken in the order of the
/// columns, if anything is.
pub open spec fn line_error(cells: Seq<Seq<char>>, version: Version) -> Option<ErrorKindView> {
    if cells.len() < line_width(version) {
        Some(
            ErrorKindView::ColumnCountMismatch {
                required: line_width(version),
                found: cells.len() as usize,
            },
        )
    } else if cells[2].len() > 0 && variable_type_of(cells[2]) is None {
        Some(ErrorKindView::InvalidEnumValue)
    } else if size_of_cell(cells[5]) is None || size_of_cell(cells[6]) is None || size_of_cell(
        cells[7],
    ) is None {
        Some(ErrorKindView::InvalidNumber)
    } else if conversion_type_of(cells[8]) is None {
        Some(ErrorKindView::InvalidEnumValue)
    } else if !is_coefficient_cell(cells[9]) || !is_coefficient_cell(cells[10])
        || !is_coefficient_cell(cells[11]) || !is_coefficient_cell(cells[12])
        || !is_coefficient_cell(cells[13]) || !is_coefficient_cell(cells[14]) {
        Some(ErrorKindView::InvalidNumber)
    } else {
        None
    }
}

/// The cells of a row by their columns. The display columns follow the
/// status column from the third generation on and are absent before.
pub open spec fn line_value(cells: Seq<Seq<char>>, version: Version) -> LineView {
    let shift: int = if version.has_display_info() {
        3
    } else {
        0
    };
    LineView {
        field_name: cells[1],
        variable_type: if cells[2].len() == 0 {
            None
        } else {
            variable_type_of(cells[2])
        },
        expression: optional_cell(cells[3]),
        extraction_type: cells[4],
        octet_position: size_of_cell(cells[5]).unwrap(),
        bit_position: size_of_cell(cells[6]).unwrap(),
        bit_length: size_of_cell(cells[7]).unwrap(),
        conversion: LineConversionInfoView {
            conversion_type: conversion_type_of(cells[8]).unwrap(),
            a0: optional_cell(cells[9]),
            a1: optional_cell(cells[10]),
            a2: optional_cell(cells[11]),
            a3: optional_cell(cells[12]),
            a4: optional_cell(cells[13]),
            a5: optional_cell(cells[14]),
            status: optional_cell(cells[15]),
        },
        display_label: if version.has_display_info() {
            optional_cell(cells[16])
        } else {
            None
        },
        display_unit: if version.has_display_info() {
            optional_cell(cells[17])
        } else {
            None
        },
        display_format: if version.has_display_info() {
            optional_cell(cells[18])
        } else {
            None
        },
        description: cells[16 + shift],
        note: cells[17 + shift],
    }
}

/// The reading of a row that is no comment.
pub open spec fn decode_line_spec(cells: Seq<Seq<char>>, version: Version) -> Result<
    LineView,
    ErrorKindView,
> {
    match line_error(cells, version) {
        Some(e) => Err(e),
        None => Ok(line_value(cells, version)),
    }
}

/// The text of a cell that may be left empty.
pub fn optional(cell: &String) -> (r: Option<String>)
    ensures
        option_text(r) == optional_cell(cell@),
{
    if cell.as_str().is_empty() {
        None
    } else {
        Some(cell.clone())
    }
}

/// Reads a coefficient cell.
fn coefficient_cell(cell: &String) -> (r: Result<Option<String>, ErrorKind>)
    ensures
        match r {
            Ok(c) => is_coefficient_cell(cell@) && option_text(c) == optional_cell(cell@),
            Err(e) => !is_coefficient_cell(cell@) && e@ == ErrorKindView::InvalidNumber,
        },
{
    if cell.as_str().is_empty() {
        Ok(None)
    } else {
        let v = chars_of(cell.as_str());
        if is_float(&v) {
            Ok(Some(cell.clone()))
        } else {
            Err(ErrorKind::InvalidNumber)
        }
    }
}

/// Reads the six coefficient cells and the status cell of a row.
fn decode_conversion(cells: &Vec<String>, conversion_type: ConversionType) -> (r: Result<
    LineConversionInfo,
    ErrorKind,
>)
    requires
        cells.len() >= 16,
    ensures
        match r {
            Ok(info) => {
                &&& is_coefficient_cell(cells@[9]@)
                &&& is_coefficient_cell(cells@[10]@)
                &&& is_coefficient_cell(cells@[11]@)
                &&& is_coefficient_cell(cells@[12]@)
                &&& is_coefficient_cell(cells@[13]@)
                &&& is_coefficient_cell(cells@[14]@)
                &&& info@ == (LineConversionInfoView {
                    conversion_type,
                    a0: optional_cell(cells@[9]@),
                    a1: optional_cell(cells@[10]@),
                    a2: optional_cell(cells@[11]@),
                    a3: optional_cell(cells@[12]@),
                    a4: optional_cell(cells@[13]@),
                    a5: optional_cell(cells@[14]@),
                    status: optional_cell(cells@[15]@),
                })
            },
            Err(e) => e@ == ErrorKindView::InvalidNumber && !(is_coefficient_cell(cells@[9]@)
                && is_coefficient_cell(cells@[10]@) && is_coefficient_cell(cells@[11]@)
                && is_coefficient_cell(cells@[12]@) && is_coefficient_cell(cells@[13]@)
                && is_coefficient_cell(cells@[14]@)),
        },
{
    let a0 = match coefficient_cell(&cells[9]) {
        Ok(c) => c,
        Err(e) => {
            return Err(e);
        },
    };
    let a1 = match coefficient_cell(&cells[10]) {
        Ok(c) => c,
        Err(e) => {
            return Err(e);
        },
    };
    let a2 = match coefficient_cell(&cells[11]) {
        Ok(c) => c,
        Err(e) => {
            return Err(e);
        },
    };
    let a3 = match coefficient_cell(&cells[12]) {
        Ok(c) => c,
        Err(e) => {
            return Err(e);
        },
    };
    let a4 = match coefficient_cell(&cells[13]) {
        Ok(c) => c,
        Err(e) => {
            return Err(e);
        },
    };
    let a5 = match coefficient_cell(&cells[14]) {
        Ok(c) => c,
        Err(e) => {
            return Err(e);
        },
    };
    let status = optional(&cells[15]);
    Ok(LineConversionInfo { conversion_type, a0, a1, a2, a3, a4, a5, status })
}

/// Reads a row that is no comment by its columns.
pub fn decode_line(cells: &Vec<String>, version: Version) -> (r: Result<Line, ErrorKind>)
    ensures
        match r {
            Ok(line) => decode_line_spec(cells_view(cells@), version) == Ok::<_, ErrorKindView>(
                line@,
            ),
            Err(e) => decode_line_spec(cells_view(cells@), version) == Err::<LineView, _>(e@),
        },
{
    let wide = version.shows_display_info();
    let width: usize = if wide {
        21
    } else {
        18
    };
    if cells.len() < width {
        return Err(ErrorKind::ColumnCountMismatch { required: width, found: cells.len() });
    }
    let variable_type = if cells[2].as_str().is_empty() {
        None
    } else {
        match parse_variable_type(cells[2].as_str()) {
            Some(t) => Some(t),
            None => {
                return Err(ErrorKind::InvalidEnumValue);
            },
        }
    };
    let octet_position = match parse_size(cells[5].as_str()) {
        Some(n) => n,
        None => {
            return Err(ErrorKind::InvalidNumber);
        },
    };
    let bit_position = match parse_size(cells[6].as_str()) {
        Some(n) => n,
        None => {
            return Err(ErrorKind::InvalidNumber);
        },
    };
    let bit_length = match parse_size(cells[7].as_str()) {
        Some(n) => n,
        None => {
            return Err(ErrorKind::InvalidNumber);
        },
    };
    let conversion_type = match parse_conversion_type(cells[8].as_str()) {
        Some(t) => t,
        None => {
            return Err(ErrorKind::InvalidEnumValue);
        },
    };
    let conversion = match decode_conversion(cells, conversion_type) {
        Ok(c) => c,
        Err(e) => {
            return Err(e);
        },
    };
    let display_label = if wide {
        optional(&cells[16])
    } else {
        None
    };
    let display_unit = if wide {
        optional(&cells[17])
    } else {
        None
    };
    let display_format = if wide {
        optional(&cells[18])
    } else {
        None
    };
    let shift: usize = if wide {
        3
    } else {
        0
    };
    Ok(
        Line {
            field_name: cells[1].clone(),
            variable_type,
            expression: optional(&cells[3]),
            extraction_type: cells[4].clone(),
            octet_position,
            bit_position,
            bit_length,
            conversion,
            display_label,
            display_unit,
            display_format,
            description: cells[16 + shift].clone(),
            note: cells[17 + shift].clone(),
        },
    )
}

/// The text of an optional cell, unescaped.
pub open spec fn unescape_option(cell: Option<Seq<char>>) -> Option<Seq<char>> {
    match cell {
        Some(text) => Some(unescape_chars(text)),
        None => None,
    }
}

/// The field that a row describes.
pub open spec fn field_spec(line: LineView) -> Result<FieldView, ErrorKindView> {
    match conversion_info_spec(line.conversion) {
        Err(e) => Err(e),
        Ok(conversion_info) => Ok(
            FieldView {
                name: unescape_chars(line.field_name),
                extraction_info: FieldExtractionInfoView {
                    extraction_type: unescape_chars(line.extraction_type),
                    octet_position: line.octet_position,
                    bit_position: line.bit_position,
                    bit_length: line.bit_length,
                },
                conversion_info,
                description: unescape_chars(line.description),
                note: unescape_chars(line.note),
                display_info: DisplayInfoView {
                    label: unescape_option(line.display_label),
                    unit: unescape_option(line.display_unit),
                    format: unescape_option(line.display_format),
                },
            },
        ),
    }
}

/// What a row that is no comment stands for.
pub enum LineModel {
    /// The row opens a group, of which it gives the first field.
    BitFieldGroup(FieldGroup),
    /// The row gives one more field of the group that is open.
    BitField(Field),
}

/// The mathematical value of a [`LineModel`].
pub enum LineModelView {
    BitFieldGroup(FieldGroupView),
    BitField(FieldView),
}

impl View for LineModel {
    type V = LineModelView;

    open spec fn view(&self) -> LineModelView {
        match *self {
            LineModel::BitFieldGroup(group) => LineModelView::BitFieldGroup(group@),
            LineModel::BitField(field) => LineModelView::BitField(field@),
        }
    }
}

/// What the row `line` stands for. A row with a variable type opens a
/// group; one without may name no expression.
pub open spec fn line_model_spec(line: LineView) -> Result<LineModelView, ErrorKindView> {
    match line.variable_type {
        Some(variable_type) => match field_spec(line) {
            Err(e) => Err(e),
            Ok(field) => Ok(
                LineModelView::BitFieldGroup(
                    FieldGroupView {
                        onboard_software_info: OnboardSoftwareInfoView {
                            variable_type,
                            expression: match line.expression {
                                Some(text) => unescape_chars(text),
                                None => unescape_chars(Seq::empty()),
                            },
                        },
                        sub_entries: seq![SubEntryView::Field(field)],
                    },
                ),
            ),
        },
        None => if line.expression is Some {
            Err(ErrorKindView::UnexpectedExpression)
        } else {
            match field_spec(line) {
                Err(e) => Err(e),
                Ok(field) => Ok(LineModelView::BitField(field)),
            }
        },
    }
}

/// What the cells of a row that is no comment stand for.
pub open spec fn row_model_spec(cells: Seq<Seq<char>>, version: Version) -> Result<
    LineModelView,
    ErrorKindView,
> {
    match decode_line_spec(cells, version) {
        Err(e) => Err(e),
        Ok(line) => line_model_spec(line),
    }
}

/// The text of an optional cell, unescaped.
fn unescape_optional(cell: Option<String>) -> (r: Option<String>)
    ensures
        option_text(r) == unescape_option(option_text(cell)),
{
    match cell {
        Some(text) => Some(unescape(text.as_str())),
        None => None,
    }
}

/// Builds the field that a row describes.
pub fn field_of(line: Line) -> (r: Result<Field, ErrorKind>)
    ensures
        match r {
            Ok(field) => field_spec(line@) == Ok::<_, ErrorKindView>(field@),
            Err(e) => field_spec(line@) == Err::<FieldView, _>(e@),
        },
{
    let extraction_info = FieldExtractionInfo {
        extraction_type: unescape(line.extraction_type.as_str()),
        octet_position: line.octet_position,
        bit_position: line.bit_position,
        bit_length: line.bit_length,
    };
    let name = unescape(line.field_name.as_str());
    let description = unescape(line.description.as_str());
    let note = unescape(line.note.as_str());
    let display_info = DisplayInfo {
        label: unescape_optional(line.display_label),
        unit: unescape_optional(line.display_unit),
        format: unescape_optional(line.display_format),
    };
    match conversion_info(line.conversion) {
        Err(e) => Err(e),
        Ok(conversion_info) => Ok(
            Field { name, extraction_info, conversion_info, description, note, display_info },
        ),
    }
}

/// Tells what a row that is no comment stands for, and builds it.
pub fn line_model(line: Line) -> (r: Result<LineModel, ErrorKind>)
    ensures
        match r {
            Ok(model) => line_model_spec(line@) == Ok::<_, ErrorKindView>(model@),
            Err(e) => line_model_spec(line@) == Err::<LineModelView, _>(e@),
        },
{
    let mut line = line;
    match line.variable_type {
        Some(variable_type) => {
            let expression = match line.expression.take() {
                Some(text) => unescape(text.as_str()),
                None => unescape(""),
            };
            proof {
                reveal_strlit("");
                assert(""@ =~= Seq::<char>::empty());
            }
            let onboard_software_info = OnboardSoftwareInfo { variable_type, expression };
            match field_of(line) {
                Err(e) => Err(e),
                Ok(field) => {
                    let mut sub_entries: Vec<SubEntry> = Vec::new();
                    sub_entries.push(SubEntry::Field(field));
                    let group = FieldGroup { onboard_software_info, sub_entries };
                    assert(group@.sub_entries =~= seq![SubEntryView::Field(field@)]);
                    Ok(LineModel::BitFieldGroup(group))
                },
            }
        },
        None => {
            if line.expression.is_some() {
                Err(ErrorKind::UnexpectedExpression)
            } else {
                match field_of(line) {
                    Err(e) => Err(e),
                    Ok(field) => Ok(LineModel::BitField(field)),
                }
            }
        },
    }
}

/// The display information of a field that gives none.
pub open spec fn no_display_info() -> DisplayInfoView {
    DisplayInfoView { label: None, unit: None, format: None }
}

/// Whether every field among `members` is without display information.
pub open spec fn members_lack_display_info(members: Seq<SubEntryView>) -> bool {
    forall|i: int|
        0 <= i < members.len() ==> ((#[trigger] members[i]) matches SubEntryView::Field(field)
            ==> field.display_info == no_display_info())
}

/// Before the third generation a row gives a field without display
/// information, whatever its cells hold.
pub proof fn lemma_row_lacks_display_info(cells: Seq<Seq<char>>, version: Version)
    requires
        !version.has_display_info(),
    ensures
        row_model_spec(cells, version) matches Ok(model) ==> match model {
            LineModelView::BitField(field) => field.display_info == no_display_info(),
            LineModelView::BitFieldGroup(group) => members_lack_display_info(group.sub_entries),
        },
{
}

/// The polynomial that a row gives has a floating-point literal for every
/// coefficient.
pub proof fn lemma_row_coefficients_are_literals(cells: Seq<Seq<char>>, version: Version)
    ensures
        decode_line_spec(cells, version) matches Ok(line) ==> (field_spec(line) matches Ok(field)
            ==> (field.conversion_info matches ConversionInfoView::Polynomial(polynomial)
            ==> coefficients_are_literals(polynomial))),
{
    lemma_zero_coefficient_is_literal();
}

} // verus!

//! The preamble of a telemetry table: five rows that give the target, the
//! packet identifier, two flags and the local variables.

use crate::error::{ErrorKind, ErrorKindView, ParseError, ParseErrorView};
use crate::escape::{unescape, unescape_chars};
use crate::record::{RecordReader, Row, cells_view};
use crate::text::{chars_of, hex_literal, parse_hex, str_eq};
use crate::tlm::{Metadata, MetadataView};
use crate::util::{
    Label, LabelView, Outcome, after_one, check_schema, check_schema_spec, labels_view,
    next_record, next_record_spec, read_row,
};
use vstd::prelude::*;

verus! {

/// The labels of the first row.
pub open spec fn first_line_labels() -> Seq<LabelView> {
    seq![LabelView { column: 1, text: "Target"@ }, LabelView { column: 3, text: "Local Var"@ }]
}

/// The label of the second row.
pub open spec fn second_line_labels() -> Seq<LabelView> {
    seq![LabelView { column: 1, text: "PacketID"@ }]
}

/// The label of the third row.
pub open spec fn third_line_labels() -> Seq<LabelView> {
    seq![LabelView { column: 1, text: "Enable/Disable"@ }]
}

/// The label of the fourth row.
pub open spec fn fourth_line_labels() -> Seq<LabelView> {
    seq![LabelView { column: 1, text: "IsRestricted"@ }]
}

/// The packet identifier that a cell holds: a hexadecimal number of eight
/// bits after `0x`.
pub open spec fn packet_id_spec(cell: Seq<char>) -> Result<u8, ErrorKindView> {
    match hex_literal(cell, 0, 0xff) {
        Some(n) => Ok(n as u8),
        None => Err(ErrorKindView::InvalidHexLiteral),
    }
}

/// The flag that a cell holds, where `yes` stands for true and `no` for
/// false.
pub open spec fn flag_spec(cell: Seq<char>, yes: Seq<char>, no: Seq<char>) -> Result<
    bool,
    ErrorKindView,
> {
    if cell == yes {
        Ok(true)
    } else if cell == no {
        Ok(false)
    } else {
        Err(ErrorKindView::InvalidEnumValue)
    }
}

/// What the first row gives: the target.
pub open spec fn parse_first_line_spec(cells: Seq<Seq<char>>) -> Result<Seq<char>, ErrorKindView> {
    match check_schema_spec(cells, 4, first_line_labels()) {
        Err(e) => Err(e),
        Ok(()) => Ok(unescape_chars(cells[2])),
    }
}

/// What the second row gives: the packet identifier and the local
/// variables.
pub open spec fn parse_second_line_spec(cells: Seq<Seq<char>>) -> Result<
    (u8, Seq<char>),
    ErrorKindView,
> {
    match check_schema_spec(cells, 4, second_line_labels()) {
        Err(e) => Err(e),
        Ok(()) => match packet_id_spec(cells[2]) {
            Err(e) => Err(e),
            Ok(packet_id) => Ok((packet_id, unescape_chars(cells[3]))),
        },
    }
}

/// What the third row gives: whether the packet is enabled.
pub open spec fn parse_third_line_spec(cells: Seq<Seq<char>>) -> Result<bool, ErrorKindView> {
    match check_schema_spec(cells, 3, third_line_labels()) {
        Err(e) => Err(e),
        Ok(()) => flag_spec(cells[2], "ENABLE"@, "DISABLE"@),
    }
}

/// What the fourth row gives: whether the packet is restricted.
pub open spec fn parse_fourth_line_spec(cells: Seq<Seq<char>>) -> Result<bool, ErrorKindView> {
    match check_schema_spec(cells, 3, fourth_line_labels()) {
        Err(e) => Err(e),
        Ok(()) => flag_spec(cells[2], "TRUE"@, "FALSE"@),
    }
}

/// What reading the preamble gives. Reading stops at the first row that
/// is missing or wrong; the fifth row only has to be there.
pub open spec fn parse_spec(rows: Seq<Row>) -> Outcome<MetadataView> {
    let rows2 = after_one(rows);
    let rows3 = after_one(rows2);
    let rows4 = after_one(rows3);
    let rows5 = after_one(rows4);
    match read_row(rows, |cells: Seq<Seq<char>>| parse_first_line_spec(cells)) {
        Err(e) => Outcome { result: Err(e), rest: rows2 },
        Ok(target) => match read_row(
            rows2,
            |cells: Seq<Seq<char>>| parse_second_line_spec(cells),
        ) {
            Err(e) => Outcome { result: Err(e), rest: rows3 },
            Ok((packet_id, local_variables)) => match read_row(
                rows3,
                |cells: Seq<Seq<char>>| parse_third_line_spec(cells),
            ) {
                Err(e) => Outcome { result: Err(e), rest: rows4 },
                Ok(is_enabled) => match read_row(
                    rows4,
                    |cells: Seq<Seq<char>>| parse_fourth_line_spec(cells),
                ) {
                    Err(e) => Outcome { result: Err(e), rest: rows5 },
                    Ok(is_restricted) => match next_record_spec(rows5) {
                        Err(e) => Outcome { result: Err(e), rest: after_one(rows5) },
                        Ok(_) => Outcome {
                            result: Ok(
                                MetadataView {
                                    target,
                                    packet_id,
                                    is_enabled,
                                    is_restricted,
                                    local_variables,
                                },
                            ),
                            rest: after_one(rows5),
                        },
                    },
                },
            },
        },
    }
}

/// Reads a packet identifier.
pub fn parse_packet_id(hex_with_0x: &str) -> (r: Result<u8, ErrorKind>)
    ensures
        match r {
            Ok(id) => packet_id_spec(hex_with_0x@) == Ok::<u8, ErrorKindView>(id),
            Err(e) => packet_id_spec(hex_with_0x@) == Err::<u8, _>(e@),
        },
{
    let v = chars_of(hex_with_0x);
    match parse_hex(&v, 0, 0xff) {
        Some(n) => Ok(n as u8),
        None => Err(ErrorKind::InvalidHexLiteral),
    }
}

/// Reads a flag that is written `yes` or `no`.
fn parse_flag(cell: &str, yes: &str, no: &str) -> (r: Result<bool, ErrorKind>)
    ensures
        match r {
            Ok(flag) => flag_spec(cell@, yes@, no@) == Ok::<bool, ErrorKindView>(flag),
            Err(e) => flag_spec(cell@, yes@, no@) == Err::<bool, _>(e@),
        },
{
    if str_eq(cell, yes) {
        Ok(true)
    } else if str_eq(cell, no) {
        Ok(false)
    } else {
        Err(ErrorKind::InvalidEnumValue)
    }
}

/// Reads the first row of the preamble.
pub fn parse_first_line(record: &Vec<String>) -> (r: Result<String, ErrorKind>)
    ensures
        match r {
            Ok(target) => parse_first_line_spec(cells_view(record@)) == Ok::<_, ErrorKindView>(
                target@,
            ),
            Err(e) => parse_first_line_spec(cells_view(record@)) == Err::<Seq<char>, _>(e@),
        },
{
    let labels = vec![Label { column: 1, text: "Target" }, Label { column: 3, text: "Local Var" }];
    assert(labels_view(labels@) =~= first_line_labels());
    match check_schema(record, 4, &labels) {
        Err(e) => Err(e),
        Ok(()) => {
            Ok(unescape(record[2].as_str()))
        },
    }
}

/// Reads the second row of the preamble.
pub fn parse_second_line(record: &Vec<String>) -> (r: Result<(u8, String), ErrorKind>)
    ensures
        match r {
            Ok((packet_id, local_variables)) => parse_second_line_spec(cells_view(record@))
                == Ok::<_, ErrorKindView>((packet_id, local_variables@)),
            Err(e) => parse_second_line_spec(cells_view(record@)) == Err::<(u8, Seq<char>), _>(
                e@,
            ),
        },
{
    let labels = vec![Label { column: 1, text: "PacketID" }];
    assert(labels_view(labels@) =~= second_line_labels());
    match check_schema(record, 4, &labels) {
        Err(e) => Err(e),
        Ok(()) => {
            match parse_packet_id(record[2].as_str()) {
                Err(e) => Err(e),
                Ok(packet_id) => Ok((packet_id, unescape(record[3].as_str()))),
            }
        },
    }
}

/// Reads the third row of the preamble.
pub fn parse_third_line(record: &Vec<String>) -> (r: Result<bool, ErrorKind>)
    ensures
        match r {
            Ok(flag) => parse_third_line_spec(cells_view(record@)) == Ok::<bool, ErrorKindView>(
                flag,
            ),
            Err(e) => parse_third_line_spec(cells_view(record@)) == Err::<bool, _>(e@),
        },
{
    let labels = vec![Label { column: 1, text: "Enable/Disable" }];
    assert(labels_view(labels@) =~= third_line_labels());
    match check_schema(record, 3, &labels) {
        Err(e) => Err(e),
        Ok(()) => {
            parse_flag(record[2].as_str(), "ENABLE", "DISABLE")
        },
    }
}

/// Reads the fourth row of the preamble.
pub fn parse_fourth_line(record: &Vec<String>) -> (r: Result<bool, ErrorKind>)
    ensures
        match r {
            Ok(flag) => parse_fourth_line_spec(cells_view(record@)) == Ok::<bool, ErrorKindView>(
                flag,
            ),
            Err(e) => parse_fourth_line_spec(cells_view(record@)) == Err::<bool, _>(e@),
        },
{
    let labels = vec![Label { column: 1, text: "IsRestricted" }];
    assert(labels_view(labels@) =~= fourth_line_labels());
    match check_schema(record, 3, &labels) {
        Err(e) => Err(e),
        Ok(()) => {
            parse_flag(record[2].as_str(), "TRUE", "FALSE")
        },
    }
}

/// Reads the preamble of a telemetry table.
pub fn parse(reader: &mut RecordReader) -> (r: Result<Metadata, ParseError>)
    ensures
        match r {
            Ok(metadata) => parse_spec(old(reader).remaining()).result == Ok::<_, ParseErrorView>(
                metadata@,
            ),
            Err(e) => parse_spec(old(reader).remaining()).result == Err::<MetadataView, _>(e@),
        },
        final(reader).remaining() == parse_spec(old(reader).remaining()).rest,
{
    let first = match next_record(reader) {
        Ok(row) => row,
        Err(e) => {
            return Err(e);
        },
    };
    let target = match parse_first_line(&first.record) {
        Ok(target) => target,
        Err(kind) => {
            return Err(ParseError::at(first.position, kind));
        },
    };
    let second = match next_record(reader) {
        Ok(row) => row,
        Err(e) => {
            return Err(e);
        },
    };
    let (packet_id, local_variables) = match parse_second_line(&second.record) {
        Ok(pair) => pair,
        Err(kind) => {
            return Err(ParseError::at(second.position, kind));
        },
    };
    let third = match next_record(reader) {
        Ok(row) => row,
        Err(e) => {
            return Err(e);
        },
    };
    let is_enabled = match parse_third_line(&third.record) {
        Ok(flag) => flag,
        Err(kind) => {
            return Err(ParseError::at(third.position, kind));
        },
    };
    let fourth = match next_record(reader) {
        Ok(row) => row,
        Err(e) => {
            return Err(e);
        },
    };
    let is_restricted = match parse_fourth_line(&fourth.record) {
        Ok(flag) => flag,
        Err(kind) => {
            return Err(ParseError::at(fourth.position, kind));
        },
    };
    match next_record(reader) {
        Ok(_) => {},
        Err(e) => {
            return Err(e);
        },
    }
    Ok(Metadata { target, packet_id, is_enabled, is_restricted, local_variables })
}

} // verus!

//! A whole telemetry table: preamble, then body.

use crate::error::{ParseError, ParseErrorView};
use crate::record::{RecordReader, Row};
use crate::tlm::version::{Version, guess, guess_spec};
use crate::tlm::{Content, ContentView, Telemetry, TelemetryView, body, metadata};
use vstd::prelude::*;

verus! {

/// The telemetry definition that the rows of a table give. The generation
/// of the layout is told first, from the rows as they stand; the rows are
/// then read from the first on.
pub open spec fn parse_spec(telemetry_name: Seq<char>, rows: Seq<Row>) -> Result<
    TelemetryView,
    ParseErrorView,
> {
    match guess_spec(rows) {
        Err(e) => Err(e),
        Ok(version) => {
            let preamble = metadata::parse_spec(rows);
            match preamble.result {
                Err(e) => Err(e),
                Ok(metadata) => match body::parse_spec(preamble.rest, version).result {
                    Err(e) => Err(e),
                    Ok(entries) => Ok(
                        TelemetryView {
                            name: telemetry_name,
                            metadata,
                            content: ContentView::Struct(entries),
                        },
                    ),
                },
            }
        },
    }
}

/// Reads the telemetry definition `telemetry_name` from the rows of its
/// table.
pub fn parse(telemetry_name: String, reader: RecordReader) -> (r: Result<Telemetry, ParseError>)
    ensures
        match r {
            Ok(t) => parse_spec(telemetry_name@, reader.remaining()) == Ok::<_, ParseErrorView>(
                t@,
            ),
            Err(e) => parse_spec(telemetry_name@, reader.remaining()) == Err::<TelemetryView, _>(
                e@,
            ),
        },
{
    let (version, mut reader) = match guess(reader) {
        Ok(pair) => pair,
        Err(e) => {
            return Err(e);
        },
    };
    let metadata = match metadata::parse(&mut reader) {
        Ok(m) => m,
        Err(e) => {
            return Err(e);
        },
    };
    let entries = match body::parse(&mut reader, version) {
        Ok(entries) => entries,
        Err(e) => {
            return Err(e);
        },
    };
    Ok(Telemetry { name: telemetry_name, metadata, content: Content::Struct(entries) })
}

/// A table of the second generation, which no cell of the first header
/// row of its body marks as showing display information, gives a telemetry
/// definition none of whose fields has display information.
pub proof fn lemma_second_generation_lacks_display_info(telemetry_name: Seq<char>, rows: Seq<Row>)
    requires
        guess_spec(rows) == Ok::<_, ParseErrorView>(Version { major: 2 }),
    ensures
        parse_spec(telemetry_name, rows) matches Ok(telemetry) ==> (
        telemetry.content matches ContentView::Struct(entries)
            && body::entries_lack_display_info(entries)),
{
    body::lemma_body_lacks_display_info(metadata::parse_spec(rows).rest, Version { major: 2 });
}

} // verus!

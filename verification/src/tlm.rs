//! Telemetry definitions of one component, and the parser of the tables
//! that they are written in.

pub mod body;
pub mod conversion;
pub mod filename;
pub mod line;
pub mod metadata;
pub mod status;
pub mod telemetry;
pub mod validator;
pub mod version;

pub use filename::Filename;

use crate::error::{ParseError, ParseErrorView};
use crate::record::{RecordReader, csv_records};
use crate::text::option_text;
use vstd::prelude::*;

verus! {

/// The telemetry definitions of one component.
#[derive(Debug, Clone, PartialEq, Eq)]
pub struct Database {
    pub telemetries: Vec<Telemetry>,
}

/// One telemetry packet definition.
#[derive(Debug, Clone, PartialEq, Eq)]
pub struct Telemetry {
    pub name: String,
    pub metadata: Metadata,
    pub content: Content,
}

/// The preamble of a telemetry definition.
#[derive(Debug, Clone, PartialEq, Eq)]
pub struct Metadata {
    pub target: String,
    /// The identifier that the packet carries on board.
    pub packet_id: u8,
    pub is_enabled: bool,
    pub is_restricted: bool,
    pub local_variables: String,
}

/// The body of a telemetry definition.
#[derive(Debug, Clone, PartialEq, Eq)]
pub enum Content {
    /// The packet is opaque.
    Blob,
    /// The packet is a sequence of entries.
    Struct(Vec<Entry>),
}

/// One entry of a telemetry body.
#[derive(Debug, Clone, PartialEq, Eq)]
pub enum Entry {
    FieldGroup(FieldGroup),
    Comment(Comment),
}

/// Fields that share one on-board expression: a block of vertically merged
/// cells in the table.
#[derive(Debug, Clone, PartialEq, Eq)]
pub struct FieldGroup {
    pub onboard_software_info: OnboardSoftwareInfo,
    pub sub_entries: Vec<SubEntry>,
}

/// One member of a field group.
#[derive(Debug, Clone, PartialEq, Eq)]
pub enum SubEntry {
    Field(Field),
    Comment(Comment),
}

/// One bit field of a packet.
#[derive(Debug, Clone, PartialEq, Eq)]
pub struct Field {
    pub name: String,
    pub extraction_info: FieldExtractionInfo,
    pub conversion_info: ConversionInfo,
    /// For operators.
    pub description: String,
    /// For developers.
    pub note: String,
    pub display_info: DisplayInfo,
}

/// How a ground station shows a field.
#[derive(Debug, Clone, PartialEq, Eq)]
pub struct DisplayInfo {
    pub label: Option<String>,
    pub unit: Option<String>,
    pub format: Option<String>,
}

/// Where the bits of a field lie in the packet. Bit 0 of `bit_position` is
/// the most significant bit of the octet at `octet_position`.
#[derive(Debug, Clone, PartialEq, Eq)]
pub struct FieldExtractionInfo {
    pub extraction_type: String,
    pub octet_position: usize,
    pub bit_position: usize,
    pub bit_length: usize,
}

/// What the on-board software needs to assemble the value of a group.
#[derive(Debug, Clone, PartialEq, Eq)]
pub struct OnboardSoftwareInfo {
    pub variable_type: VariableType,
    pub expression: String,
}

/// How a raw value becomes an engineering value.
#[derive(Debug, Clone, PartialEq, Eq)]
pub enum ConversionInfo {
    /// The raw value is the engineering value.
    Identity,
    /// As `Identity`, shown in hexadecimal.
    Hex,
    Status(conversion::Status),
    Polynomial(conversion::Polynomial),
}

/// The type that the on-board software holds a value in.
#[derive(Debug, Clone, Copy, PartialEq, Eq, Hash, Structural)]
pub enum VariableType {
    Int8,
    Int16,
    Int32,
    Uint8,
    Uint16,
    Uint32,
    Float,
    Double,
}

/// A comment row.
#[derive(Debug, Clone, PartialEq, Eq)]
pub struct Comment {
    pub text: String,
}

impl VariableType {
    /// The width of the type in octets.
    pub open spec fn width(self) -> nat {
        match self {
            VariableType::Int8 | VariableType::Uint8 => 1,
            VariableType::Int16 | VariableType::Uint16 => 2,
            VariableType::Int32 | VariableType::Uint32 | VariableType::Float => 4,
            VariableType::Double => 8,
        }
    }

    /// The width of the type in octets.
    pub fn octet_width(&self) -> (w: usize)
        ensures
            w == self.width(),
    {
        match self {
            VariableType::Int8 => 1,
            VariableType::Int16 => 2,
            VariableType::Int32 => 4,
            VariableType::Uint8 => 1,
            VariableType::Uint16 => 2,
            VariableType::Uint32 => 4,
            VariableType::Float => 4,
            VariableType::Double => 8,
        }
    }

    /// The width of the type in bits.
    pub fn bit_width(&self) -> (w: usize)
        ensures
            w == 8 * self.width(),
    {
        self.octet_width() * 8
    }

    /// Whether the type is an unsigned integer.
    pub fn is_unsigned_integer(&self) -> (r: bool)
        ensures
            r == (*self == VariableType::Uint8 || *self == VariableType::Uint16 || *self
                == VariableType::Uint32),
    {
        matches!(self, VariableType::Uint8 | VariableType::Uint16 | VariableType::Uint32)
    }
}

/// The mathematical value of a [`Database`].
pub struct DatabaseView {
    pub telemetries: Seq<TelemetryView>,
}

/// The mathematical value of a [`Telemetry`].
pub struct TelemetryView {
    pub name: Seq<char>,
    pub metadata: MetadataView,
    pub content: ContentView,
}

/// The mathematical value of a [`Metadata`].
pub struct MetadataView {
    pub target: Seq<char>,
    pub packet_id: u8,
    pub is_enabled: bool,
    pub is_restricted: bool,
    pub local_variables: Seq<char>,
}

/// The mathematical value of a [`Content`].
pub enum ContentView {
    Blob,
    Struct(Seq<EntryView>),
}

/// The mathematical value of a [`Entry`].
pub enum EntryView {
    FieldGroup(FieldGroupView),
    Comment(Seq<char>),
}

/// The mathematical value of a [`FieldGroup`].
pub struct FieldGroupView {
    pub onboard_software_info: OnboardSoftwareInfoView,
    pub sub_entries: Seq<SubEntryView>,
}

/// The mathematical value of a [`SubEntry`].
pub enum SubEntryView {
    Field(FieldView),
    Comment(Seq<char>),
}

/// The mathematical value of a [`Field`].
pub struct FieldView {
    pub name: Seq<char>,
    pub extraction_info: FieldExtractionInfoView,
    pub conversion_info: ConversionInfoView,
    pub description: Seq<char>,
    pub note: Seq<char>,
    pub display_info: DisplayInfoView,
}

/// The mathematical value of a [`DisplayInfo`].
pub struct DisplayInfoView {
    pub label: Option<Seq<char>>,
    pub unit: Option<Seq<char>>,
    pub format: Option<Seq<char>>,
}

/// The mathematical value of a [`FieldExtractionInfo`].
pub struct FieldExtractionInfoView {
    pub extraction_type: Seq<char>,
    pub octet_position: usize,
    pub bit_position: usize,
    pub bit_length: usize,
}

/// The mathematical value of a [`OnboardSoftwareInfo`].
pub struct OnboardSoftwareInfoView {
    pub variable_type: VariableType,
    pub expression: Seq<char>,
}

/// The mathematical value of a [`ConversionInfo`].
pub enum ConversionInfoView {
    Identity,
    Hex,
    Status(conversion::StatusView),
    Polynomial(conversion::PolynomialView),
}

impl View for Database {
    type V = DatabaseView;

    open spec fn view(&self) -> DatabaseView {
        DatabaseView { telemetries: self.telemetries@.map_values(|t: Telemetry| t@) }
    }
}

impl View for Telemetry {
    type V = TelemetryView;

    open spec fn view(&self) -> TelemetryView {
        TelemetryView { name: self.name@, metadata: self.metadata@, content: self.content@ }
    }
}

impl View for Metadata {
    type V = MetadataView;

    open spec fn view(&self) -> MetadataView {
        MetadataView {
            target: self.target@,
            packet_id: self.packet_id,
            is_enabled: self.is_enabled,
            is_restricted: self.is_restricted,
            local_variables: self.local_variables@,
        }
    }
}

impl View for Content {
    type V = ContentView;

    open spec fn view(&self) -> ContentView {
        match *self {
            Content::Blob => ContentView::Blob,
            Content::Struct(entries) => ContentView::Struct(entries_view(entries@)),
        }
    }
}

/// The values of a sequence of entries.
pub open spec fn entries_view(entries: Seq<Entry>) -> Seq<EntryView> {
    entries.map_values(|e: Entry| e@)
}

/// The values of a sequence of group members.
pub open spec fn sub_entries_view(sub_entries: Seq<SubEntry>) -> Seq<SubEntryView> {
    sub_entries.map_values(|e: SubEntry| e@)
}

impl View for Entry {
    type V = EntryView;

    open spec fn view(&self) -> EntryView {
        match *self {
            Entry::FieldGroup(group) => EntryView::FieldGroup(group@),
            Entry::Comment(comment) => EntryView::Comment(comment.text@),
        }
    }
}

impl View for FieldGroup {
    type V = FieldGroupView;

    open spec fn view(&self) -> FieldGroupView {
        FieldGroupView {
            onboard_software_info: self.onboard_software_info@,
            sub_entries: sub_entries_view(self.sub_entries@),
        }
    }
}

impl View for SubEntry {
    type V = SubEntryView;

    open spec fn view(&self) -> SubEntryView {
        match *self {
            SubEntry::Field(field) => SubEntryView::Field(field@),
            SubEntry::Comment(comment) => SubEntryView::Comment(comment.text@),
        }
    }
}

impl View for Field {
    type V = FieldView;

    open spec fn view(&self) -> FieldView {
        FieldView {
            name: self.name@,
            extraction_info: self.extraction_info@,
            conversion_info: self.conversion_info@,
            description: self.description@,
            note: self.note@,
            display_info: self.display_info@,
        }
    }
}

impl View for DisplayInfo {
    type V = DisplayInfoView;

    open spec fn view(&self) -> DisplayInfoView {
        DisplayInfoView {
            label: option_text(self.label),
            unit: option_text(self.unit),
            format: option_text(self.format),
        }
    }
}

impl View for FieldExtractionInfo {
    type V = FieldExtractionInfoView;

    open spec fn view(&self) -> FieldExtractionInfoView {
        FieldExtractionInfoView {
            extraction_type: self.extraction_type@,
            octet_position: self.octet_position,
            bit_position: self.bit_position,
            bit_length: self.bit_length,
        }
    }
}

impl View for OnboardSoftwareInfo {
    type V = OnboardSoftwareInfoView;

    open spec fn view(&self) -> OnboardSoftwareInfoView {
        OnboardSoftwareInfoView {
            variable_type: self.variable_type,
            expression: self.expression@,
        }
    }
}

impl View for ConversionInfo {
    type V = ConversionInfoView;

    open spec fn view(&self) -> ConversionInfoView {
        match *self {
            ConversionInfo::Identity => ConversionInfoView::Identity,
            ConversionInfo::Hex => ConversionInfoView::Hex,
            ConversionInfo::Status(status) => ConversionInfoView::Status(status@),
            ConversionInfo::Polynomial(polynomial) => ConversionInfoView::Polynomial(
                polynomial@,
            ),
        }
    }
}

/// Reads the telemetry definition `telemetry_name` from the bytes of its
/// table.
pub fn parse_csv(telemetry_name: String, data: &[u8]) -> (r: Result<Telemetry, ParseError>)
    ensures
        match r {
            Ok(t) => telemetry::parse_spec(telemetry_name@, csv_records(data@)) == Ok::<
                _,
                ParseErrorView,
            >(t@),
            Err(e) => telemetry::parse_spec(telemetry_name@, csv_records(data@)) == Err::<
                TelemetryView,
                _,
            >(e@),
        },
{
    let reader = RecordReader::from_bytes(data);
    telemetry::parse(telemetry_name, reader)
}

} // verus!

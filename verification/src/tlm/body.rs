//! The body of a telemetry table: three header rows, then rows that are
//! comments, open a field group, or add a field to the group that is open.

use crate::error::{ErrorKind, ErrorKindView, ParseError, ParseErrorView, at};
use crate::record::{PosStringRecordView, RecordReader, Row, cells_view};
use crate::tlm::{
    Comment, Entry, EntryView, Field, FieldGroup, FieldGroupView, FieldView, SubEntry,
    SubEntryView, entries_view, sub_entries_view,
};
use crate::tlm::line::{
    LineModel, LineModelView, decode_line, line_model, members_lack_display_info, row_model_spec,
};
use crate::tlm::version::Version;
use crate::util::{
    Label, LabelView, Outcome, after_one, build_comment_text, check_schema, check_schema_spec,
    comment_text, labels_view, next_record, read_row, try_next_record, try_next_record_spec,
};
use vstd::prelude::*;

verus! {

/// The labels of the first header row.
pub open spec fn first_header_labels(version: Version) -> Seq<LabelView> {
    if version.has_display_info() {
        seq![
            LabelView { column: 0, text: "Comment"@ },
            LabelView { column: 1, text: "TLM Entry"@ },
            LabelView { column: 2, text: "Onboard Software Info."@ },
            LabelView { column: 4, text: "Extraction Info."@ },
            LabelView { column: 8, text: "Conversion Info."@ },
            LabelView { column: 16, text: "Display Info."@ },
            LabelView { column: 19, text: "Description"@ },
            LabelView { column: 20, text: "Note"@ },
        ]
    } else {
        seq![
            LabelView { column: 0, text: "Comment"@ },
            LabelView { column: 1, text: "TLM Entry"@ },
            LabelView { column: 2, text: "Onboard Software Info."@ },
            LabelView { column: 4, text: "Extraction Info."@ },
            LabelView { column: 8, text: "Conversion Info."@ },
            LabelView { column: 16, text: "Description"@ },
            LabelView { column: 17, text: "Note"@ },
        ]
    }
}

/// The labels of the second header row.
pub open spec fn second_header_labels(version: Version) -> Seq<LabelView> {
    if version.has_display_info() {
        seq![
            LabelView { column: 1, text: "Name"@ },
            LabelView { column: 3, text: "Variable or Function Name"@ },
            LabelView { column: 5, text: "Pos. Desiginator"@ },
            LabelView { column: 9, text: "Poly (\u{3a3}a_i * x^i)"@ },
            LabelView { column: 15, text: "Status"@ },
            LabelView { column: 16, text: "Label"@ },
            LabelView { column: 17, text: "Unit"@ },
            LabelView { column: 18, text: "Format"@ },
        ]
    } else {
        seq![
            LabelView { column: 1, text: "Name"@ },
            LabelView { column: 3, text: "Variable or Function Name"@ },
            LabelView { column: 5, text: "Pos. Desiginator"@ },
            LabelView { column: 9, text: "Poly (\u{3a3}a_i * x^i)"@ },
            LabelView { column: 15, text: "Status"@ },
        ]
    }
}

/// The labels of the third header row.
pub open spec fn third_header_labels() -> Seq<LabelView> {
    seq![
        LabelView { column: 9, text: "a0"@ },
        LabelView { column: 10, text: "a1"@ },
        LabelView { column: 11, text: "a2"@ },
        LabelView { column: 12, text: "a3"@ },
        LabelView { column: 13, text: "a4"@ },
        LabelView { column: 14, text: "a5"@ },
    ]
}

/// The number of cells that the first header row must have.
pub open spec fn first_header_width(version: Version) -> usize {
    if version.has_display_info() {
        21
    } else {
        18
    }
}

/// The number of cells that the second header row must have.
pub open spec fn second_header_width(version: Version) -> usize {
    if version.has_display_info() {
        19
    } else {
        16
    }
}

/// The number of cells that the third header row must have.
pub open spec fn third_header_width() -> usize {
    15
}

/// What holding the first header row to its layout gives.
pub open spec fn check_first_header_spec(cells: Seq<Seq<char>>, version: Version) -> Result<
    (),
    ErrorKindView,
> {
    check_schema_spec(cells, first_header_width(version), first_header_labels(version))
}

/// What holding the second header row to its layout gives.
pub open spec fn check_second_header_spec(cells: Seq<Seq<char>>, version: Version) -> Result<
    (),
    ErrorKindView,
> {
    check_schema_spec(cells, second_header_width(version), second_header_labels(version))
}

/// What holding the third header row to its layout gives.
pub open spec fn check_third_header_spec(cells: Seq<Seq<char>>) -> Result<(), ErrorKindView> {
    check_schema_spec(cells, third_header_width(), third_header_labels())
}

/// Holds the first header row to its layout.
pub fn check_first_header(record: &Vec<String>, version: Version) -> (r: Result<(), ErrorKind>)
    ensures
        match r {
            Ok(()) => check_first_header_spec(cells_view(record@), version) == Ok::<
                (),
                ErrorKindView,
            >(()),
            Err(e) => check_first_header_spec(cells_view(record@), version) == Err::<(), _>(e@),
        },
{
    if version.shows_display_info() {
        let labels = vec![
            Label { column: 0, text: "Comment" },
            Label { column: 1, text: "TLM Entry" },
            Label { column: 2, text: "Onboard Software Info." },
            Label { column: 4, text: "Extraction Info." },
            Label { column: 8, text: "Conversion Info." },
            Label { column: 16, text: "Display Info." },
            Label { column: 19, text: "Description" },
            Label { column: 20, text: "Note" },
        ];
        assert(labels_view(labels@) =~= first_header_labels(version));
        check_schema(record, 21, &labels)
    } else {
        let labels = vec![
            Label { column: 0, text: "Comment" },
            Label { column: 1, text: "TLM Entry" },
            Label { column: 2, text: "Onboard Software Info." },
            Label { column: 4, text: "Extraction Info." },
            Label { column: 8, text: "Conversion Info." },
            Label { column: 16, text: "Description" },
            Label { column: 17, text: "Note" },
        ];
        assert(labels_view(labels@) =~= first_header_labels(version));
        check_schema(record, 18, &labels)
    }
}

/// Holds the second header row to its layout.
pub fn check_second_header(record: &Vec<String>, version: Version) -> (r: Result<(), ErrorKind>)
    ensures
        match r {
            Ok(()) => check_second_header_spec(cells_view(record@), version) == Ok::<
                (),
                ErrorKindView,
            >(()),
            Err(e) => check_second_header_spec(cells_view(record@), version) == Err::<(), _>(e@),
        },
{
    if version.shows_display_info() {
        let labels = vec![
            Label { column: 1, text: "Name" },
            Label { column: 3, text: "Variable or Function Name" },
            Label { column: 5, text: "Pos. Desiginator" },
            Label { column: 9, text: "Poly (\u{3a3}a_i * x^i)" },
            Label { column: 15, text: "Status" },
            Label { column: 16, text: "Label" },
            Label { column: 17, text: "Unit" },
            Label { column: 18, text: "Format" },
        ];
        assert(labels_view(labels@) =~= second_header_labels(version));
        check_schema(record, 19, &labels)
    } else {
        let labels = vec![
            Label { column: 1, text: "Name" },
            Label { column: 3, text: "Variable or Function Name" },
            Label { column: 5, text: "Pos. Desiginator" },
            Label { column: 9, text: "Poly (\u{3a3}a_i * x^i)" },
            Label { column: 15, text: "Status" },
        ];
        assert(labels_view(labels@) =~= second_header_labels(version));
        check_schema(record, 16, &labels)
    }
}

/// Holds the third header row to its layout.
pub fn check_third_header(record: &Vec<String>) -> (r: Result<(), ErrorKind>)
    ensures
        match r {
            Ok(()) => check_third_header_spec(cells_view(record@)) == Ok::<(), ErrorKindView>(()),
            Err(e) => check_third_header_spec(cells_view(record@)) == Err::<(), _>(e@),
        },
{
    let labels = vec![
        Label { column: 9, text: "a0" },
        Label { column: 10, text: "a1" },
        Label { column: 11, text: "a2" },
        Label { column: 12, text: "a3" },
        Label { column: 13, text: "a4" },
        Label { column: 14, text: "a5" },
    ];
    assert(labels_view(labels@) =~= third_header_labels());
    check_schema(record, 15, &labels)
}

/// What reading the three header rows gives. Reading stops at the first
/// row that is missing or wrong.
pub open spec fn check_headers_spec(rows: Seq<Row>, version: Version) -> Outcome<()> {
    let second = after_one(rows);
    let third = after_one(second);
    match read_row(rows, |cells: Seq<Seq<char>>| check_first_header_spec(cells, version)) {
        Err(e) => Outcome { result: Err(e), rest: second },
        Ok(()) => match read_row(
            second,
            |cells: Seq<Seq<char>>| check_second_header_spec(cells, version),
        ) {
            Err(e) => Outcome { result: Err(e), rest: third },
            Ok(()) => Outcome {
                result: read_row(third, |cells: Seq<Seq<char>>| check_third_header_spec(cells)),
                rest: after_one(third),
            },
        },
    }
}

/// Reads the three header rows.
pub fn check_headers(reader: &mut RecordReader, version: Version) -> (r: Result<(), ParseError>)
    ensures
        match r {
            Ok(()) => check_headers_spec(old(reader).remaining(), version).result == Ok::<
                (),
                ParseErrorView,
            >(()),
            Err(e) => check_headers_spec(old(reader).remaining(), version).result == Err::<(), _>(
                e@,
            ),
        },
        final(reader).remaining() == check_headers_spec(old(reader).remaining(), version).rest,
{
    let first = match next_record(reader) {
        Ok(row) => row,
        Err(e) => {
            return Err(e);
        },
    };
    match check_first_header(&first.record, version) {
        Ok(()) => {},
        Err(kind) => {
            return Err(ParseError::at(first.position, kind));
        },
    }
    let second = match next_record(reader) {
        Ok(row) => row,
        Err(e) => {
            return Err(e);
        },
    };
    match check_second_header(&second.record, version) {
        Ok(()) => {},
        Err(kind) => {
            return Err(ParseError::at(second.position, kind));
        },
    }
    let third = match next_record(reader) {
        Ok(row) => row,
        Err(e) => {
            return Err(e);
        },
    };
    match check_third_header(&third.record) {
        Ok(()) => Ok(()),
        Err(kind) => Err(ParseError::at(third.position, kind)),
    }
}

/// What the body parser holds between two rows: the entries that are
/// complete, and the group that is open, if one is.
pub struct BodyState {
    pub entries: Seq<EntryView>,
    pub current: Option<FieldGroupView>,
}

/// The state before the first row.
pub open spec fn initial_state() -> BodyState {
    BodyState { entries: Seq::empty(), current: None }
}

/// The entries of a state once the open group is closed.
pub open spec fn close(state: BodyState) -> Seq<EntryView> {
    match state.current {
        Some(group) => state.entries.push(EntryView::FieldGroup(group)),
        None => state.entries,
    }
}

/// `group` with one more member.
pub open spec fn with_member(group: FieldGroupView, member: SubEntryView) -> FieldGroupView {
    FieldGroupView {
        onboard_software_info: group.onboard_software_info,
        sub_entries: group.sub_entries.push(member),
    }
}

/// The state after one more row. A row with an empty first cell opens a
/// group, which closes the one that was open, or adds a field to the open
/// group; any other row is a comment and goes to the open group, or
/// between the groups if none is open.
pub open spec fn body_step(state: BodyState, row: PosStringRecordView, version: Version) -> Result<
    BodyState,
    ParseErrorView,
> {
    if row.record.len() > 0 && row.record[0].len() == 0 {
        match row_model_spec(row.record, version) {
            Err(kind) => Err(at(row.position, kind)),
            Ok(LineModelView::BitFieldGroup(group)) => Ok(
                BodyState { entries: close(state), current: Some(group) },
            ),
            Ok(LineModelView::BitField(field)) => match state.current {
                Some(group) => Ok(
                    BodyState {
                        entries: state.entries,
                        current: Some(with_member(group, SubEntryView::Field(field))),
                    },
                ),
                None => Err(at(row.position, ErrorKindView::UnexpectedField)),
            },
        }
    } else {
        let text = comment_text(row.record);
        match state.current {
            Some(group) => Ok(
                BodyState {
                    entries: state.entries,
                    current: Some(with_member(group, SubEntryView::Comment(text))),
                },
            ),
            None => Ok(
                BodyState {
                    entries: state.entries.push(EntryView::Comment(text)),
                    current: None,
                },
            ),
        }
    }
}

/// What reading the rows of a body from the state `state` gives. The body
/// ends with the rows or at a blank row, and the group that is open then is
/// closed.
pub open spec fn body_entries_spec(state: BodyState, rows: Seq<Row>, version: Version) -> Outcome<
    Seq<EntryView>,
>
    decreases rows.len(),
{
    match try_next_record_spec(rows) {
        Err(e) => Outcome { result: Err(e), rest: after_one(rows) },
        Ok(None) => Outcome { result: Ok(close(state)), rest: after_one(rows) },
        Ok(Some(row)) => match body_step(state, row, version) {
            Err(e) => Outcome { result: Err(e), rest: after_one(rows) },
            Ok(next) => body_entries_spec(next, after_one(rows), version),
        },
    }
}

/// What reading the entries of a body gives.
pub open spec fn parse_entries_spec(rows: Seq<Row>, version: Version) -> Outcome<Seq<EntryView>> {
    body_entries_spec(initial_state(), rows, version)
}

/// What reading a body, headers first, gives.
pub open spec fn parse_spec(rows: Seq<Row>, version: Version) -> Outcome<Seq<EntryView>> {
    let headers = check_headers_spec(rows, version);
    match headers.result {
        Err(e) => Outcome { result: Err(e), rest: headers.rest },
        Ok(()) => parse_entries_spec(headers.rest, version),
    }
}

/// The value of the group that is open, if one is.
pub open spec fn group_view(current: Option<FieldGroup>) -> Option<FieldGroupView> {
    match current {
        Some(group) => Some(group@),
        None => None,
    }
}

/// The comment that a row stands for.
pub fn build_comment(cells: &Vec<String>) -> (comment: Comment)
    ensures
        comment.text@ == comment_text(cells_view(cells@)),
{
    Comment { text: build_comment_text(cells) }
}

/// Reads the entries of a body.
pub fn parse_entries(reader: &mut RecordReader, version: Version) -> (r: Result<
    Vec<Entry>,
    ParseError,
>)
    ensures
        match r {
            Ok(entries) => parse_entries_spec(old(reader).remaining(), version).result == Ok::<
                _,
                ParseErrorView,
            >(entries_view(entries@)),
            Err(e) => parse_entries_spec(old(reader).remaining(), version).result == Err::<
                Seq<EntryView>,
                _,
            >(e@),
        },
        final(reader).remaining() == parse_entries_spec(old(reader).remaining(), version).rest,
{
    let mut entries: Vec<Entry> = Vec::new();
    let mut current: Option<FieldGroup> = None;
    let ghost goal = parse_entries_spec(old(reader).remaining(), version);
    assert(entries_view(entries@) =~= Seq::<EntryView>::empty());
    loop
        invariant_except_break
            body_entries_spec(
                BodyState { entries: entries_view(entries@), current: group_view(current) },
                reader.remaining(),
                version,
            ) == goal,
        invariant
            goal == parse_entries_spec(old(reader).remaining(), version),
        ensures
            goal.result == Ok::<_, ParseErrorView>(
                close(BodyState { entries: entries_view(entries@), current: group_view(current) }),
            ),
            reader.remaining() == goal.rest,
        decreases reader.remaining().len(),
    {
        let record = match try_next_record(reader) {
            Err(e) => {
                return Err(e);
            },
            Ok(None) => {
                break ;
            },
            Ok(Some(record)) => record,
        };
        let ghost old_entries = entries@;
        if record.record[0].as_str().is_empty() {
            let line = match decode_line(&record.record, version) {
                Ok(line) => line,
                Err(kind) => {
                    return Err(ParseError::at(record.position, kind));
                },
            };
            match line_model(line) {
                Err(kind) => {
                    return Err(ParseError::at(record.position, kind));
                },
                Ok(LineModel::BitFieldGroup(group)) => {
                    match current.take() {
                        Some(done) => {
                            entries.push(Entry::FieldGroup(done));
                            assert(entries_view(entries@) =~= entries_view(old_entries).push(
                                EntryView::FieldGroup(done@),
                            ));
                        },
                        None => {},
                    }
                    current = Some(group);
                },
                Ok(LineModel::BitField(field)) => {
                    match current.take() {
                        Some(group) => {
                            let mut group = group;
                            let ghost members = group.sub_entries@;
                            group.sub_entries.push(SubEntry::Field(field));
                            assert(sub_entries_view(group.sub_entries@) =~= sub_entries_view(
                                members,
                            ).push(SubEntryView::Field(field@)));
                            current = Some(group);
                        },
                        None => {
                            return Err(
                                ParseError::at(record.position, ErrorKind::UnexpectedField),
                            );
                        },
                    }
                },
            }
        } else {
            let comment = build_comment(&record.record);
            match current.take() {
                Some(group) => {
                    let mut group = group;
                    let ghost members = group.sub_entries@;
                    group.sub_entries.push(SubEntry::Comment(comment));
                    assert(sub_entries_view(group.sub_entries@) =~= sub_entries_view(
                        members,
                    ).push(SubEntryView::Comment(comment.text@)));
                    current = Some(group);
                },
                None => {
                    entries.push(Entry::Comment(comment));
                    assert(entries_view(entries@) =~= entries_view(old_entries).push(
                        EntryView::Comment(comment.text@),
                    ));
                },
            }
        }
    }
    let ghost old_entries = entries@;
    match current {
        Some(group) => {
            entries.push(Entry::FieldGroup(group));
            assert(entries_view(entries@) =~= entries_view(old_entries).push(
                EntryView::FieldGroup(group@),
            ));
        },
        None => {},
    }
    Ok(entries)
}

/// Reads a body: its three header rows, then its entries.
pub fn parse(reader: &mut RecordReader, version: Version) -> (r: Result<Vec<Entry>, ParseError>)
    ensures
        match r {
            Ok(entries) => parse_spec(old(reader).remaining(), version).result == Ok::<
                _,
                ParseErrorView,
            >(entries_view(entries@)),
            Err(e) => parse_spec(old(reader).remaining(), version).result == Err::<
                Seq<EntryView>,
                _,
            >(e@),
        },
        final(reader).remaining() == parse_spec(old(reader).remaining(), version).rest,
{
    match check_headers(reader, version) {
        Err(e) => Err(e),
        Ok(()) => parse_entries(reader, version),
    }
}

/// Whether every field of every group among `entries` is without display
/// information.
pub open spec fn entries_lack_display_info(entries: Seq<EntryView>) -> bool {
    forall|i: int|
        0 <= i < entries.len() ==> ((#[trigger] entries[i]) matches EntryView::FieldGroup(group)
            ==> members_lack_display_info(group.sub_entries))
}

proof fn lemma_entries_lack_display_info(state: BodyState, rows: Seq<Row>, version: Version)
    requires
        !version.has_display_info(),
        entries_lack_display_info(state.entries),
        state.current matches Some(group) ==> members_lack_display_info(group.sub_entries),
    ensures
        body_entries_spec(state, rows, version).result matches Ok(entries)
            ==> entries_lack_display_info(entries),
    decreases rows.len(),
{
    if let Ok(Some(row)) = try_next_record_spec(rows) {
        if let Ok(next) = body_step(state, row, version) {
            lemma_entries_lack_display_info(next, after_one(rows), version);
        }
    }
}

/// A body of a generation before the third has no field with display
/// information.
pub proof fn lemma_body_lacks_display_info(rows: Seq<Row>, version: Version)
    requires
        !version.has_display_info(),
    ensures
        parse_spec(rows, version).result matches Ok(entries) ==> entries_lack_display_info(
            entries,
        ),
{
    lemma_entries_lack_display_info(
        initial_state(),
        check_headers_spec(rows, version).rest,
        version,
    );
}

/// A row that opens a group closes the group that was open, which goes to
/// the entries with the members that it has got so far, and the new group
/// starts with the field of the row alone.
pub proof fn lemma_group_row_opens_group(
    state: BodyState,
    row: PosStringRecordView,
    version: Version,
    group: FieldGroupView,
)
    requires
        row.record.len() > 0,
        row.record[0].len() == 0,
        row_model_spec(row.record, version) == Ok::<_, ErrorKindView>(
            LineModelView::BitFieldGroup(group),
        ),
    ensures
        body_step(state, row, version) == Ok::<_, ParseErrorView>(
            BodyState { entries: close(state), current: Some(group) },
        ),
        group.sub_entries.len() == 1,
        group.sub_entries[0] is Field,
{
}

/// A row that gives a field adds it to the group that is open and leaves
/// the entries as they are.
pub proof fn lemma_field_row_joins_group(
    state: BodyState,
    row: PosStringRecordView,
    version: Version,
    field: FieldView,
)
    requires
        row.record.len() > 0,
        row.record[0].len() == 0,
        row_model_spec(row.record, version) == Ok::<_, ErrorKindView>(
            LineModelView::BitField(field),
        ),
        state.current is Some,
    ensures
        body_step(state, row, version) == Ok::<_, ParseErrorView>(
            BodyState {
                entries: state.entries,
                current: Some(with_member(state.current->0, SubEntryView::Field(field))),
            },
        ),
{
}

/// Two rows that each open a group, with nothing after them, give two
/// groups, each with the field of its own row.
pub proof fn lemma_two_group_rows(
    first: PosStringRecordView,
    second: PosStringRecordView,
    version: Version,
    first_group: FieldGroupView,
    second_group: FieldGroupView,
)
    requires
        first.record.len() > 0 && first.record[0].len() == 0,
        second.record.len() > 0 && second.record[0].len() == 0,
        row_model_spec(first.record, version) == Ok::<_, ErrorKindView>(
            LineModelView::BitFieldGroup(first_group),
        ),
        row_model_spec(second.record, version) == Ok::<_, ErrorKindView>(
            LineModelView::BitFieldGroup(second_group),
        ),
    ensures
        parse_entries_spec(seq![Ok(first), Ok(second)], version).result == Ok::<
            _,
            ParseErrorView,
        >(seq![EntryView::FieldGroup(first_group), EntryView::FieldGroup(second_group)]),
{
    let rows: Seq<Row> = seq![Ok(first), Ok(second)];
    let one = BodyState { entries: Seq::empty(), current: Some(first_group) };
    let two = BodyState { entries: close(one), current: Some(second_group) };
    assert(after_one(rows) =~= seq![Ok(second)]);
    assert(body_entries_spec(one, seq![Ok(second)], version) == body_entries_spec(
        two,
        after_one(seq![Ok(second)]),
        version,
    ));
    assert(close(two) =~= seq![
        EntryView::FieldGroup(first_group),
        EntryView::FieldGroup(second_group),
    ]);
}

/// Whether every group among `entries` has a member, the first being the
/// field of the row that opened the group.
pub open spec fn groups_start_with_field(entries: Seq<EntryView>) -> bool {
    forall|i: int|
        0 <= i < entries.len() ==> ((#[trigger] entries[i]) matches EntryView::FieldGroup(group)
            ==> group.sub_entries.len() > 0 && group.sub_entries[0] is Field)
}

proof fn lemma_entries_start_with_field(state: BodyState, rows: Seq<Row>, version: Version)
    requires
        groups_start_with_field(state.entries),
        state.current matches Some(group) ==> group.sub_entries.len() > 0
            && group.sub_entries[0] is Field,
    ensures
        body_entries_spec(state, rows, version).result matches Ok(entries)
            ==> groups_start_with_field(entries),
    decreases rows.len(),
{
    if let Ok(Some(row)) = try_next_record_spec(rows) {
        if let Ok(next) = body_step(state, row, version) {
            lemma_entries_start_with_field(next, after_one(rows), version);
        }
    }
}

/// Every group of a body has one member at least, and its first member is
/// a field.
pub proof fn lemma_groups_start_with_field(rows: Seq<Row>, version: Version)
    ensures
        parse_spec(rows, version).result matches Ok(entries) ==> groups_start_with_field(entries),
{
    lemma_entries_start_with_field(
        initial_state(),
        check_headers_spec(rows, version).rest,
        version,
    );
}

} // verus!

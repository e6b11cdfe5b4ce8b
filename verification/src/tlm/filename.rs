//! The naming convention of telemetry tables:
//! `<component>_TLM_DB_<telemetry>.csv`, the component being optional.

use crate::error::{ErrorKind, ErrorKindView};
use crate::text::{chars_of, option_text, string_of_range};
use vstd::prelude::*;

verus! {

/// What the name of a telemetry table tells.
#[derive(Debug, Clone, PartialEq, Eq, Hash, PartialOrd, Ord)]
pub struct Filename {
    pub component: Option<String>,
    pub telemetry: String,
}

/// The mathematical value of a [`Filename`].
pub struct FilenameView {
    pub component: Option<Seq<char>>,
    pub telemetry: Seq<char>,
}

impl View for Filename {
    type V = FilenameView;

    open spec fn view(&self) -> FilenameView {
        FilenameView { component: option_text(self.component), telemetry: self.telemetry@ }
    }
}

/// Whether `pattern` stands in `s` at the index `at`.
pub open spec fn occurs_at(s: Seq<char>, pattern: Seq<char>, at: int) -> bool {
    0 <= at && at + pattern.len() <= s.len() && s.subrange(at, at + pattern.len()) == pattern
}

/// The least index from `from` on at which `pattern` stands in `s`, if it
/// stands anywhere from there on.
pub open spec fn find_from(s: Seq<char>, pattern: Seq<char>, from: int) -> Option<int>
    decreases s.len() + 1 - from,
{
    if from < 0 || from + pattern.len() > s.len() {
        None
    } else if occurs_at(s, pattern, from) {
        Some(from)
    } else {
        find_from(s, pattern, from + 1)
    }
}

/// The greatest index at which `c` stands in `s`, if it stands anywhere.
pub open spec fn last_index_of(s: Seq<char>, c: char) -> Option<int>
    decreases s.len(),
{
    if s.len() == 0 {
        None
    } else if s.last() == c {
        Some(s.len() - 1)
    } else {
        last_index_of(s.drop_last(), c)
    }
}

/// The component that the part of a name before the marker gives: what
/// follows its last underscore, and none if it has no underscore.
pub open spec fn component_of(head: Seq<char>) -> Option<Seq<char>> {
    match last_index_of(head, '_') {
        Some(i) => Some(head.skip(i + 1)),
        None => None,
    }
}

/// What the name `s` tells. It must end in `.csv`. Its first `_TLM_DB_`
/// parts the component from the telemetry; a name that has none but
/// begins with `TLM_DB_` gives the telemetry alone.
pub open spec fn filename_spec(s: Seq<char>) -> Result<FilenameView, ErrorKindView> {
    let extension = ".csv"@;
    let marker = "_TLM_DB_"@;
    let bare_marker = "TLM_DB_"@;
    if !occurs_at(s, extension, s.len() - extension.len()) {
        Err(ErrorKindView::InvalidFilename)
    } else {
        let base = s.take(s.len() - extension.len());
        match find_from(base, marker, 0) {
            Some(i) => Ok(
                FilenameView {
                    component: component_of(base.take(i)),
                    telemetry: base.skip(i + marker.len()),
                },
            ),
            None => if occurs_at(base, bare_marker, 0) {
                Ok(FilenameView { component: None, telemetry: base.skip(bare_marker.len() as int) })
            } else {
                Err(ErrorKindView::InvalidFilename)
            },
        }
    }
}

/// Whether `pattern` stands in `v[..end]` at the index `at`.
fn matches_at(v: &Vec<char>, end: usize, pattern: &Vec<char>, at: usize) -> (r: bool)
    requires
        end <= v.len(),
        at <= end,
    ensures
        r == occurs_at(v@.take(end as int), pattern@, at as int),
{
    let ghost s = v@.take(end as int);
    if pattern.len() > end - at {
        return false;
    }
    let mut i: usize = 0;
    while i < pattern.len()
        invariant
            i <= pattern.len(),
            at + pattern.len() <= end <= v.len(),
            s == v@.take(end as int),
            forall|j: int| 0 <= j < i ==> s[at + j] == pattern@[j],
        decreases pattern.len() - i,
    {
        if v[at + i] != pattern[i] {
            return false;
        }
        i += 1;
    }
    assert(s.subrange(at as int, at + pattern.len()) =~= pattern@);
    true
}

/// The least index at which `pattern` stands in `v[..end]`.
fn find_pattern(v: &Vec<char>, end: usize, pattern: &Vec<char>) -> (r: Option<usize>)
    requires
        end <= v.len(),
    ensures
        match r {
            Some(i) => find_from(v@.take(end as int), pattern@, 0) == Some(i as int) && i
                + pattern.len() <= end,
            None => find_from(v@.take(end as int), pattern@, 0) is None,
        },
{
    let ghost s = v@.take(end as int);
    if pattern.len() > end {
        return None;
    }
    let last = end - pattern.len();
    let mut i: usize = 0;
    loop
        invariant
            i <= last,
            last + pattern.len() == end,
            end <= v.len(),
            s == v@.take(end as int),
            find_from(s, pattern@, i as int) == find_from(s, pattern@, 0),
        decreases last - i,
    {
        if matches_at(v, end, pattern, i) {
            return Some(i);
        }
        if i == last {
            assert(find_from(s, pattern@, i + 1) is None);
            return None;
        }
        i += 1;
    }
}

/// The greatest index at which `c` stands in `v[..end]`.
fn find_last(v: &Vec<char>, end: usize, c: char) -> (r: Option<usize>)
    requires
        end <= v.len(),
    ensures
        match r {
            Some(i) => last_index_of(v@.take(end as int), c) == Some(i as int) && i < end,
            None => last_index_of(v@.take(end as int), c) is None,
        },
{
    let mut i: usize = end;
    while i > 0
        invariant
            i <= end <= v.len(),
            last_index_of(v@.take(i as int), c) == last_index_of(v@.take(end as int), c),
        decreases i,
    {
        assert(v@.take(i as int).drop_last() == v@.take(i - 1));
        if v[i - 1] == c {
            return Some(i - 1);
        }
        i -= 1;
    }
    None
}

impl Filename {
    /// Reads the name of a telemetry table.
    pub fn parse(s: &str) -> (r: Result<Filename, ErrorKind>)
        ensures
            match r {
                Ok(name) => filename_spec(s@) == Ok::<_, ErrorKindView>(name@),
                Err(e) => filename_spec(s@) == Err::<FilenameView, _>(e@),
            },
    {
        let v = chars_of(s);
        let extension = chars_of(".csv");
        let marker = chars_of("_TLM_DB_");
        let bare_marker = chars_of("TLM_DB_");
        assert(v@.take(v.len() as int) == v@);
        if extension.len() > v.len() || !matches_at(
            &v,
            v.len(),
            &extension,
            v.len() - extension.len(),
        ) {
            return Err(ErrorKind::InvalidFilename);
        }
        let end = v.len() - extension.len();
        let ghost base = v@.take(end as int);
        match find_pattern(&v, end, &marker) {
            Some(i) => {
                assert(base.take(i as int) == v@.take(i as int));
                assert(base.skip(i + marker.len()) == v@.subrange(
                    i + marker.len(),
                    end as int,
                ));
                let telemetry = string_of_range(&v, i + marker.len(), end);
                let component = match find_last(&v, i, '_') {
                    Some(j) => {
                        assert(v@.take(i as int).skip(j + 1) == v@.subrange(j + 1, i as int));
                        Some(string_of_range(&v, j + 1, i))
                    },
                    None => None,
                };
                Ok(Filename { component, telemetry })
            },
            None => {
                if matches_at(&v, end, &bare_marker, 0) {
                    assert(base.skip(bare_marker.len() as int) == v@.subrange(
                        bare_marker.len() as int,
                        end as int,
                    ));
                    let telemetry = string_of_range(&v, bare_marker.len(), end);
                    Ok(Filename { component: None, telemetry })
                } else {
                    Err(ErrorKind::InvalidFilename)
                }
            },
        }
    }
}

impl std::str::FromStr for Filename {
    type Err = ErrorKind;

    fn from_str(s: &str) -> (r: Result<Filename, ErrorKind>)
        ensures
            match r {
                Ok(name) => filename_spec(s@) == Ok::<_, ErrorKindView>(name@),
                Err(e) => filename_spec(s@) == Err::<FilenameView, _>(e@),
            },
    {
        Filename::parse(s)
    }
}

} // verus!

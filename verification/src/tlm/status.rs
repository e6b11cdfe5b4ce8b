//! The status mapping of a field: rules `key=value`, parted by commas, that
//! name integer values.

use crate::error::{ErrorKind, ErrorKindView};
use crate::text::{
    chars_of, copy_range, find_char, first_where, index_of, is_char, lemma_first_where,
    lemma_first_where_is_first, number_literal, option_text, parse_number, string_of_range, trim,
    trim_range,
};
use crate::tlm::conversion::{Status, StatusView, Variant, VariantView, keys_ascend, variants_view};
use vstd::prelude::*;

verus! {

/// The property of a variant that its key is at least `key`.
pub open spec fn key_at_least(key: i64) -> spec_fn(VariantView) -> bool {
    |v: VariantView| v.key >= key
}

/// Where a variant with the key `key` belongs among `variants`.
pub open spec fn key_position(variants: Seq<VariantView>, key: i64) -> int {
    first_where(variants, key_at_least(key))
}

/// Whether one of `variants` has the key `key`.
pub open spec fn has_key(variants: Seq<VariantView>, key: i64) -> bool {
    exists|i: int| 0 <= i < variants.len() && (#[trigger] variants[i]).key == key
}

/// `variants` with one more, put where its key belongs.
pub open spec fn insert_variant(variants: Seq<VariantView>, key: i64, value: Seq<char>) -> Seq<
    VariantView,
> {
    variants.insert(key_position(variants, key), VariantView { key, value })
}

/// The integer that the key `text` of a status rule denotes: a decimal
/// literal, or a hexadecimal one after `0x`.
pub open spec fn status_key(text: Seq<char>) -> Option<i64> {
    match number_literal(text, i64::MIN as int, i64::MAX as int) {
        Some(k) => Some(k as i64),
        None => None,
    }
}

/// The status table `status` with the rule `rule` added to it. A rule is a
/// key and a value around the first `=`, both trimmed; the key `*` gives
/// the default value.
pub open spec fn add_status_rule(status: StatusView, rule: Seq<char>) -> Result<
    StatusView,
    ErrorKindView,
> {
    let eq = index_of(rule, '=');
    if eq >= rule.len() {
        Err(ErrorKindView::MalformedStatusPair)
    } else {
        let key = trim(rule.take(eq));
        let value = trim(rule.skip(eq + 1));
        if key == seq!['*'] {
            if status.default_value is Some {
                Err(ErrorKindView::DuplicateDefaultValue)
            } else {
                Ok(StatusView { variants: status.variants, default_value: Some(value) })
            }
        } else {
            match status_key(key) {
                None => Err(ErrorKindView::InvalidStatusKey),
                Some(k) => if has_key(status.variants, k) {
                    Err(ErrorKindView::DuplicateStatusKey { key: k })
                } else {
                    Ok(
                        StatusView {
                            variants: insert_variant(status.variants, k, value),
                            default_value: status.default_value,
                        },
                    )
                },
            }
        }
    }
}

/// The status table `status` with the rules of `text` added to it from left
/// to right. Commas part the rules.
pub open spec fn add_status_rules(status: StatusView, text: Seq<char>) -> Result<
    StatusView,
    ErrorKindView,
>
    decreases text.len(),
{
    let comma = index_of(text, ',');
    if comma < 0 || comma >= text.len() {
        add_status_rule(status, text)
    } else {
        match add_status_rule(status, text.take(comma)) {
            Err(e) => Err(e),
            Ok(next) => add_status_rules(next, text.skip(comma + 1)),
        }
    }
}

/// The number of rules in `text`: one more than it has commas.
pub open spec fn rule_count(text: Seq<char>) -> nat
    decreases text.len(),
{
    let comma = index_of(text, ',');
    if comma < 0 || comma >= text.len() {
        1
    } else {
        1 + rule_count(text.skip(comma + 1))
    }
}

/// The status table without a rule.
pub open spec fn empty_status() -> StatusView {
    StatusView { variants: Seq::empty(), default_value: None }
}

/// The status table that `text` describes.
pub open spec fn parse_status_map_spec(text: Seq<char>) -> Result<StatusView, ErrorKindView> {
    add_status_rules(empty_status(), text)
}

/// The number of rules that a status table holds.
pub open spec fn entry_count(status: StatusView) -> nat {
    status.variants.len() + if status.default_value is Some {
        1nat
    } else {
        0nat
    }
}

proof fn lemma_insert_variant(variants: Seq<VariantView>, key: i64, value: Seq<char>)
    requires
        keys_ascend(variants),
        !has_key(variants, key),
    ensures
        keys_ascend(insert_variant(variants, key, value)),
        insert_variant(variants, key, value).len() == variants.len() + 1,
{
    lemma_first_where_is_first(variants, key_at_least(key));
}

proof fn lemma_add_status_rule(status: StatusView, rule: Seq<char>)
    requires
        keys_ascend(status.variants),
    ensures
        add_status_rule(status, rule) matches Ok(next) ==> keys_ascend(next.variants)
            && entry_count(next) == entry_count(status) + 1,
{
    if let Ok(next) = add_status_rule(status, rule) {
        let eq = index_of(rule, '=');
        let key = trim(rule.take(eq));
        if key != seq!['*'] {
            let k = status_key(key).unwrap();
            lemma_insert_variant(status.variants, k, trim(rule.skip(eq + 1)));
        }
    }
}

proof fn lemma_add_status_rules(status: StatusView, text: Seq<char>)
    requires
        keys_ascend(status.variants),
    ensures
        add_status_rules(status, text) matches Ok(next) ==> keys_ascend(next.variants)
            && entry_count(next) == entry_count(status) + rule_count(text),
    decreases text.len(),
{
    lemma_first_where_is_first(text, is_char(','));
    let comma = index_of(text, ',');
    if comma >= text.len() {
        lemma_add_status_rule(status, text);
    } else {
        lemma_add_status_rule(status, text.take(comma));
        if let Ok(next) = add_status_rule(status, text.take(comma)) {
            lemma_add_status_rules(next, text.skip(comma + 1));
        }
    }
}

/// A status text that is accepted gives every rule an entry of its own: the
/// keys ascend strictly, so that none occurs twice, and the table holds as
/// many entries as the text holds rules. A text with a second default
/// value, or with two keys that denote one integer in whatever spelling, is
/// therefore not accepted.
pub proof fn lemma_status_map_entries(text: Seq<char>)
    ensures
        parse_status_map_spec(text) matches Ok(status) ==> keys_ascend(status.variants)
            && entry_count(status) == rule_count(text),
{
    lemma_add_status_rules(empty_status(), text);
}

/// A rule whose key is `*` is refused by a table that has a default value.
pub proof fn lemma_second_default_refused(status: StatusView, rule: Seq<char>)
    requires
        status.default_value is Some,
        index_of(rule, '=') < rule.len(),
        trim(rule.take(index_of(rule, '='))) == seq!['*'],
    ensures
        add_status_rule(status, rule) == Err::<StatusView, _>(
            ErrorKindView::DuplicateDefaultValue,
        ),
{
}

/// A rule whose key denotes an integer that the table has a variant for is
/// refused, however the key is spelled.
pub proof fn lemma_repeated_key_refused(status: StatusView, rule: Seq<char>, key: i64)
    requires
        index_of(rule, '=') < rule.len(),
        trim(rule.take(index_of(rule, '='))) != seq!['*'],
        status_key(trim(rule.take(index_of(rule, '=')))) == Some(key),
        has_key(status.variants, key),
    ensures
        add_status_rule(status, rule) == Err::<StatusView, _>(
            ErrorKindView::DuplicateStatusKey { key },
        ),
{
}

/// Whether `text` holds no comma, so that it is one rule.
pub open spec fn is_one_rule(text: Seq<char>) -> bool {
    index_of(text, ',') >= text.len()
}

/// The text made of the rules of `rules` and of the rule `rule` after them.
pub open spec fn with_rule(rules: Seq<char>, rule: Seq<char>) -> Seq<char> {
    rules + seq![','] + rule
}

/// The rules of a text are added from left to right: the last rule is
/// added to what the rules before it give.
pub proof fn lemma_last_rule_is_added_last(status: StatusView, rules: Seq<char>, rule: Seq<char>)
    requires
        is_one_rule(rule),
    ensures
        add_status_rules(status, with_rule(rules, rule)) == match add_status_rules(status, rules) {
            Err(e) => Err(e),
            Ok(next) => add_status_rule(next, rule),
        },
    decreases rules.len(),
{
    let text = with_rule(rules, rule);
    let comma = index_of(rules, ',');
    lemma_first_where_is_first(rules, is_char(','));
    if comma >= rules.len() {
        lemma_first_where(text, is_char(','), rules.len() as int);
        assert(text.take(rules.len() as int) =~= rules);
        assert(text.skip(rules.len() as int + 1) =~= rule);
        if let Ok(next) = add_status_rule(status, rules) {
            assert(add_status_rules(next, rule) == add_status_rule(next, rule));
        }
    } else {
        lemma_first_where(text, is_char(','), comma);
        assert(text.take(comma) =~= rules.take(comma));
        assert(text.skip(comma + 1) =~= with_rule(rules.skip(comma + 1), rule));
        if let Ok(next) = add_status_rule(status, rules.take(comma)) {
            lemma_last_rule_is_added_last(next, rules.skip(comma + 1), rule);
        }
    }
}

/// A text is refused if one of its rules has a key that denotes the same
/// integer as the key of a rule before it, in whatever spelling: where the
/// rules before the last are accepted and give a variant for the integer
/// that the key of the last denotes, the text is refused for that key.
pub proof fn lemma_repeated_key_in_text(rules: Seq<char>, rule: Seq<char>, key: i64)
    requires
        is_one_rule(rule),
        index_of(rule, '=') < rule.len(),
        trim(rule.take(index_of(rule, '='))) != seq!['*'],
        status_key(trim(rule.take(index_of(rule, '=')))) == Some(key),
        parse_status_map_spec(rules) matches Ok(status) && has_key(status.variants, key),
    ensures
        parse_status_map_spec(with_rule(rules, rule)) == Err::<StatusView, _>(
            ErrorKindView::DuplicateStatusKey { key },
        ),
{
    lemma_last_rule_is_added_last(empty_status(), rules, rule);
}

/// A text is refused if two of its rules give a default value: where the
/// rules before the last are accepted and give a default value, and the
/// key of the last is `*`, the text is refused for the second default.
pub proof fn lemma_second_default_in_text(rules: Seq<char>, rule: Seq<char>)
    requires
        is_one_rule(rule),
        index_of(rule, '=') < rule.len(),
        trim(rule.take(index_of(rule, '='))) == seq!['*'],
        parse_status_map_spec(rules) matches Ok(status) && status.default_value is Some,
    ensures
        parse_status_map_spec(with_rule(rules, rule)) == Err::<StatusView, _>(
            ErrorKindView::DuplicateDefaultValue,
        ),
{
    lemma_last_rule_is_added_last(empty_status(), rules, rule);
}

/// Where a variant with the key `key` belongs among `variants`, which
/// ascend by key, and whether one of them has that key.
fn find_key(variants: &Vec<Variant>, key: i64) -> (r: (usize, bool))
    requires
        keys_ascend(variants_view(variants@)),
    ensures
        r.0 == key_position(variants_view(variants@), key),
        r.0 <= variants.len(),
        r.1 == has_key(variants_view(variants@), key),
{
    let ghost vs = variants_view(variants@);
    let mut i: usize = 0;
    while i < variants.len() && variants[i].key < key
        invariant
            i <= variants.len(),
            vs == variants_view(variants@),
            forall|j: int| 0 <= j < i ==> (#[trigger] vs[j]).key < key,
        decreases variants.len() - i,
    {
        i += 1;
    }
    let found = i < variants.len() && variants[i].key == key;
    proof {
        lemma_first_where(vs, key_at_least(key), i as int);
    }
    (i, found)
}

/// Reads a status table from its rules.
pub fn parse_status_map(s: &str) -> (r: Result<Status, ErrorKind>)
    ensures
        match r {
            Ok(status) => parse_status_map_spec(s@) == Ok::<_, ErrorKindView>(status@)
                && status.wf(),
            Err(e) => parse_status_map_spec(s@) == Err::<StatusView, _>(e@),
        },
{
    let v = chars_of(s);
    let mut variants: Vec<Variant> = Vec::new();
    let mut default_value: Option<String> = None;
    let mut start: usize = 0;
    assert(v@.skip(0) == v@);
    assert(variants_view(variants@) == Seq::<VariantView>::empty());
    loop
        invariant
            start <= v.len(),
            v@ == s@,
            keys_ascend(variants_view(variants@)),
            add_status_rules(
                StatusView {
                    variants: variants_view(variants@),
                    default_value: option_text(default_value),
                },
                v@.skip(start as int),
            ) == parse_status_map_spec(s@),
        decreases v.len() - start,
    {
        let ghost text = v@.skip(start as int);
        let ghost before = StatusView {
            variants: variants_view(variants@),
            default_value: option_text(default_value),
        };
        let end = find_char(&v, start, v.len(), ',');
        let ghost rule = v@.subrange(start as int, end as int);
        proof {
            if end < v.len() {
                assert(text.take(end - start) == rule);
                assert(text.skip(end - start + 1) == v@.skip(end + 1));
            }
        }
        let eq = find_char(&v, start, end, '=');
        if eq == end {
            return Err(ErrorKind::MalformedStatusPair);
        }
        assert(rule.take(eq - start) == v@.subrange(start as int, eq as int));
        assert(rule.skip(eq - start + 1) == v@.subrange(eq + 1, end as int));
        let (key_from, key_to) = trim_range(&v, start, eq);
        let (value_from, value_to) = trim_range(&v, eq + 1, end);
        let value = string_of_range(&v, value_from, value_to);
        let key = copy_range(&v, key_from, key_to);
        if key.len() == 1 && key[0] == '*' {
            assert(key@ == seq!['*']);
            if default_value.is_some() {
                return Err(ErrorKind::DuplicateDefaultValue);
            }
            default_value = Some(value);
        } else {
            match parse_number(&key, i64::MIN as i128, i64::MAX as i128) {
                None => {
                    return Err(ErrorKind::InvalidStatusKey);
                },
                Some(n) => {
                    let k: i64 = n as i64;
                    let (position, found) = find_key(&variants, k);
                    if found {
                        return Err(ErrorKind::DuplicateStatusKey { key: k });
                    }
                    proof {
                        lemma_insert_variant(before.variants, k, value@);
                    }
                    let ghost old_variants = variants@;
                    variants.insert(position, Variant { key: k, value });
                    assert(variants_view(variants@) == insert_variant(
                        variants_view(old_variants),
                        k,
                        value@,
                    ));
                },
            }
        }
        if end == v.len() {
            let status = Status { variants, default_value };
            return Ok(status);
        }
        start = end + 1;
    }
}

} // verus!

//! Per-module preferences and their schema.
//!
//! A schema declares fields, each with a default. Stored values may lack
//! fields; merging fills those in and leaves every stored value as it is,
//! whatever its type.

use crate::text::{first_index, is_first_index, lemma_first_index_exists, lemma_first_index_unique};
use vstd::prelude::*;

verus! {

/// A preference value.
#[derive(Debug, Clone)]
pub enum PreferenceValue {
    Bool(bool),
    Integer(i64),
    Text(String),
}

/// A preference value as a mathematical value.
pub enum PreferenceModel {
    Bool(bool),
    Integer(int),
    Text(Seq<char>),
}

impl View for PreferenceValue {
    type V = PreferenceModel;

    open spec fn view(&self) -> PreferenceModel {
        match self {
            PreferenceValue::Bool(b) => PreferenceModel::Bool(*b),
            PreferenceValue::Integer(n) => PreferenceModel::Integer(*n as int),
            PreferenceValue::Text(s) => PreferenceModel::Text(s@),
        }
    }
}

impl PreferenceValue {
    /// A copy of this value.
    pub fn duplicate(&self) -> (copy: PreferenceValue)
        ensures
            copy@ == self@,
    {
        match self {
            PreferenceValue::Bool(b) => PreferenceValue::Bool(*b),
            PreferenceValue::Integer(n) => PreferenceValue::Integer(*n),
            PreferenceValue::Text(s) => PreferenceValue::Text(s.clone()),
        }
    }
}

/// One declared field of a schema.
#[derive(Debug, Clone)]
pub struct PreferenceField {
    pub key: String,
    pub label: String,
    pub default: PreferenceValue,
}

/// The fields that a module declares, in the order in which it declares them.
#[derive(Debug, Clone)]
pub struct PreferencesSchema {
    pub fields: Vec<PreferenceField>,
}

/// One stored value under its field name.
#[derive(Debug, Clone)]
pub struct PreferenceEntry {
    pub key: String,
    pub value: PreferenceValue,
}

/// A field name with a value, as mathematical values.
pub type Pair = (Seq<char>, PreferenceModel);

/// The entries of a value list as pairs.
pub open spec fn pairs_of(entries: Seq<PreferenceEntry>) -> Seq<Pair> {
    Seq::new(entries.len(), |i: int| (entries[i].key@, entries[i].value@))
}

/// The fields of a schema as pairs of name and default.
pub open spec fn defaults_of(fields: Seq<PreferenceField>) -> Seq<Pair> {
    Seq::new(fields.len(), |i: int| (fields[i].key@, fields[i].default@))
}

/// The names of a list of pairs.
pub open spec fn names_of(pairs: Seq<Pair>) -> Seq<Seq<char>> {
    Seq::new(pairs.len(), |i: int| pairs[i].0)
}

/// The value that `pairs` holds for `name`: that of the first pair with the
/// name, if any.
pub open spec fn value_of(pairs: Seq<Pair>, name: Seq<char>) -> Option<PreferenceModel> {
    if names_of(pairs).contains(name) {
        Some(pairs[first_index(names_of(pairs), name)].1)
    } else {
        None
    }
}

/// `stored` completed by `defaults`: the stored pairs, followed by each
/// default whose name is not there yet, in order.
pub open spec fn merged(stored: Seq<Pair>, defaults: Seq<Pair>) -> Seq<Pair>
    decreases defaults.len(),
{
    if defaults.len() == 0 {
        stored
    } else {
        let before = merged(stored, defaults.drop_last());
        if names_of(before).contains(defaults.last().0) {
            before
        } else {
            before.push(defaults.last())
        }
    }
}

/// Whether `entries` holds a value for `key`.
fn has_entry(entries: &Vec<PreferenceEntry>, key: &String) -> (found: bool)
    ensures
        found == names_of(pairs_of(entries@)).contains(key@),
{
    let ghost names = names_of(pairs_of(entries@));
    let mut i: usize = 0;
    while i < entries.len()
        invariant
            i <= entries@.len(),
            names == names_of(pairs_of(entries@)),
            forall|j: int| 0 <= j < i ==> names[j] != key@,
        decreases entries@.len() - i,
    {
        if entries[i].key == *key {
            assert(names[i as int] == key@);
            return true;
        }
        i += 1;
    }
    false
}

/// Completes the stored `values` by the defaults of `schema`: every field of
/// the schema that has no stored value gets its default, and every stored
/// value stays as it is.
pub fn merge_with_defaults(values: Vec<PreferenceEntry>, schema: &PreferencesSchema) -> (complete:
    Vec<PreferenceEntry>)
    ensures
        pairs_of(complete@) == merged(pairs_of(values@), defaults_of(schema.fields@)),
{
    let mut complete = values;
    let ghost stored = pairs_of(values@);
    let ghost defaults = defaults_of(schema.fields@);
    let mut i: usize = 0;
    proof {
        assert(defaults.take(0) =~= Seq::<Pair>::empty());
    }
    while i < schema.fields.len()
        invariant
            i <= schema.fields@.len(),
            stored == pairs_of(values@),
            defaults == defaults_of(schema.fields@),
            pairs_of(complete@) == merged(stored, defaults.take(i as int)),
        decreases schema.fields@.len() - i,
    {
        let field = &schema.fields[i];
        let ghost before = pairs_of(complete@);
        proof {
            assert(defaults.take(i + 1).drop_last() =~= defaults.take(i as int));
            assert(defaults.take(i + 1).last() == (field.key@, field.default@));
        }
        if !has_entry(&complete, &field.key) {
            complete.push(
                PreferenceEntry { key: field.key.clone(), value: field.default.duplicate() },
            );
            proof {
                assert(pairs_of(complete@) =~= before.push((field.key@, field.default@)));
            }
        }
        i += 1;
    }
    proof {
        assert(defaults.take(schema.fields@.len() as int) =~= defaults);
    }
    complete
}

/// The values of a module that stored none: the default of every field.
pub fn get_default_preferences(schema: &PreferencesSchema) -> (defaults: Vec<PreferenceEntry>)
    ensures
        pairs_of(defaults@) == merged(Seq::empty(), defaults_of(schema.fields@)),
{
    let none: Vec<PreferenceEntry> = Vec::new();
    assert(pairs_of(none@) =~= Seq::<Pair>::empty());
    merge_with_defaults(none, schema)
}

/// The value stored for `key`: that of the first entry with the key.
pub fn preference<'a>(entries: &'a Vec<PreferenceEntry>, key: &str) -> (found: Option<
    &'a PreferenceValue,
>)
    ensures
        match value_of(pairs_of(entries@), key@) {
            Some(value) => found matches Some(v) && v@ == value,
            None => found is None,
        },
{
    let wanted = key.to_owned();
    let ghost names = names_of(pairs_of(entries@));
    let mut i: usize = 0;
    while i < entries.len()
        invariant
            i <= entries@.len(),
            wanted@ == key@,
            names == names_of(pairs_of(entries@)),
            forall|j: int| 0 <= j < i ==> names[j] != key@,
        decreases entries@.len() - i,
    {
        if entries[i].key == wanted {
            proof {
                assert(names[i as int] == key@);
                assert(is_first_index(names, key@, i as int));
                lemma_first_index_unique(names, key@, i as int);
            }
            return Some(&entries[i].value);
        }
        i += 1;
    }
    None
}

/// Sets the value for `key`: the first entry with the key takes the value;
/// where there is none, an entry is added at the end.
pub fn set_preference(entries: &mut Vec<PreferenceEntry>, key: &str, value: PreferenceValue)
    ensures
        value_of(pairs_of(final(entries)@), key@) == Some(value@),
        forall|other: Seq<char>|
            other != key@ ==> value_of(pairs_of(final(entries)@), other) == value_of(
                pairs_of(old(entries)@),
                other,
            ),
{
    let wanted = key.to_owned();
    let ghost before = pairs_of(entries@);
    let ghost names = names_of(before);
    let mut i: usize = 0;
    while i < entries.len()
        invariant
            i <= entries@.len(),
            entries@ == old(entries)@,
            wanted@ == key@,
            before == pairs_of(entries@),
            names == names_of(before),
            forall|j: int| 0 <= j < i ==> names[j] != key@,
        decreases entries@.len() - i,
    {
        if entries[i].key == wanted {
            proof {
                assert(names[i as int] == key@);
                assert(is_first_index(names, key@, i as int));
            }
            let removed = entries.remove(i);
            entries.insert(i, PreferenceEntry { key: removed.key, value });
            proof {
                let after = pairs_of(entries@);
                assert(after =~= before.update(i as int, (key@, value@)));
                assert(names_of(after) =~= names);
                lemma_first_index_unique(names, key@, i as int);
                assert forall|other: Seq<char>| other != key@ implies value_of(after, other)
                    == value_of(before, other) by {
                    if names.contains(other) {
                        lemma_first_index_exists(names, other);
                    }
                }
            }
            return ;
        }
        i += 1;
    }
    entries.push(PreferenceEntry { key: wanted, value });
    proof {
        let after = pairs_of(entries@);
        let added = before.len() as int;
        assert(after =~= before.push((key@, value@)));
        let names_after = names_of(after);
        assert(names_after =~= names.push(key@));
        assert(is_first_index(names_after, key@, added));
        lemma_first_index_unique(names_after, key@, added);
        assert forall|other: Seq<char>| other != key@ implies value_of(after, other) == value_of(
            before,
            other,
        ) by {
            if names.contains(other) {
                lemma_first_index_exists(names, other);
                let at = first_index(names, other);
                assert(names_after[at] == other);
                assert(is_first_index(names_after, other, at));
                lemma_first_index_unique(names_after, other, at);
            } else if names_after.contains(other) {
                let at = choose|at: int| 0 <= at < names_after.len() && names_after[at] == other;
                assert(names[at] == other);
            }
        }
    }
}

/// Merging keeps the stored pairs at the front, in order.
pub proof fn law_merge_keeps_stored(stored: Seq<Pair>, defaults: Seq<Pair>)
    ensures
        stored.is_prefix_of(merged(stored, defaults)),
    decreases defaults.len(),
{
    if defaults.len() > 0 {
        law_merge_keeps_stored(stored, defaults.drop_last());
    }
}

/// A name with a stored value keeps that value through a merge, whatever
/// the schema says of it.
pub proof fn law_merge_keeps_stored_values(stored: Seq<Pair>, defaults: Seq<Pair>, name: Seq<char>)
    requires
        names_of(stored).contains(name),
    ensures
        value_of(merged(stored, defaults), name) == value_of(stored, name),
{
    law_merge_keeps_stored(stored, defaults);
    let all = merged(stored, defaults);
    lemma_first_index_exists(names_of(stored), name);
    let at = first_index(names_of(stored), name);
    assert(names_of(all)[at] == name);
    assert forall|j: int| 0 <= j < at implies names_of(all)[j] != name by {
        assert(names_of(all)[j] == names_of(stored)[j]);
    }
    assert(is_first_index(names_of(all), name, at));
    lemma_first_index_unique(names_of(all), name, at);
}

/// After a merge every field of the schema has a value.
pub proof fn law_merge_is_complete(stored: Seq<Pair>, defaults: Seq<Pair>, i: int)
    requires
        0 <= i < defaults.len(),
    ensures
        names_of(merged(stored, defaults)).contains(defaults[i].0),
    decreases defaults.len(),
{
    let before = merged(stored, defaults.drop_last());
    let all = merged(stored, defaults);
    if i == defaults.len() - 1 {
        if !names_of(before).contains(defaults.last().0) {
            assert(names_of(all)[before.len() as int] == defaults.last().0);
        }
    } else {
        law_merge_is_complete(stored, defaults.drop_last(), i);
        let at = choose|at: int|
            0 <= at < names_of(before).len() && names_of(before)[at] == defaults[i].0;
        assert(names_of(all)[at] == defaults[i].0);
    }
}

/// A name without a stored value gets, through a merge, the default of the
/// first field of the schema with that name.
pub proof fn law_merge_fills_defaults(stored: Seq<Pair>, defaults: Seq<Pair>, name: Seq<char>)
    requires
        !names_of(stored).contains(name),
    ensures
        value_of(merged(stored, defaults), name) == value_of(defaults, name),
    decreases defaults.len(),
{
    let all = merged(stored, defaults);
    if defaults.len() == 0 {
        assert(names_of(defaults) =~= Seq::<Seq<char>>::empty());
    } else {
        let rest = defaults.drop_last();
        let before = merged(stored, rest);
        law_merge_fills_defaults(stored, rest, name);
        let last = defaults.last();
        if names_of(rest).contains(name) {
            lemma_first_index_exists(names_of(rest), name);
            let at = first_index(names_of(rest), name);
            assert(names_of(defaults)[at] == name);
            assert forall|j: int| 0 <= j < at implies names_of(defaults)[j] != name by {
                assert(names_of(defaults)[j] == names_of(rest)[j]);
            }
            assert(is_first_index(names_of(defaults), name, at));
            lemma_first_index_unique(names_of(defaults), name, at);
            assert(defaults[at] == rest[at]);
            assert(names_of(before).contains(name));
            lemma_first_index_exists(names_of(before), name);
            let found = first_index(names_of(before), name);
            if all != before {
                assert(all == before.push(last));
                assert(names_of(all)[found] == name);
                assert forall|j: int| 0 <= j < found implies names_of(all)[j] != name by {
                    assert(names_of(all)[j] == names_of(before)[j]);
                }
                assert(is_first_index(names_of(all), name, found));
                lemma_first_index_unique(names_of(all), name, found);
            }
        } else {
            assert(value_of(before, name) is None);
            if last.0 == name {
                let at = defaults.len() - 1;
                assert(names_of(defaults)[at] == name);
                assert forall|j: int| 0 <= j < at implies names_of(defaults)[j] != name by {
                    if names_of(defaults)[j] == name {
                        assert(names_of(rest)[j] == name);
                    }
                }
                assert(is_first_index(names_of(defaults), name, at));
                lemma_first_index_unique(names_of(defaults), name, at);
                assert(all == before.push(last));
                let added = before.len() as int;
                assert(names_of(all)[added] == name);
                assert forall|j: int| 0 <= j < added implies names_of(all)[j] != name by {
                    if names_of(all)[j] == name {
                        assert(names_of(before)[j] == name);
                    }
                }
                assert(is_first_index(names_of(all), name, added));
                lemma_first_index_unique(names_of(all), name, added);
            } else {
                if names_of(defaults).contains(name) {
                    let at = choose|at: int|
                        0 <= at < names_of(defaults).len() && names_of(defaults)[at] == name;
                    assert(names_of(rest)[at] == name);
                }
                if names_of(all).contains(name) {
                    let at = choose|at: int|
                        0 <= at < names_of(all).len() && names_of(all)[at] == name;
                    if at < before.len() {
                        assert(names_of(before)[at] == name);
                    }
                }
            }
        }
    }
}

/// Merging what was merged changes nothing.
pub proof fn law_merge_idempotent(stored: Seq<Pair>, defaults: Seq<Pair>)
    ensures
        merged(merged(stored, defaults), defaults) == merged(stored, defaults),
{
    law_merged_holds_every_name(stored, defaults);
    lemma_merge_of_complete(merged(stored, defaults), defaults, defaults.len() as int);
    assert(defaults.take(defaults.len() as int) =~= defaults);
}

/// Values that hold every one of the first `upto` names are left alone by a
/// merge with those defaults.
proof fn lemma_merge_of_complete(values: Seq<Pair>, defaults: Seq<Pair>, upto: int)
    requires
        0 <= upto <= defaults.len(),
        forall|i: int| 0 <= i < upto ==> names_of(values).contains(#[trigger] defaults[i].0),
    ensures
        merged(values, defaults.take(upto)) == values,
    decreases upto,
{
    if upto > 0 {
        lemma_merge_of_complete(values, defaults, upto - 1);
        assert(defaults.take(upto).drop_last() =~= defaults.take(upto - 1));
        assert(defaults.take(upto).last() == defaults[upto - 1]);
    }
}

/// A merge holds a value for every name of its schema.
pub proof fn law_merged_holds_every_name(stored: Seq<Pair>, defaults: Seq<Pair>)
    ensures
        forall|i: int|
            0 <= i < defaults.len() ==> names_of(merged(stored, defaults)).contains(
                #[trigger] defaults[i].0,
            ),
{
    assert forall|i: int| 0 <= i < defaults.len() implies names_of(
        merged(stored, defaults),
    ).contains(#[trigger] defaults[i].0) by {
        law_merge_is_complete(stored, defaults, i);
    }
}

} // verus!

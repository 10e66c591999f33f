//! JSON as it crosses the boundary: `serde_json`'s `Value`, read and built one
//! level at a time.
//!
//! The library never looks into a `Value` itself. It asks `serde_json` for the
//! top level of a value ([`json_unpack`]), for a value made of given parts
//! ([`json_pack`]), for the value that a text stands for ([`parse_json`]) and
//! for the text of a value ([`print_json`]). What a `Value` holds is described
//! by a [`JsonTree`], and every contract in the library that speaks of JSON
//! speaks of such trees.

use vstd::prelude::*;
use serde_json::Value;

verus! {

/// `serde_json::Value`, opaque to the proofs: what one holds is known only
/// through [`json_model`].
#[verifier::external_type_specification]
#[verifier::external_body]
pub struct ExValue(Value);

/// What a JSON value holds.
///
/// A number is an `Int` where `serde_json` holds it as an integer that fits
/// `i64` (`Number::as_i64` answers), a `Big` where it holds it as an integer
/// above that range (`Number::as_u64` answers alone), and a `Float` where it
/// holds a double. A double is given by its 64 bits in IEEE 754. The fields
/// of an object have no order.
pub enum JsonTree {
    Null,
    Bool(bool),
    Int(i64),
    /// An integer above the range of `i64`, with the bits of the double that
    /// `Number::as_f64` answers with for it.
    Big { integer: u64, float_bits: u64 },
    Float(u64),
    Text(Seq<char>),
    Array(Seq<JsonTree>),
    Object(Map<Seq<char>, JsonTree>),
}

/// What `value` holds.
pub uninterp spec fn json_model(value: Value) -> JsonTree;

/// What `serde_json::from_str` makes of `text`: the tree of the value, or
/// `None` where the text is not JSON.
pub uninterp spec fn json_parse(text: Seq<char>) -> Option<JsonTree>;

/// The text that `serde_json::to_string` writes for a value that holds
/// `tree`.
pub uninterp spec fn json_text(tree: JsonTree) -> Seq<char>;

/// Whether the 64 bits of a double stand for a finite number: neither an
/// infinity nor a NaN, whose exponent bits are all set.
pub open spec fn is_finite_bits(bits: u64) -> bool {
    bits & 0x7ff0_0000_0000_0000 != 0x7ff0_0000_0000_0000
}

/// No two entries have the same key.
pub open spec fn distinct_keys<V>(entries: Seq<(Seq<char>, V)>) -> bool {
    forall|i: int, j: int|
        0 <= i < j < entries.len() ==> (#[trigger] entries[i]).0 != (#[trigger] entries[j]).0
}

/// The map that a list of entries stands for. Where a key comes twice, the
/// later entry counts.
pub open spec fn entries_map<V>(entries: Seq<(Seq<char>, V)>) -> Map<Seq<char>, V>
    decreases entries.len(),
{
    if entries.len() == 0 {
        Map::empty()
    } else {
        entries_map(entries.drop_last()).insert(entries.last().0, entries.last().1)
    }
}

/// A key is in the map of a list of entries exactly where some entry has it,
/// and the map is finite.
pub proof fn lemma_entries_map_keys<V>(entries: Seq<(Seq<char>, V)>)
    ensures
        entries_map(entries).dom().finite(),
        forall|key: Seq<char>| #[trigger]
            entries_map(entries).contains_key(key) <==> exists|i: int|
                0 <= i < entries.len() && (#[trigger] entries[i]).0 == key,
    decreases entries.len(),
{
    if entries.len() > 0 {
        let front = entries.drop_last();
        lemma_entries_map_keys(front);
        assert forall|key: Seq<char>| #[trigger]
            entries_map(entries).contains_key(key) <==> exists|i: int|
                0 <= i < entries.len() && (#[trigger] entries[i]).0 == key by {
            if entries_map(entries).contains_key(key) {
                if key == entries.last().0 {
                    assert(entries[entries.len() - 1].0 == key);
                } else {
                    assert(entries_map(front).contains_key(key));
                    let i = choose|i: int| 0 <= i < front.len() && (#[trigger] front[i]).0 == key;
                    assert(entries[i].0 == key);
                }
            }
            if exists|i: int| 0 <= i < entries.len() && (#[trigger] entries[i]).0 == key {
                let i = choose|i: int| 0 <= i < entries.len() && (#[trigger] entries[i]).0 == key;
                if i < front.len() {
                    assert(front[i].0 == key);
                }
            }
        }
    }
}

/// Where no key comes twice, each entry is found in the map under its key.
pub proof fn lemma_entries_map_lookup<V>(entries: Seq<(Seq<char>, V)>, index: int)
    requires
        distinct_keys(entries),
        0 <= index < entries.len(),
    ensures
        entries_map(entries).contains_key(entries[index].0),
        entries_map(entries)[entries[index].0] == entries[index].1,
    decreases entries.len(),
{
    let front = entries.drop_last();
    if index < entries.len() - 1 {
        assert(distinct_keys(front)) by {
            assert forall|i: int, j: int| 0 <= i < j < front.len() implies (#[trigger] front[i]).0
                != (#[trigger] front[j]).0 by {
                assert(front[i] == entries[i]);
                assert(front[j] == entries[j]);
            }
        }
        lemma_entries_map_lookup(front, index);
        assert(front[index] == entries[index]);
        assert(entries[index].0 != entries[entries.len() - 1].0);
    }
}

/// An entry that is added under a new key, or under the key of the last
/// entry, is what the map then holds under that key; the rest is as before.
pub proof fn lemma_entries_map_push<V>(entries: Seq<(Seq<char>, V)>, entry: (Seq<char>, V))
    ensures
        entries_map(entries.push(entry)) == entries_map(entries).insert(entry.0, entry.1),
{
    assert(entries.push(entry).drop_last() =~= entries);
}

/// Where no key comes twice, a new value in the place of an entry is what the
/// map then holds under the entry's key; the rest is as before.
pub proof fn lemma_entries_map_update<V>(entries: Seq<(Seq<char>, V)>, index: int, value: V)
    requires
        distinct_keys(entries),
        0 <= index < entries.len(),
    ensures
        distinct_keys(entries.update(index, (entries[index].0, value))),
        entries_map(entries.update(index, (entries[index].0, value))) == entries_map(
            entries,
        ).insert(entries[index].0, value),
{
    let key = entries[index].0;
    let updated = entries.update(index, (key, value));
    assert forall|i: int, j: int| 0 <= i < j < updated.len() implies (#[trigger] updated[i]).0 != (
    #[trigger] updated[j]).0 by {
        assert(updated[i].0 == entries[i].0);
        assert(updated[j].0 == entries[j].0);
    }
    lemma_entries_map_keys(entries);
    lemma_entries_map_keys(updated);
    let before = entries_map(entries).insert(key, value);
    let after = entries_map(updated);
    assert forall|other: Seq<char>| before.contains_key(other) <==> after.contains_key(
        other,
    ) by {
        if before.contains_key(other) {
            if other == key {
                assert(updated[index].0 == other);
            } else {
                let i = choose|i: int| 0 <= i < entries.len() && (#[trigger] entries[i]).0 == other;
                assert(updated[i].0 == other);
            }
        }
        if after.contains_key(other) {
            let i = choose|i: int| 0 <= i < updated.len() && (#[trigger] updated[i]).0 == other;
            assert(entries[i].0 == other);
        }
    }
    assert forall|other: Seq<char>| before.contains_key(other) implies before[other]
        == after[other] by {
        if other == key {
            lemma_entries_map_lookup(updated, index);
        } else {
            let i = choose|i: int| 0 <= i < entries.len() && (#[trigger] entries[i]).0 == other;
            lemma_entries_map_lookup(entries, i);
            lemma_entries_map_lookup(updated, i);
        }
    }
    assert(before =~= after);
}

/// Two lists of entries with the same keys, place by place, stand for maps
/// with the same keys, and each key stands in both maps for the values of one
/// place.
pub proof fn lemma_entries_map_pairs<A, B>(from: Seq<(Seq<char>, A)>, to: Seq<(Seq<char>, B)>)
    requires
        distinct_keys(from),
        from.len() == to.len(),
        forall|i: int| 0 <= i < from.len() ==> (#[trigger] to[i]).0 == from[i].0,
    ensures
        distinct_keys(to),
        forall|key: Seq<char>| #[trigger]
            entries_map(to).contains_key(key) <==> entries_map(from).contains_key(key),
        forall|key: Seq<char>| #[trigger]
            entries_map(from).contains_key(key) ==> exists|i: int|
                0 <= i < from.len() && #[trigger] from[i] == (key, entries_map(from)[key]) && to[i]
                    == (key, entries_map(to)[key]),
{
    assert forall|i: int, j: int| 0 <= i < j < to.len() implies (#[trigger] to[i]).0 != (
    #[trigger] to[j]).0 by {
        assert(from[i].0 != from[j].0);
    }
    lemma_entries_map_keys(from);
    lemma_entries_map_keys(to);
    assert forall|key: Seq<char>| #[trigger]
        entries_map(to).contains_key(key) <==> entries_map(from).contains_key(key) by {
        if entries_map(to).contains_key(key) {
            let i = choose|i: int| 0 <= i < to.len() && (#[trigger] to[i]).0 == key;
            assert(from[i].0 == key);
        }
        if entries_map(from).contains_key(key) {
            let i = choose|i: int| 0 <= i < from.len() && (#[trigger] from[i]).0 == key;
            assert(to[i].0 == key);
        }
    }
    assert forall|key: Seq<char>| #[trigger] entries_map(from).contains_key(key) implies exists|
        i: int,
    |
        0 <= i < from.len() && #[trigger] from[i] == (key, entries_map(from)[key]) && to[i] == (
            key,
            entries_map(to)[key],
        ) by {
        let i = choose|i: int| 0 <= i < from.len() && (#[trigger] from[i]).0 == key;
        lemma_entries_map_lookup(from, i);
        lemma_entries_map_lookup(to, i);
        assert(to[i].0 == key);
        assert(from[i] == (key, entries_map(from)[key]));
        assert(to[i] == (key, entries_map(to)[key]));
    }
}

/// The top level of a `Value`, with what lies below left as it is.
pub enum JsonView<'a> {
    Null,
    Bool(bool),
    /// A number: as an `i64` and as a `u64` where it is an integer in that
    /// range, and as the bits of a double.
    Number { integer: Option<i64>, unsigned: Option<u64>, float_bits: Option<u64> },
    Text(&'a String),
    Array(&'a Vec<Value>),
    /// The fields of an object, each key once.
    Object(Vec<(&'a String, &'a Value)>),
}

/// The key and the tree of each field in a list of borrowed fields.
pub open spec fn field_trees(fields: Seq<(&String, &Value)>) -> Seq<(Seq<char>, JsonTree)> {
    fields.map_values(|field: (&String, &Value)| (field.0@, json_model(*field.1)))
}

/// The tree of each item of an array.
pub open spec fn item_trees(items: Seq<Value>) -> Seq<JsonTree> {
    items.map_values(|item: Value| json_model(item))
}

impl<'a> JsonView<'a> {
    /// The tree of the value that this is the top level of.
    pub open spec fn tree(self) -> JsonTree {
        match self {
            JsonView::Null => JsonTree::Null,
            JsonView::Bool(flag) => JsonTree::Bool(flag),
            JsonView::Number { integer: Some(number), unsigned, float_bits } => JsonTree::Int(
                number,
            ),
            JsonView::Number { integer: None, unsigned: Some(number), float_bits: Some(bits) } =>
                JsonTree::Big { integer: number, float_bits: bits },
            JsonView::Number { integer: None, unsigned: None, float_bits: Some(bits) } =>
                JsonTree::Float(bits),
            JsonView::Number { integer: None, unsigned, float_bits: None } => JsonTree::Null,
            JsonView::Text(text) => JsonTree::Text(text@),
            JsonView::Array(items) => JsonTree::Array(item_trees(items@)),
            JsonView::Object(fields) => JsonTree::Object(entries_map(field_trees(fields@))),
        }
    }

    /// Every number can be read, and no key of an object comes twice.
    pub open spec fn well_formed(self) -> bool {
        match self {
            JsonView::Number { integer, unsigned, float_bits } => integer is Some || float_bits
                is Some,
            JsonView::Object(fields) => distinct_keys(field_trees(fields@)),
            _ => true,
        }
    }
}

/// The parts that a `Value` is built of.
pub enum JsonParts {
    Null,
    Bool(bool),
    Int(i64),
    /// A number given by the bits of a double.
    Float(u64),
    Text(String),
    Array(Vec<Value>),
    /// The fields of an object, each key once.
    Object(Vec<(String, Value)>),
}

/// The key and the tree of each field in a list of fields.
pub open spec fn owned_field_trees(fields: Seq<(String, Value)>) -> Seq<(Seq<char>, JsonTree)> {
    fields.map_values(|field: (String, Value)| (field.0@, json_model(field.1)))
}

impl JsonParts {
    /// The tree of the value that these parts make. JSON has no number for an
    /// infinity or a NaN: such bits make `null`.
    pub open spec fn tree(self) -> JsonTree {
        match self {
            JsonParts::Null => JsonTree::Null,
            JsonParts::Bool(flag) => JsonTree::Bool(flag),
            JsonParts::Int(number) => JsonTree::Int(number),
            JsonParts::Float(bits) => if is_finite_bits(bits) {
                JsonTree::Float(bits)
            } else {
                JsonTree::Null
            },
            JsonParts::Text(text) => JsonTree::Text(text@),
            JsonParts::Array(items) => JsonTree::Array(item_trees(items@)),
            JsonParts::Object(fields) => JsonTree::Object(entries_map(owned_field_trees(fields@))),
        }
    }

    /// No key of an object comes twice.
    pub open spec fn well_formed(self) -> bool {
        match self {
            JsonParts::Object(fields) => distinct_keys(owned_field_trees(fields@)),
            _ => true,
        }
    }
}

/// Tells the variants of `serde_json::Value` apart, and for a number calls
/// `Number::as_i64`, `Number::as_u64` and `Number::as_f64` (the last through
/// `to_bits`).
///
/// Claimed: the view shows what the value holds. `as_i64` answers for the
/// integers that fit `i64`, `as_u64` for those that fit `u64` and `as_f64`
/// for every number, so a number can always be read; an object is a map, so
/// each of its keys comes once.
#[verifier::external_body]
pub(crate) fn json_unpack<'a>(value: &'a Value) -> (view: JsonView<'a>)
    ensures
        view.tree() == json_model(*value),
        view.well_formed(),
{
    match value {
        Value::Null => JsonView::Null,
        Value::Bool(flag) => JsonView::Bool(*flag),
        Value::Number(number) => JsonView::Number {
            integer: number.as_i64(),
            unsigned: number.as_u64(),
            float_bits: number.as_f64().map(|float| float.to_bits()),
        },
        Value::String(text) => JsonView::Text(text),
        Value::Array(items) => JsonView::Array(items),
        Value::Object(fields) => JsonView::Object(fields.iter().collect()),
    }
}

/// Builds a `serde_json::Value` of the variant that the parts name. A number
/// is made by `Value::from`. A double is made of its bits first (by
/// `from_bits` of the engine's float type, `rhai::FLOAT`); for it
/// `Value::from` goes through `Number::from_f64` and gives `null` where the
/// double is not finite. The fields of an object are collected into
/// `serde_json::Map`.
///
/// Claimed: the value holds what the parts say.
#[verifier::external_body]
pub(crate) fn json_pack(parts: JsonParts) -> (value: Value)
    requires
        parts.well_formed(),
    ensures
        json_model(value) == parts.tree(),
{
    match parts {
        JsonParts::Null => Value::Null,
        JsonParts::Bool(flag) => Value::Bool(flag),
        JsonParts::Int(number) => Value::from(number),
        JsonParts::Float(bits) => Value::from(rhai::FLOAT::from_bits(bits)),
        JsonParts::Text(text) => Value::String(text),
        JsonParts::Array(items) => Value::Array(items),
        JsonParts::Object(fields) => Value::Object(fields.into_iter().collect()),
    }
}

/// Calls `serde_json::from_str` for a `Value`.
///
/// Claimed: whether the text is JSON, and what the value then holds, depends
/// on the text alone. The message of a failure is `serde_json`'s own.
#[verifier::external_body]
pub(crate) fn parse_json(text: &str) -> (parsed: Result<Value, String>)
    ensures
        match parsed {
            Ok(value) => json_parse(text@) == Some(json_model(value)),
            Err(_) => json_parse(text@) is None,
        },
{
    serde_json::from_str::<Value>(text).map_err(|error| error.to_string())
}

/// Calls `serde_json::to_string` on a `Value`.
///
/// Claimed: the call succeeds, and the text depends on what the value holds
/// alone. A `Value` has only string keys and only finite numbers and is
/// written into memory, so `serde_json` has nothing to fail on.
#[verifier::external_body]
pub(crate) fn print_json(value: &Value) -> (printed: Result<String, String>)
    ensures
        printed is Ok,
        printed matches Ok(text) ==> text@ == json_text(json_model(*value)),
{
    serde_json::to_string(value).map_err(|error| error.to_string())
}

/// The JSON text of a value.
pub fn value_text(value: &Value) -> (text: String)
    ensures
        text@ == json_text(json_model(*value)),
{
    match print_json(value) {
        Ok(text) => text,
        Err(_) => vstd::pervasive::unreached(),
    }
}

/// Whether two pieces of text are the same.
pub fn same_text(left: &str, right: &str) -> (same: bool)
    ensures
        same == (left@ == right@),
{
    let left_owned = left.to_owned();
    let right_owned = right.to_owned();
    left_owned == right_owned
}

/// Looks a field up by its name.
pub(crate) fn find_field<'a>(fields: &Vec<(&'a String, &'a Value)>, name: &str) -> (found: Option<
    &'a Value,
>)
    requires
        distinct_keys(field_trees(fields@)),
    ensures
        match found {
            Some(value) => {
                &&& entries_map(field_trees(fields@)).contains_key(name@)
                &&& entries_map(field_trees(fields@))[name@] == json_model(*value)
            },
            None => !entries_map(field_trees(fields@)).contains_key(name@),
        },
{
    let mut index: usize = 0;
    while index < fields.len()
        invariant
            index <= fields.len(),
            distinct_keys(field_trees(fields@)),
            forall|i: int| 0 <= i < index ==> (#[trigger] field_trees(fields@)[i]).0 != name@,
        decreases fields.len() - index,
    {
        let field = &fields[index];
        if same_text(field.0.as_str(), name) {
            proof {
                lemma_entries_map_lookup(field_trees(fields@), index as int);
            }
            return Some(field.1);
        }
        index += 1;
    }
    proof {
        lemma_entries_map_keys(field_trees(fields@));
    }
    None
}

} // verus!

//! Wire values: what a script value looks like as JSON, and back.
//!
//! A [`ScriptValue`] holds what a value of the script engine holds. On the
//! wire it is JSON. JSON has no number for an infinity or for a NaN, so these
//! three travel as strings: [`INFINITY_TEXT`], [`NEG_INFINITY_TEXT`] and
//! [`NAN_TEXT`]. A string of a script that is itself one of the three, or
//! that begins with [`STRING_MARK`], travels with [`STRING_MARK`] before it,
//! so that every value comes back from the wire as what it was.
//!
//! A float is kept as the 64 bits of its IEEE 754 double.

use vstd::prelude::*;
use vstd::string::StrSliceExecFns;
use vstd::string::StringExecFns;
use serde_json::Value;
use crate::json::entries_map;
use crate::json::distinct_keys;
use crate::json::is_finite_bits;
use crate::json::json_model;
use crate::json::json_pack;
use crate::json::json_parse;
use crate::json::json_text;
use crate::json::json_unpack;
use crate::json::lemma_entries_map_keys;
use crate::json::lemma_entries_map_lookup;
use crate::json::lemma_entries_map_pairs;
use crate::json::parse_json;
use crate::json::print_json;
use crate::json::same_text;
use crate::json::field_trees;
use crate::json::item_trees;
use crate::json::owned_field_trees;
use crate::json::JsonParts;
use crate::json::JsonTree;
use crate::json::JsonView;
use crate::text::concat;

verus! {

/// How positive infinity travels.
pub const INFINITY_TEXT: &'static str = "__INFINITY__";

/// How negative infinity travels.
pub const NEG_INFINITY_TEXT: &'static str = "__NEG_INFINITY__";

/// How a NaN travels.
pub const NAN_TEXT: &'static str = "__NAN__";

/// What stands on the wire before a string that would else be taken for a
/// float or for a marked string.
pub const STRING_MARK: &'static str = "__STRING__";

/// The bits of positive infinity.
pub const INFINITY_BITS: u64 = 0x7ff0_0000_0000_0000;

/// The bits of negative infinity.
pub const NEG_INFINITY_BITS: u64 = 0xfff0_0000_0000_0000;

/// The bits of the NaN that a decoded [`NAN_TEXT`] gives.
pub const NAN_BITS: u64 = 0x7ff8_0000_0000_0000;

/// Whether the bits of a double stand for an infinity: all exponent bits set
/// and no fraction bit.
pub open spec fn is_infinite_bits(bits: u64) -> bool {
    bits & 0x7fff_ffff_ffff_ffff == 0x7ff0_0000_0000_0000
}

/// Whether the bits of a double stand for a NaN: all exponent bits set and
/// some fraction bit.
pub open spec fn is_nan_bits(bits: u64) -> bool {
    bits & 0x7ff0_0000_0000_0000 == 0x7ff0_0000_0000_0000 && bits & 0x000f_ffff_ffff_ffff != 0
}

/// Whether the sign bit of a double is clear.
pub open spec fn is_sign_positive_bits(bits: u64) -> bool {
    bits & 0x8000_0000_0000_0000 == 0
}

/// What a double is, as far as the wire format cares.
#[derive(Debug, Clone, Copy, PartialEq, Eq)]
pub enum FloatClass {
    Finite,
    Infinity,
    NegInfinity,
    Nan,
}

/// The class of the double with these bits.
pub open spec fn float_class(bits: u64) -> FloatClass {
    if is_infinite_bits(bits) {
        if is_sign_positive_bits(bits) {
            FloatClass::Infinity
        } else {
            FloatClass::NegInfinity
        }
    } else if is_nan_bits(bits) {
        FloatClass::Nan
    } else {
        FloatClass::Finite
    }
}

/// Tells the infinities and the NaNs from the finite doubles.
pub fn classify_float(bits: u64) -> (class: FloatClass)
    ensures
        class == float_class(bits),
        class is Finite <==> is_finite_bits(bits),
        class is Infinity <==> bits == INFINITY_BITS,
        class is NegInfinity <==> bits == NEG_INFINITY_BITS,
{
    proof {
        lemma_float_classes(bits);
    }
    if bits & 0x7fff_ffff_ffff_ffff == 0x7ff0_0000_0000_0000 {
        if bits & 0x8000_0000_0000_0000 == 0 {
            FloatClass::Infinity
        } else {
            FloatClass::NegInfinity
        }
    } else if bits & 0x7ff0_0000_0000_0000 == 0x7ff0_0000_0000_0000 && bits & 0x000f_ffff_ffff_ffff
        != 0 {
        FloatClass::Nan
    } else {
        FloatClass::Finite
    }
}

/// The four classes cover the doubles: each infinity has one pattern of bits,
/// and what is neither an infinity nor a NaN is finite.
pub proof fn lemma_float_classes(bits: u64)
    ensures
        float_class(bits) is Finite <==> is_finite_bits(bits),
        float_class(bits) is Infinity <==> bits == INFINITY_BITS,
        float_class(bits) is NegInfinity <==> bits == NEG_INFINITY_BITS,
        float_class(NAN_BITS) is Nan,
{
    assert(bits & 0x7fff_ffff_ffff_ffff == 0x7ff0_0000_0000_0000 && bits & 0x8000_0000_0000_0000
        == 0 <==> bits == 0x7ff0_0000_0000_0000) by (bit_vector);
    assert(bits & 0x7fff_ffff_ffff_ffff == 0x7ff0_0000_0000_0000 && bits & 0x8000_0000_0000_0000
        != 0 <==> bits == 0xfff0_0000_0000_0000) by (bit_vector);
    assert(bits & 0x7ff0_0000_0000_0000 != 0x7ff0_0000_0000_0000 <==> !(bits
        & 0x7fff_ffff_ffff_ffff == 0x7ff0_0000_0000_0000) && !(bits & 0x7ff0_0000_0000_0000
        == 0x7ff0_0000_0000_0000 && bits & 0x000f_ffff_ffff_ffff != 0)) by (bit_vector);
    assert(0x7ff8_0000_0000_0000u64 & 0x7fff_ffff_ffff_ffff != 0x7ff0_0000_0000_0000)
        by (bit_vector);
    assert(0x7ff8_0000_0000_0000u64 & 0x7ff0_0000_0000_0000 == 0x7ff0_0000_0000_0000)
        by (bit_vector);
    assert(0x7ff8_0000_0000_0000u64 & 0x000f_ffff_ffff_ffff != 0) by (bit_vector);
}

/// A value of the script engine.
#[derive(Debug, PartialEq, Eq)]
pub enum ScriptValue {
    /// The engine's `()`.
    Unit,
    Bool(bool),
    Int(i64),
    /// A float, as the bits of its double.
    Float(u64),
    Str(String),
    Array(Vec<ScriptValue>),
    /// An object map: its entries, each key once.
    Object(Vec<(String, ScriptValue)>),
    /// A value of a type that has no wire form, with the type's name.
    Other(String),
}

/// What a [`ScriptValue`] holds. The entries of an object map have no order.
pub enum ScriptTree {
    Unit,
    Bool(bool),
    Int(i64),
    Float(u64),
    Str(Seq<char>),
    Array(Seq<ScriptTree>),
    Object(Map<Seq<char>, ScriptTree>),
    Other(Seq<char>),
}

/// The tree of each item of an array.
pub open spec fn script_item_trees(items: Seq<ScriptValue>) -> Seq<ScriptTree>
    decreases items,
{
    Seq::new(
        items.len(),
        |i: int|
            if 0 <= i < items.len() {
                items[i].view()
            } else {
                ScriptTree::Unit
            },
    )
}

/// The key and the tree of each entry of an object map.
pub open spec fn script_entry_trees(entries: Seq<(String, ScriptValue)>) -> Seq<
    (Seq<char>, ScriptTree),
>
    decreases entries,
{
    Seq::new(
        entries.len(),
        |i: int|
            if 0 <= i < entries.len() {
                (entries[i].0@, entries[i].1.view())
            } else {
                (Seq::<char>::empty(), ScriptTree::Unit)
            },
    )
}

impl View for ScriptValue {
    type V = ScriptTree;

    open spec fn view(&self) -> ScriptTree
        decreases self,
    {
        match self {
            ScriptValue::Unit => ScriptTree::Unit,
            ScriptValue::Bool(flag) => ScriptTree::Bool(*flag),
            ScriptValue::Int(number) => ScriptTree::Int(*number),
            ScriptValue::Float(bits) => ScriptTree::Float(*bits),
            ScriptValue::Str(text) => ScriptTree::Str(text@),
            ScriptValue::Array(items) => ScriptTree::Array(script_item_trees(items@)),
            ScriptValue::Object(entries) => ScriptTree::Object(
                entries_map(script_entry_trees(entries@)),
            ),
            ScriptValue::Other(kind) => ScriptTree::Other(kind@),
        }
    }
}

impl ScriptValue {
    /// No object map in the value has a key twice.
    pub open spec fn wf(&self) -> bool
        decreases self,
    {
        match self {
            ScriptValue::Array(items) => forall|i: int|
                0 <= i < items@.len() ==> (#[trigger] items@[i]).wf(),
            ScriptValue::Object(entries) => {
                &&& distinct_keys(script_entry_trees(entries@))
                &&& forall|i: int| 0 <= i < entries@.len() ==> (#[trigger] entries@[i]).1.wf()
            },
            _ => true,
        }
    }
}

/// Whether the key of the entry at `index` is the key of an entry before it.
fn key_comes_before(entries: &Vec<(String, ScriptValue)>, index: usize) -> (found: bool)
    requires
        index < entries@.len(),
    ensures
        found == exists|i: int| 0 <= i < index && (#[trigger] entries@[i]).0@ == entries@[index as int].0@,
{
    let mut earlier: usize = 0;
    while earlier < index
        invariant
            earlier <= index,
            index < entries@.len(),
            forall|i: int| 0 <= i < earlier ==> (#[trigger] entries@[i]).0@ != entries@[index as int].0@,
        decreases index - earlier,
    {
        if same_text(entries[earlier].0.as_str(), entries[index].0.as_str()) {
            return true;
        }
        earlier += 1;
    }
    false
}

impl ScriptValue {
    /// Checks that no object map in the value has a key twice.
    #[verifier::loop_isolation(false)]
    pub fn is_well_formed(&self) -> (ok: bool)
        ensures
            ok == self.wf(),
        decreases self,
    {
        match self {
            ScriptValue::Array(items) => {
                let mut index: usize = 0;
                while index < items.len()
                    invariant
                        index <= items@.len(),
                        forall|i: int| 0 <= i < index ==> (#[trigger] items@[i]).wf(),
                    decreases items@.len() - index,
                {
                    if !items[index].is_well_formed() {
                        return false;
                    }
                    index += 1;
                }
                true
            },
            ScriptValue::Object(entries) => {
                let ghost trees = script_entry_trees(entries@);
                let mut index: usize = 0;
                while index < entries.len()
                    invariant
                        index <= entries@.len(),
                        trees == script_entry_trees(entries@),
                        forall|i: int| 0 <= i < index ==> (#[trigger] entries@[i]).1.wf(),
                        forall|i: int, j: int|
                            0 <= i < j < index ==> (#[trigger] trees[i]).0 != (#[trigger] trees[j]).0,
                    decreases entries@.len() - index,
                {
                    if !entries[index].1.is_well_formed() {
                        return false;
                    }
                    if key_comes_before(entries, index) {
                        proof {
                            let i = choose|i: int|
                                0 <= i < index && (#[trigger] entries@[i]).0@ == entries@[index as int].0@;
                            assert(trees[i].0 == trees[index as int].0);
                        }
                        return false;
                    }
                    proof {
                        assert forall|i: int| 0 <= i < index implies (#[trigger] trees[i]).0
                            != trees[index as int].0 by {
                            assert(entries@[i].0@ != entries@[index as int].0@);
                        }
                    }
                    index += 1;
                }
                true
            },
            _ => true,
        }
    }
}

/// Why a value could not cross the boundary.
#[derive(Debug, Clone, PartialEq, Eq)]
pub enum ValueError {
    /// The value, or a value inside it, is of a type that has no wire form.
    UnsupportedType(String),
    /// `serde_json` could not write the value; this is its message.
    Serialize(String),
    /// The text is not JSON; this is `serde_json`'s message.
    Parse(String),
    /// A JSON number that is neither an integer nor a double.
    UnsupportedNumber,
}

impl ValueError {
    /// The text of each error.
    pub open spec fn spec_message(&self) -> Seq<char> {
        match self {
            ValueError::UnsupportedType(kind) => "Unsupported Rhai type: "@ + kind@,
            ValueError::Serialize(detail) => "Failed to serialize to JSON: "@ + detail@,
            ValueError::Parse(detail) => "Failed to parse JSON: "@ + detail@,
            ValueError::UnsupportedNumber => "Unsupported number format"@,
        }
    }

    /// The message of this error.
    pub fn message(&self) -> (text: String)
        ensures
            text@ == self.spec_message(),
    {
        match self {
            ValueError::UnsupportedType(kind) => concat("Unsupported Rhai type: ", kind.as_str()),
            ValueError::Serialize(detail) => concat(
                "Failed to serialize to JSON: ",
                detail.as_str(),
            ),
            ValueError::Parse(detail) => concat("Failed to parse JSON: ", detail.as_str()),
            ValueError::UnsupportedNumber => "Unsupported number format".to_owned(),
        }
    }
}

/// Whether every value in the tree has a wire form.
pub open spec fn supported(tree: ScriptTree) -> bool
    decreases tree,
{
    match tree {
        ScriptTree::Array(items) => forall|i: int|
            0 <= i < items.len() ==> supported(#[trigger] items[i]),
        ScriptTree::Object(fields) => forall|key: Seq<char>| #[trigger]
            fields.contains_key(key) ==> supported(fields[key]),
        ScriptTree::Other(_) => false,
        _ => true,
    }
}

/// Whether the tree holds a value of the type `kind`, which has no wire form.
pub open spec fn holds_other(tree: ScriptTree, kind: Seq<char>) -> bool
    decreases tree,
{
    match tree {
        ScriptTree::Array(items) => exists|i: int|
            0 <= i < items.len() && holds_other(#[trigger] items[i], kind),
        ScriptTree::Object(fields) => exists|key: Seq<char>| #[trigger]
            fields.contains_key(key) && holds_other(fields[key], kind),
        ScriptTree::Other(name) => name == kind,
        _ => false,
    }
}

/// A float on the wire: a number where it is finite, else one of the three
/// strings.
pub open spec fn encode_float(bits: u64) -> JsonTree {
    match float_class(bits) {
        FloatClass::Infinity => JsonTree::Text("__INFINITY__"@),
        FloatClass::NegInfinity => JsonTree::Text("__NEG_INFINITY__"@),
        FloatClass::Nan => JsonTree::Text("__NAN__"@),
        FloatClass::Finite => JsonTree::Float(bits),
    }
}

/// The wire form of a script value.
pub open spec fn encode(tree: ScriptTree) -> JsonTree
    decreases tree,
{
    match tree {
        ScriptTree::Unit => JsonTree::Null,
        ScriptTree::Bool(flag) => JsonTree::Bool(flag),
        ScriptTree::Int(number) => JsonTree::Int(number),
        ScriptTree::Float(bits) => encode_float(bits),
        ScriptTree::Str(text) => JsonTree::Text(encode_text(text)),
        ScriptTree::Array(items) => JsonTree::Array(
            Seq::new(
                items.len(),
                |i: int|
                    if 0 <= i < items.len() {
                        encode(items[i])
                    } else {
                        JsonTree::Null
                    },
            ),
        ),
        ScriptTree::Object(fields) => JsonTree::Object(
            Map::new(
                |key: Seq<char>| fields.contains_key(key),
                |key: Seq<char>|
                    if fields.contains_key(key) {
                        encode(fields[key])
                    } else {
                        JsonTree::Null
                    },
            ),
        ),
        ScriptTree::Other(_) => JsonTree::Null,
    }
}

/// Whether a string is one of the three that stand for a float.
pub open spec fn is_sentinel(text: Seq<char>) -> bool {
    text == "__INFINITY__"@ || text == "__NEG_INFINITY__"@ || text == "__NAN__"@
}

/// The mark, as a sequence of characters.
pub open spec fn string_mark() -> Seq<char> {
    "__STRING__"@
}

/// Whether a string begins with the mark.
pub open spec fn is_marked(text: Seq<char>) -> bool {
    string_mark().is_prefix_of(text)
}

/// A string of a script on the wire: itself, or behind the mark where it
/// would else be read as a float or as a marked string.
pub open spec fn encode_text(text: Seq<char>) -> Seq<char> {
    if is_sentinel(text) || is_marked(text) {
        string_mark() + text
    } else {
        text
    }
}

/// The script value of a string on the wire: the float that it stands for,
/// what follows the mark, or the string itself.
pub open spec fn decode_text(text: Seq<char>) -> ScriptTree {
    if text == "__INFINITY__"@ {
        ScriptTree::Float(INFINITY_BITS)
    } else if text == "__NEG_INFINITY__"@ {
        ScriptTree::Float(NEG_INFINITY_BITS)
    } else if text == "__NAN__"@ {
        ScriptTree::Float(NAN_BITS)
    } else if is_marked(text) {
        ScriptTree::Str(text.subrange(string_mark().len() as int, text.len() as int))
    } else {
        ScriptTree::Str(text)
    }
}

/// Whether a string begins with the mark.
fn has_string_mark(text: &str) -> (marked: bool)
    ensures
        marked == is_marked(text@),
{
    proof {
        reveal_strlit("__STRING__");
    }
    let mark_len = STRING_MARK.unicode_len();
    if text.unicode_len() < mark_len {
        return false;
    }
    let mut index: usize = 0;
    while index < mark_len
        invariant
            index <= mark_len,
            mark_len == string_mark().len(),
            mark_len <= text@.len(),
            STRING_MARK@ == string_mark(),
            forall|i: int| 0 <= i < index ==> text@[i] == string_mark()[i],
        decreases mark_len - index,
    {
        if text.get_char(index) != STRING_MARK.get_char(index) {
            assert(text@.subrange(0, mark_len as int)[index as int] != string_mark()[index as int]);
            return false;
        }
        index += 1;
    }
    assert(string_mark() =~= text@.subrange(0, mark_len as int));
    true
}

/// Whether a string is one of the three that stand for a float.
fn is_sentinel_text(text: &str) -> (special: bool)
    ensures
        special == is_sentinel(text@),
{
    same_text(text, INFINITY_TEXT) || same_text(text, NEG_INFINITY_TEXT) || same_text(
        text,
        NAN_TEXT,
    )
}

/// Writes a string of a script as it stands on the wire.
fn script_text_on_wire(text: &String) -> (wire: String)
    ensures
        wire@ == encode_text(text@),
{
    if is_sentinel_text(text.as_str()) || has_string_mark(text.as_str()) {
        concat(STRING_MARK, text.as_str())
    } else {
        text.clone()
    }
}

/// The script value that a JSON value stands for.
pub open spec fn decode(tree: JsonTree) -> ScriptTree
    decreases tree,
{
    match tree {
        JsonTree::Null => ScriptTree::Unit,
        JsonTree::Bool(flag) => ScriptTree::Bool(flag),
        JsonTree::Int(number) => ScriptTree::Int(number),
        JsonTree::Big { integer, float_bits } => ScriptTree::Float(float_bits),
        JsonTree::Float(bits) => ScriptTree::Float(bits),
        JsonTree::Text(text) => decode_text(text),
        JsonTree::Array(items) => ScriptTree::Array(
            Seq::new(
                items.len(),
                |i: int|
                    if 0 <= i < items.len() {
                        decode(items[i])
                    } else {
                        ScriptTree::Unit
                    },
            ),
        ),
        JsonTree::Object(fields) => ScriptTree::Object(
            Map::new(
                |key: Seq<char>| fields.contains_key(key),
                |key: Seq<char>|
                    if fields.contains_key(key) {
                        decode(fields[key])
                    } else {
                        ScriptTree::Unit
                    },
            ),
        ),
    }
}

/// Builds the JSON value of a script value.
///
/// This succeeds exactly where every value inside has a wire form; the error
/// names the type of one that has none.
#[verifier::loop_isolation(false)]
pub fn dynamic_to_json_value(value: &ScriptValue) -> (converted: Result<Value, ValueError>)
    requires
        value.wf(),
    ensures
        converted is Ok <==> supported(value@),
        converted matches Ok(json) ==> json_model(json) == encode(value@),
        converted matches Err(error) ==> (error matches ValueError::UnsupportedType(kind)
            && holds_other(value@, kind@)),
    decreases value,
{
    match value {
        ScriptValue::Unit => Ok(json_pack(JsonParts::Null)),
        ScriptValue::Bool(flag) => Ok(json_pack(JsonParts::Bool(*flag))),
        ScriptValue::Int(number) => Ok(json_pack(JsonParts::Int(*number))),
        ScriptValue::Float(bits) => {
            let parts = match classify_float(*bits) {
                FloatClass::Infinity => JsonParts::Text(INFINITY_TEXT.to_owned()),
                FloatClass::NegInfinity => JsonParts::Text(NEG_INFINITY_TEXT.to_owned()),
                FloatClass::Nan => JsonParts::Text(NAN_TEXT.to_owned()),
                FloatClass::Finite => JsonParts::Float(*bits),
            };
            Ok(json_pack(parts))
        },
        ScriptValue::Str(text) => Ok(json_pack(JsonParts::Text(script_text_on_wire(text)))),
        ScriptValue::Array(items) => {
            let mut out: Vec<Value> = Vec::new();
            let mut index: usize = 0;
            while index < items.len()
                invariant
                    index <= items.len(),
                    out@.len() == index,
                    forall|i: int|
                        0 <= i < index ==> supported(#[trigger] items@[i]@) && json_model(out@[i])
                            == encode(items@[i]@),
                decreases items.len() - index,
            {
                match dynamic_to_json_value(&items[index]) {
                    Ok(item) => {
                        out.push(item);
                    },
                    Err(error) => {
                        proof {
                            assert(script_item_trees(items@)[index as int] == items@[index as int]@);
                        }
                        return Err(error);
                    },
                }
                index += 1;
            }
            let packed = json_pack(JsonParts::Array(out));
            proof {
                let made = item_trees(out@);
                let trees = script_item_trees(items@);
                assert(value@ == ScriptTree::Array(trees));
                let wanted = encode(value@)->Array_0;
                assert(wanted.len() == trees.len());
                assert(made.len() == wanted.len());
                assert forall|i: int| 0 <= i < made.len() implies made[i] == wanted[i]
                    && supported(#[trigger] trees[i]) by {
                    assert(supported(items@[i]@));
                    assert(trees[i] == items@[i]@);
                }
                assert(made =~= wanted);
                assert(supported(value@));
            }
            Ok(packed)
        },
        ScriptValue::Object(entries) => {
            let mut out: Vec<(String, Value)> = Vec::new();
            let mut index: usize = 0;
            while index < entries.len()
                invariant
                    index <= entries.len(),
                    out@.len() == index,
                    forall|i: int|
                        0 <= i < index ==> supported(#[trigger] entries@[i].1@) && out@[i].0@
                            == entries@[i].0@ && json_model(out@[i].1) == encode(entries@[i].1@),
                decreases entries.len() - index,
            {
                match dynamic_to_json_value(&entries[index].1) {
                    Ok(item) => {
                        out.push((entries[index].0.clone(), item));
                    },
                    Err(error) => {
                        proof {
                            let trees = script_entry_trees(entries@);
                            lemma_entries_map_lookup(trees, index as int);
                            assert(trees[index as int].1 == entries@[index as int].1@);
                        }
                        return Err(error);
                    },
                }
                index += 1;
            }
            proof {
                let trees = script_entry_trees(entries@);
                let made = owned_field_trees(out@);
                assert forall|i: int| 0 <= i < trees.len() implies (#[trigger] made[i]).0
                    == trees[i].0 by {
                    assert(out@[i].0@ == entries@[i].0@);
                }
                lemma_entries_map_pairs(trees, made);
                assert forall|key: Seq<char>| #[trigger]
                    entries_map(trees).contains_key(key) implies supported(
                    entries_map(trees)[key],
                ) && entries_map(made)[key] == encode(entries_map(trees)[key]) by {
                    let i = choose|i: int|
                        0 <= i < trees.len() && #[trigger] trees[i] == (
                            key,
                            entries_map(trees)[key],
                        ) && made[i] == (key, entries_map(made)[key]);
                    assert(supported(entries@[i].1@));
                    assert(json_model(out@[i].1) == encode(entries@[i].1@));
                }
                assert(entries_map(made) =~= encode(value@)->Object_0);
                assert(supported(value@));
            }
            let packed = json_pack(JsonParts::Object(out));
            Ok(packed)
        },
        ScriptValue::Other(kind) => Err(ValueError::UnsupportedType(kind.clone())),
    }
}


/// Writes a script value as JSON text.
///
/// This succeeds exactly where every value inside has a wire form, and the
/// text is then `serde_json`'s rendering of the encoded value. The error
/// names the type of a value inside that has none.
pub fn rhai_dynamic_to_json(value: &ScriptValue) -> (written: Result<String, ValueError>)
    requires
        value.wf(),
    ensures
        written is Ok <==> supported(value@),
        written matches Ok(text) ==> text@ == json_text(encode(value@)),
        written matches Err(error) ==> (error matches ValueError::UnsupportedType(kind)
            && holds_other(value@, kind@)),
{
    match dynamic_to_json_value(value) {
        Ok(json) => serialized(print_json(&json)),
        Err(error) => Err(error),
    }
}

/// What `serde_json`'s answer to a request for text means to the caller.
pub fn serialized(printed: Result<String, String>) -> (written: Result<String, ValueError>)
    ensures
        match printed {
            Ok(text) => written matches Ok(same) && same == text,
            Err(detail) => written matches Err(ValueError::Serialize(same)) && same == detail,
        },
{
    match printed {
        Ok(text) => Ok(text),
        Err(detail) => Err(ValueError::Serialize(detail)),
    }
}

/// Reads the script value that a string on the wire stands for.
fn text_to_script(text: &String) -> (script: ScriptValue)
    ensures
        script@ == decode_text(text@),
        script.wf(),
{
    if same_text(text.as_str(), INFINITY_TEXT) {
        ScriptValue::Float(INFINITY_BITS)
    } else if same_text(text.as_str(), NEG_INFINITY_TEXT) {
        ScriptValue::Float(NEG_INFINITY_BITS)
    } else if same_text(text.as_str(), NAN_TEXT) {
        ScriptValue::Float(NAN_BITS)
    } else if has_string_mark(text.as_str()) {
        proof {
            reveal_strlit("__STRING__");
        }
        let mark_len = STRING_MARK.unicode_len();
        let len = text.as_str().unicode_len();
        ScriptValue::Str(String::from_str(text.as_str().substring_char(mark_len, len)))
    } else {
        ScriptValue::Str(text.clone())
    }
}

/// Builds the script value that a JSON value stands for.
///
/// Every JSON value stands for one: `null` for the unit, an integer that fits
/// `i64` for an integer, any other number for a float, one of the three
/// special strings for its float and any other string for itself.
#[verifier::loop_isolation(false)]
pub fn json_value_to_dynamic(value: &Value) -> (converted: Result<ScriptValue, ValueError>)
    ensures
        converted matches Ok(script) && script@ == decode(json_model(*value)) && script.wf(),
    decreases json_model(*value),
{
    let ghost tree = json_model(*value);
    match json_unpack(value) {
        JsonView::Null => Ok(ScriptValue::Unit),
        JsonView::Bool(flag) => Ok(ScriptValue::Bool(flag)),
        JsonView::Number { integer, unsigned, float_bits } => match integer {
            Some(number) => Ok(ScriptValue::Int(number)),
            None => match float_bits {
                Some(bits) => Ok(ScriptValue::Float(bits)),
                None => Err(ValueError::UnsupportedNumber),
            },
        },
        JsonView::Text(text) => Ok(text_to_script(text)),
        JsonView::Array(items) => {
            let mut out: Vec<ScriptValue> = Vec::new();
            let mut index: usize = 0;
            while index < items.len()
                invariant
                    index <= items.len(),
                    out@.len() == index,
                    forall|i: int|
                        0 <= i < index ==> (#[trigger] out@[i]).wf() && out@[i]@ == decode(
                            json_model(items@[i]),
                        ),
                decreases items.len() - index,
            {
                proof {
                    assert(tree->Array_0[index as int] == json_model(items@[index as int]));
                    assert(decreases_to!(tree => tree->Array_0));
                    assert(decreases_to!(tree->Array_0 => tree->Array_0[index as int]));
                }
                match json_value_to_dynamic(&items[index]) {
                    Ok(item) => {
                        out.push(item);
                    },
                    Err(error) => {
                        return Err(error);
                    },
                }
                index += 1;
            }
            let script = ScriptValue::Array(out);
            proof {
                let made = script_item_trees(out@);
                let wanted = decode(tree)->Array_0;
                assert forall|i: int| 0 <= i < made.len() implies made[i] == wanted[i] by {
                    assert(out@[i].wf());
                }
                assert(made =~= wanted);
            }
            Ok(script)
        },
        JsonView::Object(fields) => {
            let ghost trees = field_trees(fields@);
            proof {
                lemma_entries_map_keys(trees);
            }
            let mut out: Vec<(String, ScriptValue)> = Vec::new();
            let mut index: usize = 0;
            while index < fields.len()
                invariant
                    index <= fields.len(),
                    out@.len() == index,
                    forall|i: int|
                        0 <= i < index ==> (#[trigger] out@[i]).1.wf() && out@[i].0@ == fields@[i].0@
                            && out@[i].1@ == decode(json_model(*fields@[i].1)),
                decreases fields.len() - index,
            {
                proof {
                    lemma_entries_map_lookup(trees, index as int);
                    assert(trees[index as int].0 == fields@[index as int].0@);
                    assert(tree->Object_0[fields@[index as int].0@] == json_model(
                        *fields@[index as int].1,
                    ));
                    assert(decreases_to!(tree => tree->Object_0));
                    assert(decreases_to!(tree->Object_0 => tree->Object_0[fields@[index as int].0@]));
                }
                match json_value_to_dynamic(fields[index].1) {
                    Ok(item) => {
                        out.push((fields[index].0.clone(), item));
                    },
                    Err(error) => {
                        return Err(error);
                    },
                }
                index += 1;
            }
            let script = ScriptValue::Object(out);
            proof {
                let made = script_entry_trees(out@);
                lemma_entries_map_pairs(trees, made);
                assert forall|key: Seq<char>| #[trigger]
                    entries_map(trees).contains_key(key) implies entries_map(made)[key] == decode(
                    entries_map(trees)[key],
                ) by {
                    let i = choose|i: int|
                        0 <= i < trees.len() && #[trigger] trees[i] == (
                            key,
                            entries_map(trees)[key],
                        ) && made[i] == (key, entries_map(made)[key]);
                    assert(out@[i].1@ == decode(json_model(*fields@[i].1)));
                }
                assert(entries_map(made) =~= decode(tree)->Object_0);
                assert forall|i: int| 0 <= i < out@.len() implies (#[trigger] out@[i]).1.wf() by {}
            }
            Ok(script)
        },
    }
}

/// Reads a script value from JSON text.
///
/// Text that is not JSON is refused with `serde_json`'s message. Any JSON
/// text gives the value that it stands for.
pub fn json_to_rhai_dynamic(json: &str) -> (read: Result<ScriptValue, ValueError>)
    ensures
        match json_parse(json@) {
            Some(tree) => read matches Ok(script) && script@ == decode(tree) && script.wf(),
            None => read matches Err(ValueError::Parse(_)),
        },
{
    match parse_json(json) {
        Ok(value) => json_value_to_dynamic(&value),
        Err(detail) => Err(ValueError::Parse(detail)),
    }
}

/// The tree with each NaN replaced by the one NaN that the wire format
/// knows.
pub open spec fn with_one_nan(tree: ScriptTree) -> ScriptTree
    decreases tree,
{
    match tree {
        ScriptTree::Float(bits) => if float_class(bits) is Nan {
            ScriptTree::Float(NAN_BITS)
        } else {
            tree
        },
        ScriptTree::Array(items) => ScriptTree::Array(
            Seq::new(
                items.len(),
                |i: int|
                    if 0 <= i < items.len() {
                        with_one_nan(items[i])
                    } else {
                        ScriptTree::Unit
                    },
            ),
        ),
        ScriptTree::Object(fields) => ScriptTree::Object(
            Map::new(
                |key: Seq<char>| fields.contains_key(key),
                |key: Seq<char>|
                    if fields.contains_key(key) {
                        with_one_nan(fields[key])
                    } else {
                        ScriptTree::Unit
                    },
            ),
        ),
        _ => tree,
    }
}

/// A string of a script comes back from the wire as itself, whatever it
/// holds.
pub proof fn law_text_round_trip(text: Seq<char>)
    ensures
        decode_text(encode_text(text)) == ScriptTree::Str(text),
{
    reveal_strlit("__INFINITY__");
    reveal_strlit("__NEG_INFINITY__");
    reveal_strlit("__NAN__");
    reveal_strlit("__STRING__");
    let wire = encode_text(text);
    if is_sentinel(text) || is_marked(text) {
        assert(wire[2] == 'S');
        assert("__INFINITY__"@[2] == 'I');
        assert("__NEG_INFINITY__"@[2] == 'N');
        assert("__NAN__"@[2] == 'N');
        assert(wire.subrange(0, string_mark().len() as int) =~= string_mark());
        assert(wire.subrange(string_mark().len() as int, wire.len() as int) =~= text);
    }
}

/// Round trip: a value that has a wire form comes back from the wire as it
/// went, with the infinities as themselves, every NaN as a NaN and every
/// string as itself.
pub proof fn law_wire_round_trip(tree: ScriptTree)
    requires
        supported(tree),
    ensures
        decode(encode(tree)) == with_one_nan(tree),
    decreases tree,
{
    reveal_strlit("__INFINITY__");
    reveal_strlit("__NEG_INFINITY__");
    reveal_strlit("__NAN__");
    match tree {
        ScriptTree::Str(text) => {
            law_text_round_trip(text);
        },
        ScriptTree::Float(bits) => {
            lemma_float_classes(bits);
            assert("__INFINITY__"@.len() == 12);
            assert("__NEG_INFINITY__"@.len() == 16);
            assert("__NAN__"@.len() == 7);
        },
        ScriptTree::Array(items) => {
            let back = decode(encode(tree))->Array_0;
            let wanted = with_one_nan(tree)->Array_0;
            assert forall|i: int| 0 <= i < items.len() implies back[i] == wanted[i] by {
                law_wire_round_trip(items[i]);
            }
            assert(back =~= wanted);
        },
        ScriptTree::Object(fields) => {
            let back = decode(encode(tree))->Object_0;
            let wanted = with_one_nan(tree)->Object_0;
            assert forall|key: Seq<char>| fields.contains_key(key) implies back[key]
                == wanted[key] by {
                law_wire_round_trip(fields[key]);
            }
            assert(back =~= wanted);
        },
        _ => {},
    }
}

/// The three special floats cross the wire as their strings and come back
/// as floats of the same class.
pub proof fn law_special_floats_round_trip(bits: u64)
    requires
        !is_finite_bits(bits),
    ensures
        encode(ScriptTree::Float(bits)) is Text,
        is_sentinel(encode(ScriptTree::Float(bits))->Text_0),
        decode(encode(ScriptTree::Float(bits))) matches ScriptTree::Float(back) && float_class(back)
            == float_class(bits),
{
    reveal_strlit("__INFINITY__");
    reveal_strlit("__NEG_INFINITY__");
    reveal_strlit("__NAN__");
    lemma_float_classes(bits);
    assert("__INFINITY__"@.len() == 12);
    assert("__NEG_INFINITY__"@.len() == 16);
    assert("__NAN__"@.len() == 7);
    lemma_float_classes(INFINITY_BITS);
    lemma_float_classes(NEG_INFINITY_BITS);
}


} // verus!

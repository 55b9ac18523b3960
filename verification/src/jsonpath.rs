//! The library's model of a parsed JSON document, and the trusted parse that
//! fills it. serde_json does the parsing; the resulting tree is moved,
//! variant by variant, into a type the logic can read, so that navigating a
//! service response is verified library code with exact contracts. What the
//! parser returns for a given text is a function of the text alone, so it is
//! given a name, `json_of`.

use vstd::prelude::*;

verus! {

/// One JSON value: the library's own tree. A number carries its exact
/// unsigned value, when it is one, and its display text; object members keep
/// the document's order.
#[derive(Debug)]
pub enum JsonValue {
    Null,
    Bool(bool),
    Num { int_val: Option<u64>, text: String },
    Str(String),
    Arr(Vec<JsonValue>),
    Obj(Vec<(String, JsonValue)>),
}

/// What parsing a text as JSON yields: the tree for a well-formed document,
/// nothing otherwise. The parse is deterministic, so this is a function of
/// the text alone; the trusted parse below returns exactly this.
pub uninterp spec fn json_of(text: Seq<char>) -> Option<JsonValue>;

#[verifier::external_type_specification]
#[verifier::external_body]
pub struct ExSerdeValue(serde_json::Value);

/// Relies on serde_json::from_str: parses a JSON document, or nothing for
/// text that is not well-formed JSON. The result depends on the text alone
/// and is named `json_of`.
#[verifier::external_body]
pub(crate) fn parse_json(text: &str) -> (r: Option<JsonValue>)
    ensures
        r == json_of(text@),
{
    match serde_json::from_str::<serde_json::Value>(text) {
        Ok(v) => Some(tree_of(v)),
        Err(_) => None,
    }
}

/// Relies on serde_json::Value: moves the parsed tree into the library's
/// own, one arm per variant, fields only; a number is read through
/// Number::as_u64 and Display. The parser's recursion limit bounds the
/// depth, so the walk cannot overflow.
#[verifier::external_body]
fn tree_of(v: serde_json::Value) -> JsonValue {
    match v {
        serde_json::Value::Null => JsonValue::Null,
        serde_json::Value::Bool(b) => JsonValue::Bool(b),
        serde_json::Value::Number(n) => JsonValue::Num { int_val: n.as_u64(), text: n.to_string() },
        serde_json::Value::String(s) => JsonValue::Str(s),
        serde_json::Value::Array(items) => JsonValue::Arr(items.into_iter().map(tree_of).collect()),
        serde_json::Value::Object(map) => JsonValue::Obj(
            map.into_iter().map(|(k, w)| (k, tree_of(w))).collect(),
        ),
    }
}

/// The value under the first member with this key, front to back.
pub open spec fn entry_lookup(entries: Seq<(String, JsonValue)>, key: Seq<char>) -> Option<
    JsonValue,
>
    decreases entries.len(),
{
    if entries.len() == 0 {
        None
    } else if entries[0].0@ == key {
        Some(entries[0].1)
    } else {
        entry_lookup(entries.drop_first(), key)
    }
}

/// The member of an object under a key, if the value is an object and the
/// key is present.
pub open spec fn member_of(v: JsonValue, key: Seq<char>) -> Option<JsonValue> {
    match v {
        JsonValue::Obj(entries) => entry_lookup(entries@, key),
        _ => None,
    }
}

/// The elements of an array value.
pub open spec fn array_items(v: JsonValue) -> Option<Seq<JsonValue>> {
    match v {
        JsonValue::Arr(items) => Some(items@),
        _ => None,
    }
}

/// The element of an array at a position, if in bounds.
pub open spec fn element_of(v: JsonValue, i: int) -> Option<JsonValue> {
    match array_items(v) {
        Some(items) => if 0 <= i < items.len() {
            Some(items[i])
        } else {
            None
        },
        None => None,
    }
}

/// The content of a string value.
pub open spec fn string_of(v: JsonValue) -> Option<Seq<char>> {
    match v {
        JsonValue::Str(s) => Some(s@),
        _ => None,
    }
}

/// The exact unsigned integer of a number value, when it is one.
pub open spec fn u64_of(v: JsonValue) -> Option<u64> {
    match v {
        JsonValue::Num { int_val, .. } => int_val,
        _ => None,
    }
}

/// Navigation over an optional value: a member of it, if any.
pub open spec fn opt_member(v: Option<JsonValue>, key: Seq<char>) -> Option<JsonValue> {
    match v {
        Some(w) => member_of(w, key),
        None => None,
    }
}

/// Navigation over an optional value: an element of it, if any.
pub open spec fn opt_element(v: Option<JsonValue>, i: int) -> Option<JsonValue> {
    match v {
        Some(w) => element_of(w, i),
        None => None,
    }
}

/// Navigation over an optional value: its string content, if any.
pub open spec fn opt_string(v: Option<JsonValue>) -> Option<Seq<char>> {
    match v {
        Some(w) => string_of(w),
        None => None,
    }
}

/// Navigation over an optional value: its exact unsigned integer, if any.
pub open spec fn opt_u64(v: Option<JsonValue>) -> Option<u64> {
    match v {
        Some(w) => u64_of(w),
        None => None,
    }
}

/// The display text of one value standing alone: a string's content, a
/// number's text, the JSON words for null and the booleans, and a fixed
/// ellipsis for nested structure.
pub open spec fn scalar_text(v: JsonValue) -> Seq<char> {
    match v {
        JsonValue::Null => "null"@,
        JsonValue::Bool(b) => if b {
            "true"@
        } else {
            "false"@
        },
        JsonValue::Num { text, .. } => text@,
        JsonValue::Str(s) => s@,
        JsonValue::Arr(_) => "[...]"@,
        JsonValue::Obj(_) => "{...}"@,
    }
}

/// The display text of a member: its scalar text when present, the null
/// text when absent.
pub open spec fn field_display(v: JsonValue, key: Seq<char>) -> Seq<char> {
    match member_of(v, key) {
        Some(m) => scalar_text(m),
        None => "null"@,
    }
}

proof fn lemma_entry_lookup_at(entries: Seq<(String, JsonValue)>, key: Seq<char>, j: int)
    requires
        0 <= j <= entries.len(),
        forall|k: int| 0 <= k < j ==> entries[k].0@ != key,
    ensures
        entry_lookup(entries, key) == entry_lookup(entries.skip(j), key),
    decreases j,
{
    if j > 0 {
        assert(entries.skip(0) =~= entries);
        lemma_entry_lookup_at(entries.drop_first(), key, j - 1);
        assert(entries.drop_first().skip(j - 1) =~= entries.skip(j));
    } else {
        assert(entries.skip(0) =~= entries);
    }
}

/// Looks a member up in an object value: exactly `member_of`.
pub fn get_member<'a>(v: &'a JsonValue, key: &str) -> (r: Option<&'a JsonValue>)
    ensures
        match r {
            Some(m) => member_of(*v, key@) == Some(*m),
            None => member_of(*v, key@) is None,
        },
{
    match v {
        JsonValue::Obj(entries) => {
            let key_text = key.to_owned();
            let n = entries.len();
            let mut i: usize = 0;
            while i < n
                invariant
                    i <= n,
                    n == entries@.len(),
                    key_text@ == key@,
                    member_of(*v, key@) == entry_lookup(entries@, key@),
                    forall|k: int| 0 <= k < i ==> entries@[k].0@ != key@,
                decreases n - i,
            {
                let pair = &entries[i];
                if pair.0 == key_text {
                    proof {
                        lemma_entry_lookup_at(entries@, key@, i as int);
                        let tail = entries@.skip(i as int);
                        assert(tail.len() == n - i);
                        assert(tail[0] == entries@[i as int]);
                        assert(tail[0].0@ == key@);
                        assert(entry_lookup(tail, key@) == Some(tail[0].1));
                        assert(member_of(*v, key@) == Some(entries@[i as int].1));
                    }
                    return Some(&pair.1);
                }
                i = i + 1;
            }
            proof {
                lemma_entry_lookup_at(entries@, key@, n as int);
                assert(entries@.skip(n as int) =~= Seq::<(String, JsonValue)>::empty());
            }
            None
        },
        _ => None,
    }
}

/// Indexes into an array value: exactly `element_of`.
pub fn get_element<'a>(v: &'a JsonValue, i: usize) -> (r: Option<&'a JsonValue>)
    ensures
        match r {
            Some(m) => element_of(*v, i as int) == Some(*m),
            None => element_of(*v, i as int) is None,
        },
{
    match v {
        JsonValue::Arr(items) => {
            if i < items.len() {
                Some(&items[i])
            } else {
                None
            }
        },
        _ => None,
    }
}

/// How many elements an array value has: exactly the model's count.
pub fn get_array_len(v: &JsonValue) -> (r: Option<usize>)
    ensures
        match r {
            Some(n) => array_items(*v) matches Some(items) && items.len() == n,
            None => array_items(*v) is None,
        },
{
    match v {
        JsonValue::Arr(items) => Some(items.len()),
        _ => None,
    }
}

/// The content of a string value: exactly `string_of`.
pub fn get_string(v: &JsonValue) -> (r: Option<String>)
    ensures
        match r {
            Some(s) => string_of(*v) == Some(s@),
            None => string_of(*v) is None,
        },
{
    match v {
        JsonValue::Str(s) => Some(s.clone()),
        _ => None,
    }
}

/// The exact unsigned integer of a number value: exactly `u64_of`.
pub fn get_u64(v: &JsonValue) -> (r: Option<u64>)
    ensures
        r == u64_of(*v),
{
    match v {
        JsonValue::Num { int_val, .. } => *int_val,
        _ => None,
    }
}

/// The display text of one value standing alone: exactly `scalar_text`.
pub fn scalar_string(v: &JsonValue) -> (r: String)
    ensures
        r@ == scalar_text(*v),
{
    match v {
        JsonValue::Null => "null".to_owned(),
        JsonValue::Bool(b) => {
            if *b {
                "true".to_owned()
            } else {
                "false".to_owned()
            }
        },
        JsonValue::Num { int_val: _, text } => text.clone(),
        JsonValue::Str(s) => s.clone(),
        JsonValue::Arr(_) => "[...]".to_owned(),
        JsonValue::Obj(_) => "{...}".to_owned(),
    }
}

/// The display text of a member: exactly `field_display`.
pub fn display_field(v: &JsonValue, key: &str) -> (r: String)
    ensures
        r@ == field_display(*v, key@),
{
    match get_member(v, key) {
        Some(m) => scalar_string(m),
        None => "null".to_owned(),
    }
}

} // verus!

//! JSON values as the state file holds them, with the lookups the loader
//! makes, and their compact text (the form the state hash covers).  Text
//! is parsed into values outside the library.
use crate::text::{decimal, push_decimal, push_str, str_eq};
use vstd::prelude::*;

verus! {

/// A JSON value.  Numbers that are non-negative integers within `u64` are
/// held as such; any other number is kept as its text.
#[derive(Debug)]
pub enum JsonValue {
    Null,
    Bool(bool),
    Uint(u64),
    OtherNumber(String),
    Str(String),
    Array(Vec<JsonValue>),
    Object(Vec<(String, JsonValue)>),
}

/// What a `JsonValue` holds, as plain sequences.
pub enum JsonView {
    Null,
    Bool(bool),
    Uint(u64),
    OtherNumber(Seq<char>),
    Str(Seq<char>),
    Array(Seq<JsonView>),
    Object(Seq<(Seq<char>, JsonView)>),
}

/// The plain contents of a value.
pub open spec fn json_view(v: JsonValue) -> JsonView
    decreases v,
{
    match v {
        JsonValue::Null => JsonView::Null,
        JsonValue::Bool(b) => JsonView::Bool(b),
        JsonValue::Uint(n) => JsonView::Uint(n),
        JsonValue::OtherNumber(s) => JsonView::OtherNumber(s@),
        JsonValue::Str(s) => JsonView::Str(s@),
        JsonValue::Array(items) => JsonView::Array(
            Seq::new(
                items@.len(),
                |i: int|
                    {
                        if 0 <= i < items@.len() {
                            json_view(items@[i])
                        } else {
                            JsonView::Null
                        }
                    },
            ),
        ),
        JsonValue::Object(fields) => JsonView::Object(
            Seq::new(
                fields@.len(),
                |i: int|
                    {
                        if 0 <= i < fields@.len() {
                            (fields@[i].0@, json_view(fields@[i].1))
                        } else {
                            (Seq::empty(), JsonView::Null)
                        }
                    },
            ),
        ),
    }
}

impl View for JsonValue {
    type V = JsonView;

    open spec fn view(&self) -> JsonView {
        json_view(*self)
    }
}

/// The value of the first field named `key`.
pub open spec fn field_of(fields: Seq<(Seq<char>, JsonView)>, key: Seq<char>) -> Option<JsonView>
    decreases fields.len(),
{
    if fields.len() == 0 {
        None
    } else if fields[0].0 == key {
        Some(fields[0].1)
    } else {
        field_of(fields.drop_first(), key)
    }
}

/// The field `key` of an object; nothing for any other value.
pub open spec fn get_field(v: JsonView, key: Seq<char>) -> Option<JsonView> {
    match v {
        JsonView::Object(fields) => field_of(fields, key),
        _ => None,
    }
}

pub open spec fn str_of(v: Option<JsonView>) -> Option<Seq<char>> {
    match v {
        Some(JsonView::Str(s)) => Some(s),
        _ => None,
    }
}

pub open spec fn u64_of(v: Option<JsonView>) -> Option<u64> {
    match v {
        Some(JsonView::Uint(n)) => Some(n),
        _ => None,
    }
}

pub open spec fn bool_of(v: Option<JsonView>) -> Option<bool> {
    match v {
        Some(JsonView::Bool(b)) => Some(b),
        _ => None,
    }
}

pub open spec fn array_of(v: Option<JsonView>) -> Option<Seq<JsonView>> {
    match v {
        Some(JsonView::Array(items)) => Some(items),
        _ => None,
    }
}

/// A value is an object.
pub open spec fn is_object(v: JsonView) -> bool {
    v is Object
}

/// The string items of an array, in order, others skipped.
pub open spec fn strings_of(items: Seq<JsonView>) -> Seq<Seq<char>>
    decreases items.len(),
{
    if items.len() == 0 {
        seq![]
    } else {
        let rest = strings_of(items.drop_last());
        match items.last() {
            JsonView::Str(s) => rest.push(s),
            _ => rest,
        }
    }
}

impl JsonValue {
    /// The field `key` of an object.
    pub fn get(&self, key: &str) -> (r: Option<&JsonValue>)
        ensures
            r matches Some(x) ==> get_field(self@, key@) == Some(x@),
            r is None ==> get_field(self@, key@) is None,
    {
        match self {
            JsonValue::Object(fields) => {
                let ghost fv = match self@ {
                    JsonView::Object(f) => f,
                    _ => Seq::empty(),
                };
                assert(fv.len() == fields@.len());
                assert(fv.subrange(0, fv.len() as int) =~= fv);
                let mut i: usize = 0;
                while i < fields.len()
                    invariant
                        i <= fields@.len(),
                        fv.len() == fields@.len(),
                        self@ == JsonView::Object(fv),
                        forall|j: int|
                            0 <= j < fields@.len() ==> (#[trigger] fv[j]) == (
                            fields@[j].0@,
                            json_view(fields@[j].1),
                        ),
                        field_of(fv, key@) == field_of(fv.subrange(i as int, fv.len() as int), key@),
                    decreases fields.len() - i,
                {
                    let ghost rest = fv.subrange(i as int, fv.len() as int);
                    assert(rest[0] == fv[i as int]);
                    assert(rest.drop_first() =~= fv.subrange(i + 1, fv.len() as int));
                    if str_eq(fields[i].0.as_str(), key) {
                        assert(field_of(rest, key@) == Some(rest[0].1));
                        assert(self@ == JsonView::Object(fv));
                        assert(fields@[i as int].1@ == fv[i as int].1);
                        return Some(&fields[i].1);
                    }
                    i = i + 1;
                }
                assert(fv.subrange(i as int, fv.len() as int).len() == 0);
                None
            },
            _ => None,
        }
    }

    pub fn as_str(&self) -> (r: Option<&str>)
        ensures
            str_of(Some(self@)) == (match r {
                Some(s) => Some(s@),
                None => None::<Seq<char>>,
            }),
    {
        match self {
            JsonValue::Str(s) => Some(s.as_str()),
            _ => None,
        }
    }

    pub fn as_u64(&self) -> (r: Option<u64>)
        ensures
            r == u64_of(Some(self@)),
    {
        match self {
            JsonValue::Uint(n) => Some(*n),
            _ => None,
        }
    }

    pub fn as_bool(&self) -> (r: Option<bool>)
        ensures
            r == bool_of(Some(self@)),
    {
        match self {
            JsonValue::Bool(b) => Some(*b),
            _ => None,
        }
    }

    pub fn as_array(&self) -> (r: Option<&Vec<JsonValue>>)
        ensures
            r matches Some(items) ==> array_of(Some(self@)) == Some(
                items@.map_values(|x: JsonValue| x@),
            ),
            r is None ==> array_of(Some(self@)) is None,
    {
        match self {
            JsonValue::Array(items) => {
                assert(items@.map_values(|x: JsonValue| x@) =~= match self@ {
                    JsonView::Array(v) => v,
                    _ => Seq::empty(),
                });
                Some(items)
            },
            _ => None,
        }
    }

    pub fn is_object(&self) -> (r: bool)
        ensures
            r == is_object(self@),
    {
        match self {
            JsonValue::Object(_) => true,
            _ => false,
        }
    }
}

/// The string items of an array, in order, others skipped.
pub fn string_items(items: &Vec<JsonValue>) -> (r: Vec<String>)
    ensures
        r@.map_values(|s: String| s@) == strings_of(items@.map_values(|x: JsonValue| x@)),
{
    let ghost iv = items@.map_values(|x: JsonValue| x@);
    let mut out: Vec<String> = Vec::new();
    let mut i: usize = 0;
    while i < items.len()
        invariant
            i <= items@.len(),
            iv == items@.map_values(|x: JsonValue| x@),
            out@.map_values(|s: String| s@) == strings_of(iv.take(i as int)),
        decreases items.len() - i,
    {
        assert(iv.take(i + 1).drop_last() =~= iv.take(i as int));
        let ghost before = out@.map_values(|s: String| s@);
        match &items[i] {
            JsonValue::Str(s) => {
                out.push(s.clone());
                assert(out@.map_values(|s: String| s@) =~= before.push(s@));
            },
            _ => {},
        }
        i = i + 1;
    }
    assert(iv.take(i as int) =~= iv);
    out
}

/// The plain contents of object fields.
pub open spec fn fields_view(f: Seq<(String, JsonValue)>) -> Seq<(Seq<char>, JsonView)> {
    f.map_values(|e: (String, JsonValue)| (e.0@, json_view(e.1)))
}

/// The plain contents of array items.
pub open spec fn items_view(v: Seq<JsonValue>) -> Seq<JsonView> {
    v.map_values(|x: JsonValue| json_view(x))
}

pub proof fn lemma_object_view(f: Vec<(String, JsonValue)>)
    ensures
        json_view(JsonValue::Object(f)) == JsonView::Object(fields_view(f@)),
{
    match json_view(JsonValue::Object(f)) {
        JsonView::Object(g) => {
            assert(g =~= fields_view(f@));
        },
        _ => {},
    }
}

pub proof fn lemma_array_view(v: Vec<JsonValue>)
    ensures
        json_view(JsonValue::Array(v)) == JsonView::Array(items_view(v@)),
{
    match json_view(JsonValue::Array(v)) {
        JsonView::Array(g) => {
            assert(g =~= items_view(v@));
        },
        _ => {},
    }
}

/// The first field named `key` is the one at index `i`.
pub proof fn lemma_field_of_at(fields: Seq<(Seq<char>, JsonView)>, key: Seq<char>, i: int)
    requires
        0 <= i < fields.len(),
        fields[i].0 == key,
        forall|j: int| 0 <= j < i ==> fields[j].0 != key,
    ensures
        field_of(fields, key) == Some(fields[i].1),
    decreases i,
{
    if i > 0 {
        assert(fields[0].0 != key);
        let rest = fields.drop_first();
        assert forall|j: int| 0 <= j < i - 1 implies rest[j].0 != key by {
            assert(rest[j] == fields[j + 1]);
        }
        lemma_field_of_at(rest, key, i - 1);
    }
}

/// An object value.
pub fn object_value(fields: Vec<(String, JsonValue)>) -> (r: JsonValue)
    ensures
        r@ == JsonView::Object(fields_view(fields@)),
{
    proof {
        lemma_object_view(fields);
    }
    JsonValue::Object(fields)
}

/// An array value.
pub fn array_value(items: Vec<JsonValue>) -> (r: JsonValue)
    ensures
        r@ == JsonView::Array(items_view(items@)),
{
    proof {
        lemma_array_view(items);
    }
    JsonValue::Array(items)
}

/// Appends the field `key: value`.
pub fn push_field(fields: &mut Vec<(String, JsonValue)>, key: &str, value: JsonValue)
    ensures
        fields_view(final(fields)@) == fields_view(old(fields)@).push((key@, value@)),
{
    fields.push((crate::text::to_owned_string(key), value));
    assert(fields_view(fields@) =~= fields_view(old(fields)@).push((key@, value@)));
}

/// Appends an item.
pub fn push_item(items: &mut Vec<JsonValue>, value: JsonValue)
    ensures
        items_view(final(items)@) == items_view(old(items)@).push(value@),
{
    items.push(value);
    assert(items_view(items@) =~= items_view(old(items)@).push(value@));
}

/// A string value.
pub fn str_value(s: &str) -> (r: JsonValue)
    ensures
        r@ == JsonView::Str(s@),
{
    JsonValue::Str(crate::text::to_owned_string(s))
}

/// A string or `null`.
pub fn opt_str_value(s: &Option<String>) -> (r: JsonValue)
    ensures
        r@ == opt_str_json(crate::types::opt_view(*s)),
{
    match s {
        Some(t) => JsonValue::Str(t.clone()),
        None => JsonValue::Null,
    }
}

pub open spec fn opt_str_json(o: Option<Seq<char>>) -> JsonView {
    match o {
        Some(s) => JsonView::Str(s),
        None => JsonView::Null,
    }
}


// ---------------------------------------------------------------------------
// Compact JSON text
// ---------------------------------------------------------------------------

/// The JSON string literal that serde_json writes for `s`: the text in
/// double quotes, with the characters JSON requires escaped.
pub uninterp spec fn json_string_text(s: Seq<char>) -> Seq<char>;

/// The quoted, escaped JSON literal of `s`, as `serde_json::to_string`
/// writes it for a string (which cannot fail).
#[verifier::external_body]
fn json_string(s: &str) -> (r: String)
    ensures
        r@ == json_string_text(s@),
{
    match serde_json::to_string(s) {
        Ok(t) => t,
        Err(_) => String::new(),
    }
}

/// The compact JSON text of a value: no whitespace, array items and object
/// fields in their order, separated by commas, keys and strings as
/// `json_string_text` writes them, unsigned integers in decimal.
pub open spec fn json_text(v: JsonView) -> Seq<char>
    decreases v,
{
    match v {
        JsonView::Null => "null"@,
        JsonView::Bool(b) => if b {
            "true"@
        } else {
            "false"@
        },
        JsonView::Uint(n) => decimal(n as nat),
        JsonView::OtherNumber(s) => s,
        JsonView::Str(s) => json_string_text(s),
        JsonView::Array(items) => "["@ + items_text(items) + "]"@,
        JsonView::Object(fields) => "{"@ + fields_text(fields) + "}"@,
    }
}

/// The texts of array items, separated by commas.
pub open spec fn items_text(items: Seq<JsonView>) -> Seq<char>
    decreases items,
{
    if items.len() == 0 {
        Seq::empty()
    } else if items.len() == 1 {
        json_text(items[0])
    } else {
        items_text(items.drop_last()) + ","@ + json_text(items.last())
    }
}

/// The texts of object fields (`key:value`), separated by commas.
pub open spec fn fields_text(fields: Seq<(Seq<char>, JsonView)>) -> Seq<char>
    decreases fields,
{
    if fields.len() == 0 {
        Seq::empty()
    } else if fields.len() == 1 {
        json_string_text(fields[0].0) + ":"@ + json_text(fields[0].1)
    } else {
        fields_text(fields.drop_last()) + ","@ + json_string_text(fields.last().0) + ":"@
            + json_text(fields.last().1)
    }
}

/// Appends the compact JSON text of `v`.
pub fn write_json(out: &mut String, v: &JsonValue)
    ensures
        final(out)@ == old(out)@ + json_text(v@),
    decreases v,
{
    match v {
        JsonValue::Null => {
            push_str(out, "null");
            assert(v@ == JsonView::Null);
            assert(json_text(v@) == "null"@);
        },
        JsonValue::Bool(b) => {
            if *b {
                push_str(out, "true");
            } else {
                push_str(out, "false");
            }
        },
        JsonValue::Uint(n) => push_decimal(out, *n),
        JsonValue::OtherNumber(s) => push_str(out, s.as_str()),
        JsonValue::Str(s) => {
            let q = json_string(s.as_str());
            push_str(out, q.as_str());
        },
        JsonValue::Array(items) => {
            let ghost iv = items_view(items@);
            push_str(out, "[");
            let ghost base = out@;
            let mut i: usize = 0;
            while i < items.len()
                invariant
                    i <= items@.len(),
                    *v == JsonValue::Array(*items),
                    iv == items_view(items@),
                    out@ == base + items_text(iv.take(i as int)),
                decreases items.len() - i,
            {
                proof {
                    assert(decreases_to!(*v => v->Array_0));
                    assert(decreases_to!(*items => items[i as int]));
                    assert(decreases_to!(*v => items[i as int]));
                    assert(iv.take(i + 1).drop_last() =~= iv.take(i as int));
                }
                if i > 0 {
                    push_str(out, ",");
                }
                write_json(out, &items[i]);
                proof {
                    if i == 0 {
                        assert(iv.take(1)[0] == iv[0]);
                    }
                    assert(out@ =~= base + items_text(iv.take(i + 1)));
                }
                i = i + 1;
            }
            push_str(out, "]");
            proof {
                assert(iv.take(items@.len() as int) =~= iv);
                lemma_array_view(*items);
                assert(out@ =~= old(out)@ + json_text(v@));
            }
        },
        JsonValue::Object(fields) => {
            let ghost fv = fields_view(fields@);
            push_str(out, "{");
            let ghost base = out@;
            let mut i: usize = 0;
            while i < fields.len()
                invariant
                    i <= fields@.len(),
                    *v == JsonValue::Object(*fields),
                    fv == fields_view(fields@),
                    out@ == base + fields_text(fv.take(i as int)),
                decreases fields.len() - i,
            {
                proof {
                    assert(decreases_to!(*v => v->Object_0));
                    assert(decreases_to!(*fields => fields[i as int]));
                    assert(decreases_to!(fields[i as int] => fields[i as int].1));
                    assert(decreases_to!(*v => fields[i as int].1));
                    assert(fv.take(i + 1).drop_last() =~= fv.take(i as int));
                }
                if i > 0 {
                    push_str(out, ",");
                }
                let key = json_string(fields[i].0.as_str());
                push_str(out, key.as_str());
                push_str(out, ":");
                write_json(out, &fields[i].1);
                proof {
                    if i == 0 {
                        assert(fv.take(1)[0] == fv[0]);
                    }
                    assert(out@ =~= base + fields_text(fv.take(i + 1)));
                }
                i = i + 1;
            }
            push_str(out, "}");
            proof {
                assert(fv.take(fields@.len() as int) =~= fv);
                lemma_object_view(*fields);
                assert(out@ =~= old(out)@ + json_text(v@));
            }
        },
    }
}

} // verus!

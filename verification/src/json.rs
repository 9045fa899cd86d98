//! JSON values as the builder reads and writes them.
//!
//! The tree is held in a type of this crate so that the extraction engine can
//! walk it under verification. Turning text into a tree and a tree into text is
//! left to `serde_json`; both directions are named by uninterpreted functions
//! of the text or the tree alone.
use vstd::prelude::*;

verus! {

#[verifier::external_type_specification]
#[verifier::external_body]
pub struct ExJsonValue(serde_json::Value);

#[verifier::external_type_specification]
#[verifier::external_body]
pub struct ExJsonNumber(serde_json::Number);

/// A JSON number. Its digits are never inspected by this crate, so it is
/// carried as `serde_json` holds it.
pub type JsonNumber = serde_json::Number;

/// One member of a JSON object.
#[derive(Debug)]
pub struct JsonField {
    pub name: String,
    pub value: Json,
}

/// A JSON value.
#[derive(Debug)]
pub enum Json {
    Null,
    Bool(bool),
    Number(JsonNumber),
    String(String),
    Array(Vec<Json>),
    Object(Vec<JsonField>),
}

/// The mathematical value of a [`Json`].
pub ghost enum JsonModel {
    Null,
    Bool(bool),
    Number(JsonNumber),
    String(Seq<char>),
    Array(Seq<JsonModel>),
    Object(Seq<(Seq<char>, JsonModel)>),
}

/// The model of a value.
pub open spec fn json_model(j: Json) -> JsonModel
    decreases j,
{
    match j {
        Json::Null => JsonModel::Null,
        Json::Bool(b) => JsonModel::Bool(b),
        Json::Number(n) => JsonModel::Number(n),
        Json::String(s) => JsonModel::String(s@),
        Json::Array(items) => JsonModel::Array(
            Seq::new(
                items@.len(),
                |i: int|
                    if 0 <= i < items@.len() {
                        json_model(items@[i])
                    } else {
                        JsonModel::Null
                    },
            ),
        ),
        Json::Object(fields) => JsonModel::Object(
            Seq::new(
                fields@.len(),
                |i: int|
                    if 0 <= i < fields@.len() {
                        field_model(fields@[i])
                    } else {
                        (Seq::empty(), JsonModel::Null)
                    },
            ),
        ),
    }
}

/// The model of an object member: its name and the model of its value.
pub open spec fn field_model(f: JsonField) -> (Seq<char>, JsonModel)
    decreases f,
{
    (f.name@, json_model(f.value))
}

impl View for Json {
    type V = JsonModel;

    open spec fn view(&self) -> JsonModel {
        json_model(*self)
    }
}

impl DeepView for Json {
    type V = JsonModel;

    open spec fn deep_view(&self) -> JsonModel {
        json_model(*self)
    }
}

impl View for JsonField {
    type V = (Seq<char>, JsonModel);

    open spec fn view(&self) -> (Seq<char>, JsonModel) {
        field_model(*self)
    }
}

impl DeepView for JsonField {
    type V = (Seq<char>, JsonModel);

    open spec fn deep_view(&self) -> (Seq<char>, JsonModel) {
        field_model(*self)
    }
}

/// The view of an array node is the sequence of its items' views.
pub proof fn lemma_array_view(items: Vec<Json>)
    ensures
        Json::Array(items)@ == JsonModel::Array(items.deep_view()),
{
    assert(json_model(Json::Array(items))->Array_0 =~= items.deep_view());
}

/// The view of an object node is the sequence of its members' views.
pub proof fn lemma_object_view(fields: Vec<JsonField>)
    ensures
        Json::Object(fields)@ == JsonModel::Object(fields.deep_view()),
{
    assert(json_model(Json::Object(fields))->Object_0 =~= fields.deep_view());
}

/// The value of the last member called `name`, if there is one.
pub open spec fn member(fields: Seq<(Seq<char>, JsonModel)>, name: Seq<char>) -> Option<JsonModel>
    decreases fields.len(),
{
    if fields.len() == 0 {
        None
    } else if fields.last().0 == name {
        Some(fields.last().1)
    } else {
        member(fields.drop_last(), name)
    }
}

/// The position of the last member called `name`, if there is one.
pub open spec fn member_index(fields: Seq<(Seq<char>, JsonModel)>, name: Seq<char>) -> Option<int>
    decreases fields.len(),
{
    if fields.len() == 0 {
        None
    } else if fields.last().0 == name {
        Some(fields.len() - 1)
    } else {
        member_index(fields.drop_last(), name)
    }
}

/// `member_index` points at a member of that name, and `member` is its value.
pub proof fn lemma_member_index(fields: Seq<(Seq<char>, JsonModel)>, name: Seq<char>)
    ensures
        match member_index(fields, name) {
            Some(i) => 0 <= i < fields.len() && fields[i].0 == name && member(fields, name) == Some(
                fields[i].1,
            ),
            None => member(fields, name) is None && forall|i: int|
                0 <= i < fields.len() ==> fields[i].0 != name,
        },
    decreases fields.len(),
{
    if fields.len() > 0 && fields.last().0 != name {
        let front = fields.drop_last();
        lemma_member_index(front, name);
        assert forall|i: int| 0 <= i < fields.len() && member_index(fields, name) is None implies fields[i].0
            != name by {
            if i < front.len() {
                assert(front[i] == fields[i]);
            }
        }
    }
}

/// What `serde_json::from_str` makes of a text: the tree it parses to, or
/// `None` where it reports an error.
pub uninterp spec fn json_parse(text: Seq<char>) -> Option<JsonModel>;

/// The message of the error that `serde_json::from_str` reports for a text
/// that it does not parse.
pub uninterp spec fn json_parse_error(text: Seq<char>) -> Seq<char>;

/// What `serde_json::from_slice` makes of a byte string.
pub uninterp spec fn json_parse_bytes(bytes: Seq<u8>) -> Option<JsonModel>;

/// The tree that a `serde_json::Value` holds, members in the order in which
/// its map hands them out.
pub uninterp spec fn value_tree(value: serde_json::Value) -> JsonModel;

/// The text that `serde_json` prints for a `serde_json::Value`.
pub uninterp spec fn value_text(value: serde_json::Value) -> Seq<char>;

/// The compact text that `serde_json` prints for a tree, once the tree has
/// been collected into a `serde_json::Value`.
pub uninterp spec fn json_text(tree: JsonModel) -> Seq<char>;

/// `Clone` on `serde_json::Number` is derived: the copy is the number.
pub assume_specification[ <serde_json::Number as Clone>::clone ](n: &serde_json::Number) -> (r:
    serde_json::Number)
    ensures
        r == *n,
;

/// Calls `serde_json::from_str`, and prints the error where it reports one.
/// The contract only ties the outcome to `json_parse` of the same text, and
/// the message to `json_parse_error`.
#[verifier::external_body]
fn parse_value(text: &str) -> (r: Result<serde_json::Value, String>)
    ensures
        r matches Ok(v) ==> json_parse(text@) == Some(value_tree(v)),
        r matches Err(message) ==> json_parse(text@) is None && message@ == json_parse_error(
            text@,
        ),
{
    serde_json::from_str::<serde_json::Value>(text).map_err(|e| e.to_string())
}

/// Calls `serde_json::from_slice`. The contract only ties the outcome to
/// `json_parse_bytes` of the same bytes.
#[verifier::external_body]
fn parse_value_bytes(bytes: &[u8]) -> (r: Option<serde_json::Value>)
    ensures
        r matches Some(v) ==> json_parse_bytes(bytes@) == Some(value_tree(v)),
        r is None ==> json_parse_bytes(bytes@) is None,
{
    serde_json::from_slice::<serde_json::Value>(bytes).ok()
}

/// Copies a `serde_json::Value` into a [`Json`], variant by variant, walking
/// arrays and maps with their own iterators. The result holds the tree of the
/// value.
#[verifier::external_body]
fn json_from_value(value: &serde_json::Value) -> (j: Json)
    ensures
        j@ == value_tree(*value),
{
    match value {
        serde_json::Value::Null => Json::Null,
        serde_json::Value::Bool(b) => Json::Bool(*b),
        serde_json::Value::Number(n) => Json::Number(n.clone()),
        serde_json::Value::String(s) => Json::String(s.clone()),
        serde_json::Value::Array(a) => Json::Array(a.iter().map(json_from_value).collect()),
        serde_json::Value::Object(m) => Json::Object(
            m.iter().map(|(k, v)| JsonField { name: k.clone(), value: json_from_value(v) }).collect(),
        ),
    }
}

/// Collects a [`Json`] into a `serde_json::Value`, variant by variant. What
/// `serde_json` prints for the result is, by definition, `json_text` of the
/// tree.
#[verifier::external_body]
fn value_from_json(j: &Json) -> (value: serde_json::Value)
    ensures
        value_text(value) == json_text(j@),
{
    match j {
        Json::Null => serde_json::Value::Null,
        Json::Bool(b) => serde_json::Value::Bool(*b),
        Json::Number(n) => serde_json::Value::Number(n.clone()),
        Json::String(s) => serde_json::Value::String(s.clone()),
        Json::Array(a) => serde_json::Value::Array(a.iter().map(value_from_json).collect()),
        Json::Object(m) => serde_json::Value::Object(
            m.iter().map(|f| (f.name.clone(), value_from_json(&f.value))).collect(),
        ),
    }
}

/// Calls `to_string` on a `serde_json::Value`, which prints it in compact form.
#[verifier::external_body]
fn print_value(value: &serde_json::Value) -> (s: String)
    ensures
        s@ == value_text(*value),
{
    value.to_string()
}

impl Clone for JsonField {
    fn clone(&self) -> (r: Self)
        ensures
            r@ == self@,
        decreases self,
    {
        JsonField { name: self.name.clone(), value: self.value.clone() }
    }
}

impl Clone for Json {
    fn clone(&self) -> (r: Self)
        ensures
            r@ == self@,
        decreases self,
    {
        match self {
            Json::Null => Json::Null,
            Json::Bool(b) => Json::Bool(*b),
            Json::Number(n) => Json::Number(n.clone()),
            Json::String(s) => Json::String(s.clone()),
            Json::Array(items) => {
                let mut out: Vec<Json> = Vec::new();
                let mut i: usize = 0;
                while i < items.len()
                    invariant
                        i <= items.len(),
                        *self == Json::Array(*items),
                        out.len() == i,
                        forall|k: int| 0 <= k < i ==> out@[k]@ == items@[k]@,
                    decreases items.len() - i,
                {
                    assert(decreases_to!(*items => items[i as int]));
                    assert(self->Array_0 == *items);
                    assert(decreases_to!(*self => self->Array_0));
                    out.push(items[i].clone());
                    i += 1;
                }
                proof {
                    lemma_array_view(out);
                    lemma_array_view(*items);
                    assert(out.deep_view() =~= items.deep_view());
                }
                Json::Array(out)
            },
            Json::Object(fields) => {
                let mut out: Vec<JsonField> = Vec::new();
                let mut i: usize = 0;
                while i < fields.len()
                    invariant
                        i <= fields.len(),
                        *self == Json::Object(*fields),
                        out.len() == i,
                        forall|k: int| 0 <= k < i ==> out@[k]@ == fields@[k]@,
                    decreases fields.len() - i,
                {
                    assert(decreases_to!(*fields => fields[i as int]));
                    assert(self->Object_0 == *fields);
                    assert(decreases_to!(*self => self->Object_0));
                    out.push(fields[i].clone());
                    i += 1;
                }
                proof {
                    lemma_object_view(out);
                    lemma_object_view(*fields);
                    assert(out.deep_view() =~= fields.deep_view());
                }
                Json::Object(out)
            },
        }
    }
}

impl Json {
    /// Parses a text as JSON.
    pub fn parse(text: &str) -> (r: Option<Json>)
        ensures
            r.deep_view() == json_parse(text@),
    {
        match parse_value(text) {
            Ok(value) => Some(json_from_value(&value)),
            Err(_) => None,
        }
    }

    /// Parses a text as JSON, and gives the parser's message where it is
    /// none.
    pub fn parse_or_message(text: &str) -> (r: Result<Json, String>)
        ensures
            match r {
                Ok(j) => json_parse(text@) == Some(j@),
                Err(message) => json_parse(text@) is None && message@ == json_parse_error(text@),
            },
    {
        match parse_value(text) {
            Ok(value) => Ok(json_from_value(&value)),
            Err(message) => Err(message),
        }
    }

    /// Parses a byte string as JSON.
    pub fn parse_bytes(bytes: &[u8]) -> (r: Option<Json>)
        ensures
            r.deep_view() == json_parse_bytes(bytes@),
    {
        match parse_value_bytes(bytes) {
            Some(value) => Some(json_from_value(&value)),
            None => None,
        }
    }

    /// Prints the value as compact JSON text.
    pub fn to_text(&self) -> (s: String)
        ensures
            s@ == json_text(self@),
    {
        let value = value_from_json(self);
        print_value(&value)
    }

    /// The text a scalar position receives: a string stands for itself,
    /// anything else for its JSON text.
    pub open spec fn plain_text(tree: JsonModel) -> Seq<char> {
        match tree {
            JsonModel::String(s) => s,
            _ => json_text(tree),
        }
    }

    /// Renders the value for a scalar position (a header, a query value, a
    /// path): strings lose their quotes, other values are printed as JSON.
    pub fn to_plain_text(&self) -> (s: String)
        ensures
            s@ == Json::plain_text(self@),
    {
        match self {
            Json::String(s) => s.clone(),
            _ => self.to_text(),
        }
    }

    /// Builds a string node from a text.
    pub fn string(text: &str) -> (j: Json)
        ensures
            j@ == JsonModel::String(text@),
    {
        Json::String(text.to_owned())
    }
}

/// Finds the last member called `name` among the members of an object.
pub fn find_member(fields: &Vec<JsonField>, name: &str) -> (r: Option<usize>)
    ensures
        r matches Some(i) ==> member_index(fields.deep_view(), name@) == Some(i as int),
        r is None ==> member_index(fields.deep_view(), name@) is None,
{
    let wanted: String = name.to_owned();
    let mut found: Option<usize> = None;
    let mut i: usize = 0;
    while i < fields.len()
        invariant
            i <= fields.len(),
            wanted@ == name@,
            found matches Some(k) ==> member_index(fields.deep_view().take(i as int), name@)
                == Some(k as int),
            found is None ==> member_index(fields.deep_view().take(i as int), name@) is None,
        decreases fields.len() - i,
    {
        proof {
            let all = fields.deep_view();
            assert(all.take(i + 1).drop_last() =~= all.take(i as int));
            assert(all.take(i + 1).last() == fields@[i as int]@);
        }
        if fields[i].name == wanted {
            found = Some(i);
        }
        i += 1;
    }
    proof {
        assert(fields.deep_view().take(i as int) =~= fields.deep_view());
    }
    found
}

} // verus!

//! The body of a request, a response or a message, and its canonical form in
//! a contract document.
use crate::content_type::{ContentType, ContentTypeHint, ContentTypeModel};
use crate::json::{json_parse_bytes, json_text, Json, JsonField, JsonModel};
use crate::text::{decimal, decimal_text, utf8_text};
use vstd::prelude::*;
use vstd::string::StringExecFns;
use vstd::string::StrSliceExecFns;
use vstd::utf8::{decode_utf8, encode_utf8, valid_utf8};

verus! {

/// The four states that the body of an interaction can be in.
#[derive(Debug)]
pub enum OptionalBody {
    /// No body was ever given.
    Missing,
    /// A body was given and it is empty.
    Empty,
    /// A body was given as the JSON `null`; it is treated as empty.
    Null,
    /// A body with content: its bytes, its content type if known, and a hint
    /// on how to take the bytes.
    Present(Vec<u8>, Option<ContentType>, Option<ContentTypeHint>),
}

/// The model of an [`OptionalBody`].
pub ghost enum OptionalBodyModel {
    Missing,
    Empty,
    Null,
    Present(Seq<u8>, Option<ContentTypeModel>, Option<ContentTypeHint>),
}

impl View for OptionalBody {
    type V = OptionalBodyModel;

    open spec fn view(&self) -> OptionalBodyModel {
        match self {
            OptionalBody::Missing => OptionalBodyModel::Missing,
            OptionalBody::Empty => OptionalBodyModel::Empty,
            OptionalBody::Null => OptionalBodyModel::Null,
            OptionalBody::Present(bytes, content_type, hint) => OptionalBodyModel::Present(
                bytes@,
                content_type.deep_view(),
                *hint,
            ),
        }
    }
}

impl DeepView for OptionalBody {
    type V = OptionalBodyModel;

    open spec fn deep_view(&self) -> OptionalBodyModel {
        self@
    }
}

/// The text that `base64::encode` gives for a byte string: standard
/// alphabet, padded.
pub uninterp spec fn base64_text(bytes: Seq<u8>) -> Seq<char>;

/// Whether a byte string of this length can be encoded: the encoded length,
/// four characters for every three bytes begun, must fit a buffer.
pub open spec fn encodable_len(len: nat) -> bool {
    (len + 2) / 3 * 4 <= isize::MAX
}

/// Calls `base64::encode`. It panics where the encoded length does not fit a
/// buffer, which the precondition rules out; the result is named by
/// `base64_text`.
#[verifier::external_body]
fn base64_encode(bytes: &[u8]) -> (r: String)
    requires
        encodable_len(bytes@.len()),
    ensures
        r@ == base64_text(bytes@),
{
    base64::encode(bytes)
}

impl OptionalBodyModel {
    /// The content type that the canonical form states: the body's own, or
    /// `*/*`.
    pub open spec fn stated_content_type(self) -> ContentTypeModel {
        match self {
            OptionalBodyModel::Present(_, Some(content_type), _) => content_type,
            _ => ContentTypeModel::any(),
        }
    }

    /// Whether the canonical form embeds the body as parsed JSON.
    pub open spec fn embeds_json(self) -> bool {
        self matches OptionalBodyModel::Present(bytes, _, _) && self.stated_content_type().is_json()
            && json_parse_bytes(bytes) is Some
    }

    /// Whether the canonical form embeds the body as plain text.
    pub open spec fn embeds_text(self) -> bool {
        self matches OptionalBodyModel::Present(bytes, _, hint) && !self.stated_content_type().is_json()
            && hint != Some(ContentTypeHint::Binary) && !self.stated_content_type().is_binary()
            && valid_utf8(bytes)
    }

    /// The `content` member of the canonical form of a body with content.
    pub open spec fn canonical_content(self) -> JsonModel {
        match self {
            OptionalBodyModel::Present(bytes, _, _) => {
                if self.embeds_json() {
                    json_parse_bytes(bytes).unwrap()
                } else if self.embeds_text() {
                    JsonModel::String(decode_utf8(bytes))
                } else {
                    JsonModel::String(base64_text(bytes))
                }
            },
            _ => JsonModel::Null,
        }
    }

    /// The `encoded` member of the canonical form of a body with content.
    pub open spec fn canonical_encoding(self) -> JsonModel {
        if self.embeds_json() || self.embeds_text() {
            JsonModel::Bool(false)
        } else {
            JsonModel::String("base64"@)
        }
    }

    /// The canonical form: an object for a body with content, an explicit
    /// empty content for an empty body, `null` for a missing or null body.
    pub open spec fn canonical(self) -> JsonModel {
        match self {
            OptionalBodyModel::Present(_, _, hint) => {
                let content = ("content"@, self.canonical_content());
                let content_type = (
                    "contentType"@,
                    JsonModel::String(self.stated_content_type().text()),
                );
                let encoded = ("encoded"@, self.canonical_encoding());
                match hint {
                    Some(h) => JsonModel::Object(
                        seq![
                            content,
                            content_type,
                            ("contentTypeHint"@, JsonModel::String(h.name())),
                            encoded,
                        ],
                    ),
                    None => JsonModel::Object(seq![content, content_type, encoded]),
                }
            },
            OptionalBodyModel::Empty => JsonModel::Object(
                seq![("content"@, JsonModel::String(Seq::empty()))],
            ),
            _ => JsonModel::Null,
        }
    }

    /// Whether the canonical form can be computed: the bytes of a body with
    /// content must be few enough to encode.
    pub open spec fn encodable(self) -> bool {
        self matches OptionalBodyModel::Present(bytes, _, _) ==> encodable_len(bytes.len())
    }

    /// The body as text: its bytes decoded, or nothing where there are none
    /// or they are no UTF-8.
    pub open spec fn text(self) -> Seq<char> {
        match self {
            OptionalBodyModel::Present(bytes, _, _) => if valid_utf8(bytes) {
                decode_utf8(bytes)
            } else {
                Seq::empty()
            },
            _ => Seq::empty(),
        }
    }

    /// A short description of the state.
    pub open spec fn description(self) -> Seq<char> {
        match self {
            OptionalBodyModel::Missing => "Missing"@,
            OptionalBodyModel::Empty => "Empty"@,
            OptionalBodyModel::Null => "Null"@,
            OptionalBodyModel::Present(bytes, Some(content_type), _) => "Present("@ + decimal(
                bytes.len(),
            ) + " bytes, "@ + content_type.text() + ")"@,
            OptionalBodyModel::Present(bytes, None, _) => "Present("@ + decimal(bytes.len())
                + " bytes)"@,
        }
    }

    /// The body that a text gives: empty for the empty text, else its UTF-8
    /// bytes with no content type.
    pub open spec fn of_text(text: Seq<char>) -> OptionalBodyModel {
        if text.len() == 0 {
            OptionalBodyModel::Empty
        } else {
            OptionalBodyModel::Present(encode_utf8(text), None, None)
        }
    }

    /// The body that a buffer gives: missing for no buffer, empty for a
    /// buffer of no bytes, else the bytes with no content type.
    pub open spec fn of_bytes(bytes: Option<Seq<u8>>) -> OptionalBodyModel {
        match bytes {
            None => OptionalBodyModel::Missing,
            Some(b) => if b.len() == 0 {
                OptionalBodyModel::Empty
            } else {
                OptionalBodyModel::Present(b, None, None)
            },
        }
    }
}

/// A buffer of no bytes gives an empty body, whose canonical form is an
/// object with empty content; no buffer at all gives a missing body, whose
/// canonical form is `null`, so that a document leaves it out.
pub proof fn lemma_empty_is_not_missing()
    ensures
        OptionalBodyModel::of_bytes(Some(Seq::empty())) == OptionalBodyModel::Empty,
        OptionalBodyModel::of_bytes(None) == OptionalBodyModel::Missing,
        OptionalBodyModel::Empty.canonical() == JsonModel::Object(
            seq![("content"@, JsonModel::String(Seq::empty()))],
        ),
        OptionalBodyModel::Missing.canonical() == JsonModel::Null,
        OptionalBodyModel::Null.canonical() == JsonModel::Null,
        OptionalBodyModel::Empty.canonical() != OptionalBodyModel::Missing.canonical(),
{
}

fn member_of(name: &str, value: Json) -> (f: JsonField)
    ensures
        f@ == (name@, value@),
{
    JsonField { name: name.to_owned(), value }
}

fn copy_bytes(bytes: &Vec<u8>) -> (r: Vec<u8>)
    ensures
        r@ == bytes@,
{
    let mut r: Vec<u8> = Vec::new();
    let mut i: usize = 0;
    while i < bytes.len()
        invariant
            i <= bytes.len(),
            r@ == bytes@.take(i as int),
        decreases bytes.len() - i,
    {
        r.push(bytes[i]);
        assert(r@ =~= bytes@.take(i + 1));
        i += 1;
    }
    assert(bytes@.take(i as int) =~= bytes@);
    r
}

impl Clone for OptionalBody {
    fn clone(&self) -> (r: Self)
        ensures
            r@ == self@,
    {
        match self {
            OptionalBody::Missing => OptionalBody::Missing,
            OptionalBody::Empty => OptionalBody::Empty,
            OptionalBody::Null => OptionalBody::Null,
            OptionalBody::Present(bytes, content_type, hint) => OptionalBody::Present(
                copy_bytes(bytes),
                match content_type {
                    Some(ct) => Some(ct.clone()),
                    None => None,
                },
                *hint,
            ),
        }
    }
}

impl Default for OptionalBody {
    fn default() -> (r: Self)
        ensures
            r@ == OptionalBodyModel::Missing,
    {
        OptionalBody::Missing
    }
}

impl OptionalBody {
    /// Whether the body has content.
    pub fn is_present(&self) -> (r: bool)
        ensures
            r == (self@ is Present),
    {
        match self {
            OptionalBody::Present(_, _, _) => true,
            _ => false,
        }
    }

    /// The bytes of a body with content.
    pub fn value(&self) -> (r: Option<Vec<u8>>)
        ensures
            match self@ {
                OptionalBodyModel::Present(bytes, _, _) => r matches Some(v) && v@ == bytes,
                _ => r is None,
            },
    {
        match self {
            OptionalBody::Present(bytes, _, _) => Some(copy_bytes(bytes)),
            _ => None,
        }
    }

    /// The body as text: empty where there is no content or the content is
    /// no UTF-8.
    pub fn str_value(&self) -> (r: &str)
        ensures
            r@ == self@.text(),
    {
        proof {
            reveal_strlit("");
        }
        match self {
            OptionalBody::Present(bytes, _, _) => match utf8_text(bytes.as_slice()) {
                Some(s) => s,
                None => "",
            },
            _ => "",
        }
    }

    /// Whether the body carries a content type.
    pub fn has_content_type(&self) -> (r: bool)
        ensures
            r == (self@ matches OptionalBodyModel::Present(_, Some(_), _)),
    {
        match self {
            OptionalBody::Present(_, content_type, _) => content_type.is_some(),
            _ => false,
        }
    }

    /// The content type that the body carries.
    pub fn content_type(&self) -> (r: Option<ContentType>)
        ensures
            r.deep_view() == (match self@ {
                OptionalBodyModel::Present(_, content_type, _) => content_type,
                _ => None,
            }),
    {
        match self {
            OptionalBody::Present(_, Some(content_type), _) => Some(content_type.clone()),
            _ => None,
        }
    }

    /// Gives a body with content the content type `content_type`; any other
    /// body stays as it is.
    pub fn set_content_type(&mut self, content_type: &ContentType)
        ensures
            final(self)@ == (match old(self)@ {
                OptionalBodyModel::Present(bytes, _, hint) => OptionalBodyModel::Present(
                    bytes,
                    Some(content_type@),
                    hint,
                ),
                other => other,
            }),
    {
        match self {
            OptionalBody::Present(_, ct, _) => {
                *ct = Some(content_type.clone());
            },
            _ => {},
        }
    }

    /// The body that a text gives.
    pub fn from(text: &str) -> (r: OptionalBody)
        ensures
            r@ == OptionalBodyModel::of_text(text@),
    {
        if text.unicode_len() == 0 {
            OptionalBody::Empty
        } else {
            OptionalBody::Present(text.as_bytes_vec(), None, None)
        }
    }

    /// The body that a JSON value gives: its text, as JSON in UTF-8.
    pub fn from_json(json: &Json) -> (r: OptionalBody)
        ensures
            r@ == OptionalBodyModel::Present(
                encode_utf8(json_text(json@)),
                Some(
                    ContentTypeModel {
                        main_type: "application"@,
                        sub_type: "json"@,
                        suffix: None,
                        parameters: Some("charset=UTF-8"@),
                    },
                ),
                None,
            ),
    {
        OptionalBody::Present(
            json.to_text().as_str().as_bytes_vec(),
            Some(
                ContentType {
                    main_type: "application".to_owned(),
                    sub_type: "json".to_owned(),
                    suffix: None,
                    parameters: Some("charset=UTF-8".to_owned()),
                },
            ),
            None,
        )
    }

    /// The body that a buffer gives: `None` stands for no buffer at all.
    pub fn from_bytes(bytes: Option<&[u8]>) -> (r: OptionalBody)
        ensures
            r@ == OptionalBodyModel::of_bytes(
                match bytes {
                    Some(b) => Some(b@),
                    None => None,
                },
            ),
    {
        match bytes {
            None => OptionalBody::Missing,
            Some(b) => {
                if b.len() == 0 {
                    OptionalBody::Empty
                } else {
                    OptionalBody::Present(vstd::slice::slice_to_vec(b), None, None)
                }
            },
        }
    }

    /// A short description of the state, for logs and messages.
    pub fn to_string(&self) -> (r: String)
        ensures
            r@ == self@.description(),
    {
        match self {
            OptionalBody::Missing => "Missing".to_owned(),
            OptionalBody::Empty => "Empty".to_owned(),
            OptionalBody::Null => "Null".to_owned(),
            OptionalBody::Present(bytes, content_type, _) => {
                let mut r: String = "Present(".to_owned();
                r.append(decimal_text(bytes.len()).as_str());
                match content_type {
                    Some(ct) => {
                        r.append(" bytes, ");
                        r.append(ct.to_string().as_str());
                        r.append(")");
                    },
                    None => {
                        r.append(" bytes)");
                    },
                }
                r
            },
        }
    }

    /// The canonical form of the body, or `None` where the body has too
    /// many bytes to encode.
    pub fn canonical_json(&self) -> (r: Option<Json>)
        ensures
            match r {
                Some(json) => self@.encodable() && json@ == self@.canonical(),
                None => !self@.encodable(),
            },
    {
        let fits = match self {
            OptionalBody::Present(bytes, _, _) => {
                let len = bytes.len();
                let chunks = if len % 3 == 0 {
                    len / 3
                } else {
                    len / 3 + 1
                };
                assert(chunks == (len + 2) / 3);
                chunks <= (isize::MAX as usize) / 4
            },
            _ => true,
        };
        if fits {
            Some(self.to_v4_json())
        } else {
            None
        }
    }

    /// The canonical form of the body in a contract document.
    ///
    /// A body with content becomes an object. JSON content that parses is
    /// embedded as it is, with `encoded` false. Content that is marked or
    /// known as binary is written in base64, with `encoded` `"base64"`. Other
    /// content is embedded as text where it is UTF-8, and in base64 where it
    /// is not; so is JSON content that does not parse.
    pub fn to_v4_json(&self) -> (r: Json)
        requires
            self@.encodable(),
        ensures
            r@ == self@.canonical(),
    {
        match self {
            OptionalBody::Present(bytes, content_type, hint) => {
                let stated = match content_type {
                    Some(ct) => ct.clone(),
                    None => ContentType::default(),
                };
                let as_json = if stated.is_json() {
                    Json::parse_bytes(bytes.as_slice())
                } else {
                    None
                };
                let as_text = if !stated.is_json() && !(match hint {
                    Some(ContentTypeHint::Binary) => true,
                    _ => false,
                }) && !stated.is_binary() {
                    utf8_text(bytes.as_slice())
                } else {
                    None
                };
                let content: Json;
                let encoded: Json;
                match as_json {
                    Some(j) => {
                        content = j;
                        encoded = Json::Bool(false);
                    },
                    None => match as_text {
                        Some(s) => {
                            content = Json::string(s);
                            encoded = Json::Bool(false);
                        },
                        None => {
                            content = Json::String(base64_encode(bytes.as_slice()));
                            encoded = Json::string("base64");
                        },
                    },
                }
                let mut members: Vec<JsonField> = Vec::new();
                members.push(member_of("content", content));
                members.push(member_of("contentType", Json::String(stated.to_string())));
                match hint {
                    Some(h) => {
                        members.push(member_of("contentTypeHint", Json::String(h.to_string())));
                    },
                    None => {},
                }
                members.push(member_of("encoded", encoded));
                proof {
                    crate::json::lemma_object_view(members);
                    assert(members.deep_view() =~= self@.canonical()->Object_0);
                }
                Json::Object(members)
            },
            OptionalBody::Empty => {
                let mut members: Vec<JsonField> = Vec::new();
                members.push(member_of("content", Json::String(String::new())));
                proof {
                    crate::json::lemma_object_view(members);
                    assert(members.deep_view() =~= self@.canonical()->Object_0);
                }
                Json::Object(members)
            },
            _ => Json::Null,
        }
    }
}

} // verus!

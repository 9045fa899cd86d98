//! Content types, as far as the builder needs to tell kinds of bodies apart.
//!
//! A content type is written `main/sub`, optionally followed by `+suffix`
//! and by `;parameters`. The parts are kept as written: no case folding, no
//! trimming, and the parameters as one text.
use crate::text::{
    find_char, first_index, lemma_first_index, text_is,
};
use vstd::prelude::*;
use vstd::string::StringExecFns;

verus! {

/// How the bytes of a body are to be taken, whatever its content type says.
#[derive(Clone, Copy, Debug, PartialEq, Eq, Structural)]
pub enum ContentTypeHint {
    Binary,
    Text,
    Default,
}

impl ContentTypeHint {
    /// The name of the hint as documents spell it.
    pub open spec fn name(self) -> Seq<char> {
        match self {
            ContentTypeHint::Binary => "BINARY"@,
            ContentTypeHint::Text => "TEXT"@,
            ContentTypeHint::Default => "DEFAULT"@,
        }
    }

    /// The name of the hint as documents spell it.
    pub fn to_string(&self) -> (r: String)
        ensures
            r@ == self.name(),
    {
        match self {
            ContentTypeHint::Binary => "BINARY".to_owned(),
            ContentTypeHint::Text => "TEXT".to_owned(),
            ContentTypeHint::Default => "DEFAULT".to_owned(),
        }
    }
}

/// A content type.
#[derive(Debug)]
pub struct ContentType {
    pub main_type: String,
    pub sub_type: String,
    pub suffix: Option<String>,
    pub parameters: Option<String>,
}

/// The model of a [`ContentType`].
pub ghost struct ContentTypeModel {
    pub main_type: Seq<char>,
    pub sub_type: Seq<char>,
    pub suffix: Option<Seq<char>>,
    pub parameters: Option<Seq<char>>,
}

impl ContentTypeModel {
    /// The content type that stands for "anything": `*/*`.
    pub open spec fn any() -> ContentTypeModel {
        ContentTypeModel { main_type: "*"@, sub_type: "*"@, suffix: None, parameters: None }
    }

    /// `application/json`.
    pub open spec fn json() -> ContentTypeModel {
        ContentTypeModel {
            main_type: "application"@,
            sub_type: "json"@,
            suffix: None,
            parameters: None,
        }
    }

    /// `application/xml`.
    pub open spec fn xml() -> ContentTypeModel {
        ContentTypeModel {
            main_type: "application"@,
            sub_type: "xml"@,
            suffix: None,
            parameters: None,
        }
    }

    /// JSON, or a format built on it.
    pub open spec fn is_json(self) -> bool {
        self.main_type == "application"@ && (self.sub_type == "json"@ || self.suffix == Some(
            "json"@,
        ))
    }

    /// XML, or a format built on it.
    pub open spec fn is_xml(self) -> bool {
        (self.main_type == "application"@ || self.main_type == "text"@) && (self.sub_type
            == "xml"@ || self.suffix == Some("xml"@))
    }

    /// A type whose bodies are text.
    pub open spec fn is_text(self) -> bool {
        self.main_type == "text"@ || self.is_xml() || self.is_json()
    }

    /// A type whose bodies are known to be binary.
    pub open spec fn is_binary(self) -> bool {
        self.main_type == "audio"@ || self.main_type == "font"@ || self.main_type == "image"@
            || self.main_type == "video"@
    }

    /// The written form.
    pub open spec fn text(self) -> Seq<char> {
        self.main_type + seq!['/'] + self.sub_type + (match self.suffix {
            Some(suffix) => seq!['+'] + suffix,
            None => Seq::empty(),
        }) + (match self.parameters {
            Some(parameters) => seq![';'] + parameters,
            None => Seq::empty(),
        })
    }
}

/// What a text says as a content type, or `None` where it has no `/` with a
/// main type before it and a subtype after it.
pub open spec fn parse_content_type(text: Seq<char>) -> Option<ContentTypeModel> {
    let head = match first_index(text, ';') {
        Some(i) => text.subrange(0, i),
        None => text,
    };
    let parameters = match first_index(text, ';') {
        Some(i) => Some(text.subrange(i + 1, text.len() as int)),
        None => None,
    };
    match first_index(head, '/') {
        None => None,
        Some(slash) => {
            let rest = head.subrange(slash + 1, head.len() as int);
            if slash == 0 || rest.len() == 0 {
                None
            } else {
                Some(
                    ContentTypeModel {
                        main_type: head.subrange(0, slash),
                        sub_type: match first_index(rest, '+') {
                            Some(plus) => rest.subrange(0, plus),
                            None => rest,
                        },
                        suffix: match first_index(rest, '+') {
                            Some(plus) => Some(rest.subrange(plus + 1, rest.len() as int)),
                            None => None,
                        },
                        parameters,
                    },
                )
            }
        },
    }
}

/// A content type that was parsed from a text is written as that text.
pub proof fn lemma_parse_then_text(text: Seq<char>)
    requires
        parse_content_type(text) is Some,
    ensures
        parse_content_type(text).unwrap().text() == text,
{
    lemma_first_index(text, ';');
    let head = match first_index(text, ';') {
        Some(i) => text.subrange(0, i),
        None => text,
    };
    lemma_first_index(head, '/');
    let slash = first_index(head, '/').unwrap();
    let rest = head.subrange(slash + 1, head.len() as int);
    lemma_first_index(rest, '+');
    let ct = parse_content_type(text).unwrap();
    assert(ct.text() =~= text);
}

impl View for ContentType {
    type V = ContentTypeModel;

    open spec fn view(&self) -> ContentTypeModel {
        ContentTypeModel {
            main_type: self.main_type@,
            sub_type: self.sub_type@,
            suffix: self.suffix.deep_view(),
            parameters: self.parameters.deep_view(),
        }
    }
}

impl DeepView for ContentType {
    type V = ContentTypeModel;

    open spec fn deep_view(&self) -> ContentTypeModel {
        self@
    }
}

impl Clone for ContentType {
    fn clone(&self) -> (r: Self)
        ensures
            r@ == self@,
    {
        ContentType {
            main_type: self.main_type.clone(),
            sub_type: self.sub_type.clone(),
            suffix: match &self.suffix {
                Some(s) => Some(s.clone()),
                None => None,
            },
            parameters: match &self.parameters {
                Some(s) => Some(s.clone()),
                None => None,
            },
        }
    }
}

impl Default for ContentType {
    fn default() -> (r: Self)
        ensures
            r@ == ContentTypeModel::any(),
    {
        ContentType {
            main_type: "*".to_owned(),
            sub_type: "*".to_owned(),
            suffix: None,
            parameters: None,
        }
    }
}

impl ContentType {
    /// `application/json`.
    pub fn json() -> (r: ContentType)
        ensures
            r@ == ContentTypeModel::json(),
    {
        ContentType {
            main_type: "application".to_owned(),
            sub_type: "json".to_owned(),
            suffix: None,
            parameters: None,
        }
    }

    /// `application/xml`.
    pub fn xml() -> (r: ContentType)
        ensures
            r@ == ContentTypeModel::xml(),
    {
        ContentType {
            main_type: "application".to_owned(),
            sub_type: "xml".to_owned(),
            suffix: None,
            parameters: None,
        }
    }

    /// Reads a content type from its written form.
    pub fn parse(text: &str) -> (r: Option<ContentType>)
        ensures
            r.deep_view() == parse_content_type(text@),
    {
        let n = text.unicode_len();
        proof {
            lemma_first_index(text@, ';');
        }
        let semicolon = find_char(text, ';');
        let head = match semicolon {
            Some(i) => text.substring_char(0, i),
            None => text,
        };
        let parameters = match semicolon {
            Some(i) => Some(text.substring_char(i + 1, n).to_owned()),
            None => None,
        };
        let head_len = head.unicode_len();
        proof {
            lemma_first_index(head@, '/');
        }
        match find_char(head, '/') {
            None => None,
            Some(slash) => {
                if slash == 0 || slash + 1 == head_len {
                    None
                } else {
                    let rest = head.substring_char(slash + 1, head_len);
                    let rest_len = rest.unicode_len();
                    proof {
                        lemma_first_index(rest@, '+');
                    }
                    let plus = find_char(rest, '+');
                    Some(
                        ContentType {
                            main_type: head.substring_char(0, slash).to_owned(),
                            sub_type: match plus {
                                Some(p) => rest.substring_char(0, p).to_owned(),
                                None => rest.to_owned(),
                            },
                            suffix: match plus {
                                Some(p) => Some(rest.substring_char(p + 1, rest_len).to_owned()),
                                None => None,
                            },
                            parameters,
                        },
                    )
                }
            },
        }
    }

    /// The written form.
    pub fn to_string(&self) -> (r: String)
        ensures
            r@ == self@.text(),
    {
        proof {
            reveal_strlit("/");
            reveal_strlit("+");
            reveal_strlit(";");
        }
        let mut r = self.main_type.clone();
        r.append("/");
        r.append(self.sub_type.as_str());
        match &self.suffix {
            Some(suffix) => {
                r.append("+");
                r.append(suffix.as_str());
            },
            None => {},
        }
        match &self.parameters {
            Some(parameters) => {
                r.append(";");
                r.append(parameters.as_str());
            },
            None => {},
        }
        assert(r@ =~= self@.text());
        r
    }

    fn suffix_is(&self, wanted: &str) -> (r: bool)
        ensures
            r == (self@.suffix == Some(wanted@)),
    {
        match &self.suffix {
            Some(suffix) => text_is(suffix, wanted),
            None => false,
        }
    }

    /// JSON, or a format built on it.
    pub fn is_json(&self) -> (r: bool)
        ensures
            r == self@.is_json(),
    {
        text_is(&self.main_type, "application") && (text_is(&self.sub_type, "json")
            || self.suffix_is("json"))
    }

    /// XML, or a format built on it.
    pub fn is_xml(&self) -> (r: bool)
        ensures
            r == self@.is_xml(),
    {
        (text_is(&self.main_type, "application") || text_is(&self.main_type, "text")) && (text_is(
            &self.sub_type,
            "xml",
        ) || self.suffix_is("xml"))
    }

    /// A type whose bodies are text.
    pub fn is_text(&self) -> (r: bool)
        ensures
            r == self@.is_text(),
    {
        text_is(&self.main_type, "text") || self.is_xml() || self.is_json()
    }

    /// A type whose bodies are known to be binary.
    pub fn is_binary(&self) -> (r: bool)
        ensures
            r == self@.is_binary(),
    {
        text_is(&self.main_type, "audio") || text_is(&self.main_type, "font") || text_is(
            &self.main_type,
            "image",
        ) || text_is(&self.main_type, "video")
    }
}

} // verus!

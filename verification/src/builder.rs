//! The builder operations: each resolves a handle in the registry, changes
//! the document, and reports whether the change will take effect.
//!
//! A document whose mock server has started is frozen. A setter on a frozen
//! document still changes the document in memory; it reports `false` to say
//! that the running server will not see the change.
use crate::bodies::{OptionalBody, OptionalBodyModel};
use crate::content_type::{parse_content_type, ContentType, ContentTypeModel};
use crate::dict::Dict;
use crate::extract::{body_walk, from_integration_json, process_json, scalar_walk, Walked};
use crate::handles::{
    interaction_at, registry_with, HandleRegistry, InteractionHandle, InteractionPart,
    RegistryModel,
};
use crate::json::{json_parse, Json, JsonField, JsonModel};
use crate::model::{
    content_type_header, HttpRequestModel, HttpResponseModel, Interaction, InteractionModel,
    SynchronousHttp, SynchronousHttpModel, ValueMap,
};
use crate::path::{DocPath, PathSegment};
use crate::rules::{
    Category, Generators, GeneratorsModel, MatchingRule, MatchingRuleModel, MatchingRules,
    MatchingRulesModel, RuleLogic,
};
use crate::text::{given, given_or, read, read_or};
use crate::values::{
    contains_name, has_name, join_values, joined, lookup_values, put_values, set_value, value_set,
    values_of, with_values,
};
use crate::xml::{process_xml, xml_walk};
use vstd::string::{StrSliceExecFns, StringExecFns};
use vstd::utf8::encode_utf8;
use vstd::prelude::*;

verus! {

/// The content type of one half of an interaction: the one that its body
/// carries, else the one that its content type header states, else `*/*`.
pub open spec fn declared_content_type(
    headers: Option<ValueMap>,
    body: OptionalBodyModel,
) -> ContentTypeModel {
    match body {
        OptionalBodyModel::Present(_, Some(content_type), _) => content_type,
        _ => if has_name(headers, content_type_header()) {
            match parse_content_type(joined(values_of(headers, content_type_header()))) {
                Some(content_type) => content_type,
                None => ContentTypeModel::any(),
            }
        } else {
            ContentTypeModel::any()
        },
    }
}

/// The body that a text gives on a half of the content type `declared`,
/// with the rules and generators as they stand once it is set.
///
/// The empty text gives the empty body, whatever the content type, and files
/// nothing. A JSON body is walked: its plain example becomes the body and
/// what its annotations declare is filed in the body category. An XML body
/// is written from the builder document that the text holds, and has no
/// bytes where the text holds none. Any other body is the text as it is.
pub open spec fn text_body(
    declared: ContentTypeModel,
    body: Seq<char>,
    rules: MatchingRulesModel,
    generators: GeneratorsModel,
) -> Walked<OptionalBodyModel> {
    if body.len() == 0 {
        Walked { value: OptionalBodyModel::Empty, rules, generators }
    } else if declared.is_json() {
        let w = body_walk(json_parse(body), body, rules, generators);
        Walked {
            value: OptionalBodyModel::Present(
                encode_utf8(w.value),
                Some(ContentTypeModel::json()),
                None,
            ),
            rules: w.rules,
            generators: w.generators,
        }
    } else if declared.is_xml() {
        let w = xml_walk(body, rules, generators);
        Walked {
            value: OptionalBodyModel::Present(
                match w.value {
                    Ok(bytes) => bytes,
                    Err(_) => Seq::empty(),
                },
                Some(ContentTypeModel::xml()),
                None,
            ),
            rules: w.rules,
            generators: w.generators,
        }
    } else {
        Walked { value: OptionalBodyModel::of_text(body), rules, generators }
    }
}

/// The empty text gives the empty body on a half of any content type, and
/// leaves the rules and generators as they are.
pub proof fn lemma_empty_text_is_empty_body(
    declared: ContentTypeModel,
    rules: MatchingRulesModel,
    generators: GeneratorsModel,
)
    ensures
        text_body(declared, Seq::empty(), rules, generators) == (Walked {
            value: OptionalBodyModel::Empty,
            rules,
            generators,
        }),
        text_body(declared, Seq::empty(), rules, generators).value.canonical()
            == JsonModel::Object(seq![("content"@, JsonModel::String(Seq::empty()))]),
{
}

/// The rule that asks for a body of the content type `content_type`.
pub open spec fn content_type_rule(content_type: Seq<char>) -> MatchingRuleModel {
    MatchingRuleModel {
        kind: "contentType"@,
        attributes: seq![("value"@, JsonModel::String(content_type))],
    }
}

/// A change to an HTTP interaction.
#[derive(Debug)]
pub enum HttpEdit<'a> {
    /// Sets the method and the path of the request.
    Request { method: &'a str, path: &'a str },
    /// Sets one value of a query parameter.
    Query { name: &'a str, index: usize, value: &'a str },
    /// Sets one value of a header of one half.
    Header { part: InteractionPart, name: &'a str, index: usize, value: &'a str },
    /// Sets the status of the response.
    Status(u16),
    /// Sets the body of one half from a text.
    Body { part: InteractionPart, content_type: &'a str, body: &'a str },
    /// Sets a binary body of one half, matched by its content type. `None`
    /// stands for no buffer at all.
    BinaryFile { part: InteractionPart, content_type: &'a str, bytes: Option<&'a [u8]> },
    /// Sets a multipart body of one half, with one part that is matched by
    /// its content type.
    Multipart {
        part: InteractionPart,
        multipart: &'a MultipartBody,
        content_type: &'a str,
        part_name: &'a str,
    },
}

/// A multipart body as it was generated: the body and the boundary between
/// its parts.
#[derive(Debug)]
pub struct MultipartBody {
    pub body: OptionalBody,
    pub boundary: String,
}

/// The pattern that the content type header of a multipart body matches.
pub open spec fn multipart_header_pattern() -> Seq<char> {
    "multipart/form-data;(\\s*charset=[^;]*;)?\\s*boundary=.*"@
}

/// The rule that asks for the content type header of a multipart body.
pub open spec fn multipart_header_rule() -> MatchingRuleModel {
    MatchingRuleModel {
        kind: "regex"@,
        attributes: seq![("regex"@, JsonModel::String(multipart_header_pattern()))],
    }
}

impl SynchronousHttpModel {
    /// The headers of one half.
    pub open spec fn headers(self, part: InteractionPart) -> Option<ValueMap> {
        match part {
            InteractionPart::Request => self.request.headers,
            InteractionPart::Response => self.response.headers,
        }
    }

    /// The body of one half.
    pub open spec fn body(self, part: InteractionPart) -> OptionalBodyModel {
        match part {
            InteractionPart::Request => self.request.body,
            InteractionPart::Response => self.response.body,
        }
    }

    /// The matching rules of one half.
    pub open spec fn rules(self, part: InteractionPart) -> MatchingRulesModel {
        match part {
            InteractionPart::Request => self.request.matching_rules,
            InteractionPart::Response => self.response.matching_rules,
        }
    }

    /// The generators of one half.
    pub open spec fn generators(self, part: InteractionPart) -> GeneratorsModel {
        match part {
            InteractionPart::Request => self.request.generators,
            InteractionPart::Response => self.response.generators,
        }
    }

    /// The interaction with the headers, body, rules and generators of one
    /// half replaced.
    pub open spec fn with_half(
        self,
        part: InteractionPart,
        headers: Option<ValueMap>,
        body: OptionalBodyModel,
        rules: MatchingRulesModel,
        generators: GeneratorsModel,
    ) -> SynchronousHttpModel {
        match part {
            InteractionPart::Request => SynchronousHttpModel {
                request: HttpRequestModel {
                    headers,
                    body,
                    matching_rules: rules,
                    generators,
                    ..self.request
                },
                ..self
            },
            InteractionPart::Response => SynchronousHttpModel {
                response: HttpResponseModel {
                    headers,
                    body,
                    matching_rules: rules,
                    generators,
                    ..self.response
                },
                ..self
            },
        }
    }

    /// The interaction after its request line has been set: the method as
    /// given, the path taken out of its annotation, if it is one, with what
    /// the annotation declares filed under the empty path.
    pub open spec fn with_request(self, method: Seq<char>, path: Seq<char>) -> SynchronousHttpModel {
        let w = scalar_walk(
            json_parse(path),
            path,
            Category::Path,
            self.request.matching_rules,
            self.request.generators,
            Seq::empty(),
        );
        SynchronousHttpModel {
            request: HttpRequestModel {
                method,
                path: w.value,
                matching_rules: w.rules,
                generators: w.generators,
                ..self.request
            },
            ..self
        }
    }

    /// The interaction after a query value has been set: the value is taken
    /// out of its annotation, if it is one, and set at `index` under `name`;
    /// what the annotation declares is filed under the name and the index.
    pub open spec fn with_query_parameter(
        self,
        name: Seq<char>,
        index: nat,
        value: Seq<char>,
    ) -> SynchronousHttpModel {
        let w = scalar_walk(
            json_parse(value),
            value,
            Category::Query,
            self.request.matching_rules,
            self.request.generators,
            seq![PathSegment::Root, PathSegment::Field(name), PathSegment::Index(index)],
        );
        SynchronousHttpModel {
            request: HttpRequestModel {
                query: value_set(self.request.query, name, index, w.value),
                matching_rules: w.rules,
                generators: w.generators,
                ..self.request
            },
            ..self
        }
    }

    /// The interaction with another response status.
    pub open spec fn with_status(self, status: u16) -> SynchronousHttpModel {
        SynchronousHttpModel {
            response: HttpResponseModel { status, ..self.response },
            ..self
        }
    }

    /// The interaction after a binary body has been set: the body is what
    /// the buffer gives; a half without a content type header is given
    /// `application/octet-stream`; and a rule of the kind `contentType` for
    /// the expected content type is filed at the root of the body.
    pub open spec fn with_binary_file(
        self,
        part: InteractionPart,
        content_type: Seq<char>,
        body: Option<Seq<u8>>,
    ) -> SynchronousHttpModel {
        self.with_half(
            part,
            if has_name(self.headers(part), content_type_header()) {
                self.headers(part)
            } else {
                with_values(
                    self.headers(part),
                    content_type_header(),
                    seq!["application/octet-stream"@],
                )
            },
            OptionalBodyModel::of_bytes(body),
            self.rules(part).with_rule(
                Category::Body,
                seq![PathSegment::Root],
                content_type_rule(content_type),
                RuleLogic::And,
            ),
            self.generators(part),
        )
    }

    /// The interaction after a body has been set: a half without a content
    /// type header is given `content_type` first, and the body and what its
    /// annotations declare are what [`text_body`] gives for the content type
    /// of the half.
    pub open spec fn with_body(
        self,
        part: InteractionPart,
        content_type: Seq<char>,
        body: Seq<char>,
    ) -> SynchronousHttpModel {
        let headers = if has_name(self.headers(part), content_type_header()) {
            self.headers(part)
        } else {
            with_values(self.headers(part), content_type_header(), seq![content_type])
        };
        let w = text_body(
            declared_content_type(headers, self.body(part)),
            body,
            self.rules(part),
            self.generators(part),
        );
        self.with_half(part, headers, w.value, w.rules, w.generators)
    }

    /// The interaction after a multipart body has been set: the body is the
    /// one given; the content type header states `multipart/form-data` with
    /// the boundary; a rule of the kind `contentType` for the expected
    /// content type of the part is filed under the name of the part in the
    /// body category, and a rule of the kind `regex` for the header under
    /// its name in the header category.
    pub open spec fn with_multipart(
        self,
        part: InteractionPart,
        boundary: Seq<char>,
        body: OptionalBodyModel,
        content_type: Seq<char>,
        part_name: Seq<char>,
    ) -> SynchronousHttpModel {
        self.with_half(
            part,
            with_values(
                self.headers(part),
                content_type_header(),
                seq!["multipart/form-data; boundary="@ + boundary],
            ),
            body,
            self.rules(part).with_rule(
                Category::Body,
                seq![PathSegment::Root, PathSegment::Field(part_name)],
                content_type_rule(content_type),
                RuleLogic::And,
            ).with_rule(
                Category::Header,
                seq![PathSegment::Root, PathSegment::Field(content_type_header())],
                multipart_header_rule(),
                RuleLogic::And,
            ),
            self.generators(part),
        )
    }

    /// The interaction after an edit.
    pub open spec fn edited(self, edit: HttpEdit<'_>) -> SynchronousHttpModel {
        match edit {
            HttpEdit::Request { method, path } => self.with_request(method@, path@),
            HttpEdit::Query { name, index, value } => self.with_query_parameter(
                name@,
                index as nat,
                value@,
            ),
            HttpEdit::Header { part, name, index, value } => self.with_header(
                part,
                name@,
                index as nat,
                value@,
            ),
            HttpEdit::Status(status) => self.with_status(status),
            HttpEdit::Body { part, content_type, body } => self.with_body(
                part,
                content_type@,
                body@,
            ),
            HttpEdit::BinaryFile { part, content_type, bytes } => self.with_binary_file(
                part,
                content_type@,
                match bytes {
                    Some(b) => Some(b@),
                    None => None,
                },
            ),
            HttpEdit::Multipart { part, multipart, content_type, part_name } => self.with_multipart(
                part,
                multipart.boundary@,
                multipart.body@,
                content_type@,
                part_name@,
            ),
        }
    }

    /// The interaction after a header value has been set: the value is taken
    /// out of its annotation, if it is one, and set at `index` under `name`;
    /// what the annotation declares is filed under the header's name.
    pub open spec fn with_header(
        self,
        part: InteractionPart,
        name: Seq<char>,
        index: nat,
        value: Seq<char>,
    ) -> SynchronousHttpModel {
        let w = scalar_walk(
            json_parse(value),
            value,
            Category::Header,
            self.rules(part),
            self.generators(part),
            seq![PathSegment::Root, PathSegment::Field(name)],
        );
        self.with_half(
            part,
            value_set(self.headers(part), name, index, w.value),
            self.body(part),
            w.rules,
            w.generators,
        )
    }
}

/// Whether a handle resolves to an HTTP interaction.
pub open spec fn resolves_http(registry: RegistryModel, handle: InteractionHandle) -> bool {
    interaction_at(registry, handle.document(), handle.position()) matches Some(
        InteractionModel::Http(_),
    )
}

/// The HTTP interaction that a handle resolves to.
pub open spec fn http_at(registry: RegistryModel, handle: InteractionHandle) -> SynchronousHttpModel {
    interaction_at(registry, handle.document(), handle.position()).unwrap()->Http_0
}

/// What a setter on an HTTP interaction does. Where the handle resolves to
/// an HTTP interaction, the interaction becomes `changed`, and the setter
/// reports whether the document was still a draft. Anywhere else nothing
/// changes and the setter reports `false`.
pub open spec fn http_updated(
    before: RegistryModel,
    after: RegistryModel,
    ok: bool,
    handle: InteractionHandle,
    changed: SynchronousHttpModel,
) -> bool {
    if resolves_http(before, handle) {
        &&& after == registry_with(
            before,
            handle.document(),
            handle.position(),
            InteractionModel::Http(changed),
        )
        &&& ok == !before[handle.document()].mock_server_started
    } else {
        after == before && !ok
    }
}

/// A setter on a handle of position zero changes nothing and reports
/// `false`, whatever it was asked to set.
pub proof fn lemma_sentinel_handle_fails(
    before: RegistryModel,
    after: RegistryModel,
    ok: bool,
    handle: InteractionHandle,
    changed: SynchronousHttpModel,
)
    requires
        handle.position() == 0,
        http_updated(before, after, ok, handle, changed),
    ensures
        !ok,
        after == before,
{
}

/// A setter on a frozen document reports `false` and changes the document
/// all the same: the handle resolves to the changed interaction afterwards,
/// and the document stays frozen.
pub proof fn lemma_frozen_document_still_changes(
    before: RegistryModel,
    after: RegistryModel,
    ok: bool,
    handle: InteractionHandle,
    changed: SynchronousHttpModel,
)
    requires
        resolves_http(before, handle),
        before[handle.document()].mock_server_started,
        http_updated(before, after, ok, handle, changed),
    ensures
        !ok,
        resolves_http(after, handle),
        http_at(after, handle) == changed,
        after[handle.document()].mock_server_started,
{
}

/// A setter on a draft reports `true`: what it reports is whether the
/// document was a draft when it was called.
pub proof fn lemma_draft_document_reports_success(
    before: RegistryModel,
    after: RegistryModel,
    ok: bool,
    handle: InteractionHandle,
    changed: SynchronousHttpModel,
)
    requires
        resolves_http(before, handle),
        !before[handle.document()].mock_server_started,
        http_updated(before, after, ok, handle, changed),
    ensures
        ok,
        http_at(after, handle) == changed,
{
}

fn content_type_matcher(content_type: &str) -> (r: MatchingRule)
    ensures
        r@ == content_type_rule(content_type@),
{
    let mut attributes: Vec<JsonField> = Vec::new();
    attributes.push(JsonField { name: "value".to_owned(), value: Json::string(content_type) });
    let r = MatchingRule { kind: "contentType".to_owned(), attributes };
    assert(r@.attributes =~= content_type_rule(content_type@).attributes);
    r
}

/// The content type of one half of an interaction.
pub fn content_type_of(headers: &Option<Dict<String, Vec<String>>>, body: &OptionalBody) -> (r:
    ContentType)
    ensures
        r@ == declared_content_type(headers.deep_view(), body@),
{
    match body.content_type() {
        Some(content_type) => content_type,
        None => {
            if contains_name(headers, "Content-Type") {
                let stated = join_values(&lookup_values(headers, "Content-Type"));
                match ContentType::parse(stated.as_str()) {
                    Some(content_type) => content_type,
                    None => ContentType::default(),
                }
            } else {
                ContentType::default()
            }
        },
    }
}

fn set_body(
    headers: &mut Option<Dict<String, Vec<String>>>,
    slot: &mut OptionalBody,
    rules: &mut MatchingRules,
    generators: &mut Generators,
    content_type: &str,
    body: &str,
)
    ensures
        ({
            let stated = if has_name(old(headers).deep_view(), content_type_header()) {
                old(headers).deep_view()
            } else {
                with_values(old(headers).deep_view(), content_type_header(), seq![content_type@])
            };
            let w = text_body(
                declared_content_type(stated, old(slot)@),
                body@,
                old(rules)@,
                old(generators)@,
            );
            &&& final(headers).deep_view() == stated
            &&& final(slot)@ == w.value
            &&& final(rules)@ == w.rules
            &&& final(generators)@ == w.generators
        }),
{
    if !contains_name(headers, "Content-Type") {
        let mut values: Vec<String> = Vec::new();
        values.push(content_type.to_owned());
        assert(values.deep_view() =~= seq![content_type@]);
        put_values(headers, "Content-Type", values);
    }
    let declared = content_type_of(headers, slot);
    if body.unicode_len() == 0 {
        *slot = OptionalBody::Empty;
    } else if declared.is_json() {
        let text = process_json(body, rules, generators);
        *slot = OptionalBody::Present(text.as_str().as_bytes_vec(), Some(ContentType::json()), None);
    } else if declared.is_xml() {
        let bytes = match process_xml(body, rules, generators) {
            Ok(bytes) => bytes,
            Err(_) => Vec::new(),
        };
        *slot = OptionalBody::Present(bytes, Some(ContentType::xml()), None);
    } else {
        *slot = OptionalBody::from(body);
    }
}

fn multipart_header_matcher() -> (r: MatchingRule)
    ensures
        r@ == multipart_header_rule(),
{
    let mut attributes: Vec<JsonField> = Vec::new();
    attributes.push(
        JsonField {
            name: "regex".to_owned(),
            value: Json::string("multipart/form-data;(\\s*charset=[^;]*;)?\\s*boundary=.*"),
        },
    );
    let r = MatchingRule { kind: "regex".to_owned(), attributes };
    assert(r@.attributes =~= multipart_header_rule().attributes);
    r
}

fn set_multipart(
    headers: &mut Option<Dict<String, Vec<String>>>,
    slot: &mut OptionalBody,
    rules: &mut MatchingRules,
    multipart: &MultipartBody,
    content_type: &str,
    part_name: &str,
)
    ensures
        final(headers).deep_view() == with_values(
            old(headers).deep_view(),
            content_type_header(),
            seq!["multipart/form-data; boundary="@ + multipart.boundary@],
        ),
        final(slot)@ == multipart.body@,
        final(rules)@ == old(rules)@.with_rule(
            Category::Body,
            seq![PathSegment::Root, PathSegment::Field(part_name@)],
            content_type_rule(content_type@),
            RuleLogic::And,
        ).with_rule(
            Category::Header,
            seq![PathSegment::Root, PathSegment::Field(content_type_header())],
            multipart_header_rule(),
            RuleLogic::And,
        ),
{
    *slot = multipart.body.clone();
    let mut stated: String = "multipart/form-data; boundary=".to_owned();
    stated.append(multipart.boundary.as_str());
    let mut values: Vec<String> = Vec::new();
    values.push(stated);
    assert(values.deep_view() =~= seq!["multipart/form-data; boundary="@ + multipart.boundary@]);
    put_values(headers, "Content-Type", values);
    let mut part_path = DocPath::root();
    part_path.push_field(part_name);
    assert(part_path@ =~= seq![PathSegment::Root, PathSegment::Field(part_name@)]);
    rules.add_rule(Category::Body, part_path, content_type_matcher(content_type), RuleLogic::And);
    let mut header_path = DocPath::root();
    header_path.push_field("Content-Type");
    assert(header_path@ =~= seq![PathSegment::Root, PathSegment::Field(content_type_header())]);
    rules.add_rule(Category::Header, header_path, multipart_header_matcher(), RuleLogic::And);
}

fn default_binary_header(headers: &mut Option<Dict<String, Vec<String>>>)
    ensures
        final(headers).deep_view() == (if has_name(old(headers).deep_view(), content_type_header()) {
            old(headers).deep_view()
        } else {
            with_values(
                old(headers).deep_view(),
                content_type_header(),
                seq!["application/octet-stream"@],
            )
        }),
{
    if !contains_name(headers, "Content-Type") {
        let mut values: Vec<String> = Vec::new();
        values.push("application/octet-stream".to_owned());
        assert(values.deep_view() =~= seq!["application/octet-stream"@]);
        put_values(headers, "Content-Type", values);
    }
}

impl SynchronousHttp {
    /// Sets the method and the path of the request.
    pub fn set_request(&mut self, method: &str, path: &str)
        ensures
            final(self)@ == old(self)@.with_request(method@, path@),
    {
        let path = from_integration_json(
            &mut self.request.matching_rules,
            &mut self.request.generators,
            path,
            DocPath::empty(),
            Category::Path,
        );
        self.request.method = method.to_owned();
        self.request.path = path;
    }

    /// Sets one value of a query parameter.
    pub fn set_query_parameter(&mut self, name: &str, index: usize, value: &str)
        ensures
            final(self)@ == old(self)@.with_query_parameter(name@, index as nat, value@),
    {
        let mut path = DocPath::root();
        path.push_field(name);
        path.push_index(index);
        assert(path@ =~= seq![
            PathSegment::Root,
            PathSegment::Field(name@),
            PathSegment::Index(index as nat),
        ]);
        let text = from_integration_json(
            &mut self.request.matching_rules,
            &mut self.request.generators,
            value,
            path,
            Category::Query,
        );
        set_value(&mut self.request.query, name, index, text);
    }

    /// Sets one value of a header of one half.
    pub fn set_header(&mut self, part: InteractionPart, name: &str, index: usize, value: &str)
        ensures
            final(self)@ == old(self)@.with_header(part, name@, index as nat, value@),
    {
        let mut path = DocPath::root();
        path.push_field(name);
        assert(path@ =~= seq![PathSegment::Root, PathSegment::Field(name@)]);
        match part {
            InteractionPart::Request => {
                let text = from_integration_json(
                    &mut self.request.matching_rules,
                    &mut self.request.generators,
                    value,
                    path,
                    Category::Header,
                );
                set_value(&mut self.request.headers, name, index, text);
            },
            InteractionPart::Response => {
                let text = from_integration_json(
                    &mut self.response.matching_rules,
                    &mut self.response.generators,
                    value,
                    path,
                    Category::Header,
                );
                set_value(&mut self.response.headers, name, index, text);
            },
        }
    }

    /// Sets the body of one half from a text.
    pub fn set_body(&mut self, part: InteractionPart, content_type: &str, body: &str)
        ensures
            final(self)@ == old(self)@.with_body(part, content_type@, body@),
    {
        match part {
            InteractionPart::Request => set_body(
                &mut self.request.headers,
                &mut self.request.body,
                &mut self.request.matching_rules,
                &mut self.request.generators,
                content_type,
                body,
            ),
            InteractionPart::Response => set_body(
                &mut self.response.headers,
                &mut self.response.body,
                &mut self.response.matching_rules,
                &mut self.response.generators,
                content_type,
                body,
            ),
        }
    }

    /// Sets a binary body of one half, matched by its content type.
    pub fn set_binary_file(
        &mut self,
        part: InteractionPart,
        content_type: &str,
        body: Option<&[u8]>,
    )
        ensures
            final(self)@ == old(self)@.with_binary_file(
                part,
                content_type@,
                match body {
                    Some(b) => Some(b@),
                    None => None,
                },
            ),
    {
        match part {
            InteractionPart::Request => {
                self.request.body = OptionalBody::from_bytes(body);
                default_binary_header(&mut self.request.headers);
                self.request.matching_rules.add_rule(
                    Category::Body,
                    DocPath::root(),
                    content_type_matcher(content_type),
                    RuleLogic::And,
                );
            },
            InteractionPart::Response => {
                self.response.body = OptionalBody::from_bytes(body);
                default_binary_header(&mut self.response.headers);
                self.response.matching_rules.add_rule(
                    Category::Body,
                    DocPath::root(),
                    content_type_matcher(content_type),
                    RuleLogic::And,
                );
            },
        }
    }

    /// Sets a multipart body of one half.
    pub fn set_multipart(
        &mut self,
        part: InteractionPart,
        multipart: &MultipartBody,
        content_type: &str,
        part_name: &str,
    )
        ensures
            final(self)@ == old(self)@.with_multipart(
                part,
                multipart.boundary@,
                multipart.body@,
                content_type@,
                part_name@,
            ),
    {
        match part {
            InteractionPart::Request => set_multipart(
                &mut self.request.headers,
                &mut self.request.body,
                &mut self.request.matching_rules,
                multipart,
                content_type,
                part_name,
            ),
            InteractionPart::Response => set_multipart(
                &mut self.response.headers,
                &mut self.response.body,
                &mut self.response.matching_rules,
                multipart,
                content_type,
                part_name,
            ),
        }
    }

    /// Applies an edit.
    pub fn apply(&mut self, edit: HttpEdit<'_>)
        ensures
            final(self)@ == old(self)@.edited(edit),
    {
        match edit {
            HttpEdit::Request { method, path } => self.set_request(method, path),
            HttpEdit::Query { name, index, value } => self.set_query_parameter(name, index, value),
            HttpEdit::Header { part, name, index, value } => self.set_header(
                part,
                name,
                index,
                value,
            ),
            HttpEdit::Status(status) => {
                self.response.status = status;
            },
            HttpEdit::Body { part, content_type, body } => self.set_body(part, content_type, body),
            HttpEdit::BinaryFile { part, content_type, bytes } => self.set_binary_file(
                part,
                content_type,
                bytes,
            ),
            HttpEdit::Multipart { part, multipart, content_type, part_name } => self.set_multipart(
                part,
                multipart,
                content_type,
                part_name,
            ),
        }
    }
}

/// Applies an edit to the HTTP interaction of a handle, and reports whether
/// the document was still a draft. Where the handle resolves to no HTTP
/// interaction, nothing changes and the report is `false`.
pub fn edit_http(registry: &mut HandleRegistry, interaction: InteractionHandle, edit: HttpEdit<'_>) -> (ok:
    bool)
    ensures
        http_updated(
            old(registry)@,
            final(registry)@,
            ok,
            interaction,
            http_at(old(registry)@, interaction).edited(edit),
        ),
{
    let (document, position) = interaction.parts();
    match registry.checkout(document, position) {
        None => false,
        Some((mut taken, place)) => {
            let started = taken.mock_server_started;
            let ghost before = taken@;
            let ghost items = taken.pact.interactions@;
            let ghost changed = InteractionModel::Http(
                http_at(old(registry)@, interaction).edited(edit),
            );
            let ok = match &mut taken.pact.interactions[place] {
                Interaction::Http(http) => {
                    http.apply(edit);
                    !started
                },
                _ => false,
            };
            proof {
                assert(before.pact.interactions[place as int] == items[place as int]@);
                if before.pact.interactions[place as int] is Http {
                    assert(taken@.pact.interactions =~= before.pact.interactions.update(
                        place as int,
                        changed,
                    ));
                } else {
                    assert(taken@.pact.interactions =~= before.pact.interactions);
                }
            }
            registry.put(document, taken);
            proof {
                if before.pact.interactions[place as int] is Http {
                    assert(registry@ =~= registry_with(
                        old(registry)@,
                        document,
                        position,
                        changed,
                    ));
                } else {
                    assert(registry@ =~= old(registry)@);
                }
            }
            ok
        },
    }
}

/// Sets the method and the path of the request of an HTTP interaction.
///
/// A missing method counts as `GET`, a missing path as `/`. The path may be
/// written as an annotation; its example becomes the path and what it
/// declares is filed in the path category.
pub fn pactffi_with_request(
    registry: &mut HandleRegistry,
    interaction: InteractionHandle,
    method: Option<&str>,
    path: Option<&str>,
) -> (ok: bool)
    ensures
        http_updated(
            old(registry)@,
            final(registry)@,
            ok,
            interaction,
            http_at(old(registry)@, interaction).with_request(
                given_or(method, "GET"@),
                given_or(path, "/"@),
            ),
        ),
{
    let method = read_or(method, "GET");
    let path = read_or(path, "/");
    edit_http(registry, interaction, HttpEdit::Request { method, path })
}

/// Sets one value of a query parameter of an HTTP interaction.
///
/// The value may be written as an annotation; its example becomes the value
/// and what it declares is filed under the parameter's name and the index.
/// `index` says which of the values of the parameter is set: the list grows
/// to hold it, empty texts filling the gaps. A missing value counts as
/// empty. Without a name nothing is set.
pub fn pactffi_with_query_parameter(
    registry: &mut HandleRegistry,
    interaction: InteractionHandle,
    name: Option<&str>,
    index: usize,
    value: Option<&str>,
) -> (ok: bool)
    ensures
        match given(name) {
            Some(n) => http_updated(
                old(registry)@,
                final(registry)@,
                ok,
                interaction,
                http_at(old(registry)@, interaction).with_query_parameter(
                    n,
                    index as nat,
                    given_or(value, Seq::empty()),
                ),
            ),
            None => final(registry)@ == old(registry)@ && !ok,
        },
{
    proof {
        reveal_strlit("");
        assert(""@ =~= Seq::<char>::empty());
    }
    match read(name) {
        Some(name) => {
            let value = read_or(value, "");
            edit_http(registry, interaction, HttpEdit::Query { name, index, value })
        },
        None => false,
    }
}

/// Sets one value of a header of one half of an HTTP interaction.
///
/// The value may be written as an annotation; its example becomes the value
/// and what it declares is filed under the header's name. `index` says which
/// of the values of the header is set: the list grows to hold it, empty
/// texts filling the gaps. A missing value counts as empty. Without a name
/// nothing is set.
pub fn pactffi_with_header(
    registry: &mut HandleRegistry,
    interaction: InteractionHandle,
    part: InteractionPart,
    name: Option<&str>,
    index: usize,
    value: Option<&str>,
) -> (ok: bool)
    ensures
        match given(name) {
            Some(n) => http_updated(
                old(registry)@,
                final(registry)@,
                ok,
                interaction,
                http_at(old(registry)@, interaction).with_header(
                    part,
                    n,
                    index as nat,
                    given_or(value, Seq::empty()),
                ),
            ),
            None => final(registry)@ == old(registry)@ && !ok,
        },
{
    proof {
        reveal_strlit("");
        assert(""@ =~= Seq::<char>::empty());
    }
    match read(name) {
        Some(name) => {
            let value = read_or(value, "");
            edit_http(registry, interaction, HttpEdit::Header { part, name, index, value })
        },
        None => false,
    }
}

/// Sets the status of the response of an HTTP interaction.
pub fn pactffi_response_status(
    registry: &mut HandleRegistry,
    interaction: InteractionHandle,
    status: u16,
) -> (ok: bool)
    ensures
        http_updated(
            old(registry)@,
            final(registry)@,
            ok,
            interaction,
            http_at(old(registry)@, interaction).with_status(status),
        ),
{
    edit_http(registry, interaction, HttpEdit::Status(status))
}

/// Sets the body of one half of an HTTP interaction.
///
/// A missing content type counts as `text/plain`, a missing body as the
/// empty text. The content type is only a default: a half that has a
/// content type header, or a body that carries a content type, keeps it.
/// The empty text gives the empty body, whatever the content type. A JSON
/// body may hold annotations; its plain example becomes the body and what
/// the annotations declare is filed in the body category. An XML body is
/// written from the builder document that the text holds.
pub fn pactffi_with_body(
    registry: &mut HandleRegistry,
    interaction: InteractionHandle,
    part: InteractionPart,
    content_type: Option<&str>,
    body: Option<&str>,
) -> (ok: bool)
    ensures
        http_updated(
            old(registry)@,
            final(registry)@,
            ok,
            interaction,
            http_at(old(registry)@, interaction).with_body(
                part,
                given_or(content_type, "text/plain"@),
                given_or(body, Seq::empty()),
            ),
        ),
{
    proof {
        reveal_strlit("");
        assert(""@ =~= Seq::<char>::empty());
    }
    let content_type = read_or(content_type, "text/plain");
    let body = read_or(body, "");
    edit_http(registry, interaction, HttpEdit::Body { part, content_type, body })
}

/// Sets a binary body of one half of an HTTP interaction, to be matched by
/// its content type.
///
/// `body` is the buffer, `None` where there is none. A half without a
/// content type header is given `application/octet-stream`. Without an
/// expected content type nothing is set.
pub fn pactffi_with_binary_file(
    registry: &mut HandleRegistry,
    interaction: InteractionHandle,
    part: InteractionPart,
    content_type: Option<&str>,
    body: Option<&[u8]>,
) -> (ok: bool)
    ensures
        match given(content_type) {
            Some(ct) => http_updated(
                old(registry)@,
                final(registry)@,
                ok,
                interaction,
                http_at(old(registry)@, interaction).with_binary_file(
                    part,
                    ct,
                    match body {
                        Some(b) => Some(b@),
                        None => None,
                    },
                ),
            ),
            None => final(registry)@ == old(registry)@ && !ok,
        },
{
    match read(content_type) {
        Some(content_type) => edit_http(
            registry,
            interaction,
            HttpEdit::BinaryFile { part, content_type, bytes: body },
        ),
        None => false,
    }
}

/// What setting a multipart body reports. Each failure has its message;
/// success has none.
pub open spec fn multipart_report(
    registry: RegistryModel,
    interaction: InteractionHandle,
    content_type: Option<&str>,
    multipart: Result<MultipartBody, String>,
) -> Result<(), Seq<char>> {
    if given(content_type) is None {
        Err("with_multipart_file: Content type value is not valid (NULL or non-UTF-8)"@)
    } else {
        match interaction_at(registry, interaction.document(), interaction.position()) {
            None => Err("with_multipart_file: Interaction handle is invalid"@),
            Some(found) => match multipart {
                Err(reason) => Err(
                    "with_multipart_file: failed to generate multipart body - "@ + reason@,
                ),
                Ok(_) => if !(found is Http) {
                    Err(
                        "with_multipart_file: Interaction is not an HTTP interaction, is "@
                            + found.type_of(),
                    )
                } else if registry[interaction.document()].mock_server_started {
                    Err(
                        "with_multipart_file: This Pact can not be modified, as the mock server has already started"@,
                    )
                } else {
                    Ok(())
                },
            },
        }
    }
}

/// Sets a multipart body of one half of an HTTP interaction, with one part
/// that is matched by its content type.
///
/// `multipart` is the body as it was generated from the file, or the reason
/// why it could not be. A missing name of the part counts as `file`. The
/// body is set where the handle resolves to an HTTP interaction and there
/// is a content type and a generated body; on a frozen document it is set
/// and a failure is reported all the same.
pub fn pactffi_with_multipart_file(
    registry: &mut HandleRegistry,
    interaction: InteractionHandle,
    part: InteractionPart,
    content_type: Option<&str>,
    multipart: Result<MultipartBody, String>,
    part_name: Option<&str>,
) -> (r: Result<(), String>)
    ensures
        match r {
            Ok(_) => multipart_report(old(registry)@, interaction, content_type, multipart) is Ok,
            Err(message) => multipart_report(old(registry)@, interaction, content_type, multipart)
                == Err::<(), Seq<char>>(message@),
        },
        match (given(content_type), multipart) {
            (Some(ct), Ok(generated)) => if resolves_http(old(registry)@, interaction) {
                final(registry)@ == registry_with(
                    old(registry)@,
                    interaction.document(),
                    interaction.position(),
                    InteractionModel::Http(
                        http_at(old(registry)@, interaction).with_multipart(
                            part,
                            generated.boundary@,
                            generated.body@,
                            ct,
                            given_or(part_name, "file"@),
                        ),
                    ),
                )
            } else {
                final(registry)@ == old(registry)@
            },
            _ => final(registry)@ == old(registry)@,
        },
{
    let part_name = read_or(part_name, "file");
    let content_type = match read(content_type) {
        Some(ct) => ct,
        None => {
            return Err(
                "with_multipart_file: Content type value is not valid (NULL or non-UTF-8)".to_owned(),
            );
        },
    };
    let (document, position) = interaction.parts();
    let kind = match registry.interaction(document, position) {
        Some(found) => match found {
            Interaction::Http(_) => None,
            _ => Some(found.type_of()),
        },
        None => {
            return Err("with_multipart_file: Interaction handle is invalid".to_owned());
        },
    };
    let generated = match multipart {
        Ok(generated) => generated,
        Err(reason) => {
            let mut message: String =
                "with_multipart_file: failed to generate multipart body - ".to_owned();
            message.append(reason.as_str());
            return Err(message);
        },
    };
    match kind {
        Some(name) => {
            let mut message: String =
                "with_multipart_file: Interaction is not an HTTP interaction, is ".to_owned();
            message.append(name.as_str());
            Err(message)
        },
        None => {
            let ok = edit_http(
                registry,
                interaction,
                HttpEdit::Multipart { part, multipart: &generated, content_type, part_name },
            );
            if ok {
                Ok(())
            } else {
                Err(
                    "with_multipart_file: This Pact can not be modified, as the mock server has already started".to_owned(),
                )
            }
        },
    }
}

} // verus!

//! XML bodies, written down as JSON builder documents.
//!
//! A builder document is an object whose member `root` is an element. An
//! element is an object with a `name`, and optionally with `attributes` (an
//! object of names and values) and `children` (an array of elements and
//! texts). A text is an object with a member `content`. An attribute value
//! or a content may be written as an annotation; so may an element, as an
//! annotation whose `value` is the element. What the annotations declare is
//! filed in the body category: for an element under the names of the
//! elements from the root down, for an attribute under `@` and its name
//! below its element, for a text under `#text` below its element.
use crate::extract::{
    generators_recorded, is_annotation, matcher_key, rules_recorded, value_key, walk_object, Walked,
};
use crate::json::{
    find_member, json_parse, json_parse_error, json_text, lemma_array_view, lemma_member_index,
    lemma_object_view, member, member_index, Json, JsonField, JsonModel,
};
use crate::path::{DocPath, PathSegment};
use crate::rules::{Category, Generators, GeneratorsModel, MatchingRules, MatchingRulesModel};
use vstd::prelude::*;
use vstd::string::StringExecFns;
use vstd::string::StringSliceAdditionalSpecFns;
use vstd::utf8::encode_utf8;

verus! {

/// What a special character is written as: the five characters that XML
/// reserves become entities, every other byte stands for itself.
pub open spec fn escaped_byte(b: u8) -> Seq<u8> {
    if b == 38 {
        "&amp;".spec_bytes()
    } else if b == 60 {
        "&lt;".spec_bytes()
    } else if b == 62 {
        "&gt;".spec_bytes()
    } else if b == 34 {
        "&quot;".spec_bytes()
    } else if b == 39 {
        "&apos;".spec_bytes()
    } else {
        seq![b]
    }
}

/// A byte string with its special characters written as entities.
pub open spec fn escaped(bytes: Seq<u8>) -> Seq<u8>
    decreases bytes.len(),
{
    if bytes.len() == 0 {
        Seq::empty()
    } else {
        escaped(bytes.drop_last()) + escaped_byte(bytes.last())
    }
}

/// The member that names an element.
pub open spec fn name_key() -> Seq<char> {
    "name"@
}

/// The member that holds the attributes of an element.
pub open spec fn attributes_key() -> Seq<char> {
    "attributes"@
}

/// The member that holds the children of an element.
pub open spec fn children_key() -> Seq<char> {
    "children"@
}

/// The member that holds the content of a text.
pub open spec fn content_key() -> Seq<char> {
    "content"@
}

/// The member that holds the root element of a document.
pub open spec fn root_key() -> Seq<char> {
    "root"@
}

/// The line that every document starts with.
pub open spec fn declaration() -> Seq<u8> {
    "<?xml version=\"1.0\"?>".spec_bytes()
}

/// The name of an element: what its member `name` says, or nothing.
pub open spec fn element_name(fields: Seq<(Seq<char>, JsonModel)>) -> Seq<char> {
    match member(fields, name_key()) {
        Some(name) => Json::plain_text(name),
        None => Seq::empty(),
    }
}

/// The text that a value stands for: an annotation files what it declares
/// at `path` and gives its example; the text of a value is its plain text.
pub open spec fn xml_value(
    value: JsonModel,
    rules: MatchingRulesModel,
    generators: GeneratorsModel,
    path: Seq<PathSegment>,
) -> Walked<Seq<char>> {
    match value {
        JsonModel::Object(fields) => {
            let w = walk_object(fields, Category::Body, rules, generators, path, false, false);
            Walked { value: Json::plain_text(w.value), rules: w.rules, generators: w.generators }
        },
        _ => Walked { value: Json::plain_text(value), rules, generators },
    }
}

/// The first `n` attributes of an element at `path`, as they are written in
/// its opening tag.
pub open spec fn xml_attributes(
    attributes: Seq<(Seq<char>, JsonModel)>,
    n: nat,
    rules: MatchingRulesModel,
    generators: GeneratorsModel,
    path: Seq<PathSegment>,
) -> Walked<Seq<u8>>
    decreases n,
{
    if n == 0 || n > attributes.len() {
        Walked { value: Seq::empty(), rules, generators }
    } else {
        let before = xml_attributes(attributes, (n - 1) as nat, rules, generators, path);
        let last = attributes[n - 1];
        let w = xml_value(
            last.1,
            before.rules,
            before.generators,
            path.push(PathSegment::Field("@"@ + last.0)),
        );
        Walked {
            value: before.value + " ".spec_bytes() + encode_utf8(last.0) + "=\"".spec_bytes()
                + escaped(encode_utf8(w.value)) + "\"".spec_bytes(),
            rules: w.rules,
            generators: w.generators,
        }
    }
}

/// A node below the element at `parent`, as it is written: an element, a
/// text, or nothing where the node is neither.
pub open spec fn xml_node(
    node: JsonModel,
    rules: MatchingRulesModel,
    generators: GeneratorsModel,
    parent: Seq<PathSegment>,
) -> Walked<Seq<u8>>
    decreases node, 0nat,
{
    match node {
        JsonModel::Object(fields) => {
            if is_annotation(fields) {
                match member_index(fields, value_key()) {
                    Some(i) => if 0 <= i < fields.len() && fields[i].1 is Object {
                        let inner = fields[i].1->Object_0;
                        let path = parent.push(PathSegment::Field(element_name(inner)));
                        xml_element(
                            inner,
                            rules_recorded(fields, Category::Body, rules, path, false),
                            generators_recorded(fields, Category::Body, generators, path, false),
                            parent,
                        )
                    } else {
                        Walked { value: Seq::empty(), rules, generators }
                    },
                    None => Walked { value: Seq::empty(), rules, generators },
                }
            } else if member(fields, content_key()) is Some {
                let w = xml_value(
                    member(fields, content_key()).unwrap(),
                    rules,
                    generators,
                    parent.push(PathSegment::Field("#text"@)),
                );
                Walked {
                    value: escaped(encode_utf8(w.value)),
                    rules: w.rules,
                    generators: w.generators,
                }
            } else if member(fields, name_key()) is Some {
                xml_element(fields, rules, generators, parent)
            } else {
                Walked { value: Seq::empty(), rules, generators }
            }
        },
        _ => Walked { value: Seq::empty(), rules, generators },
    }
}

/// An element below `parent`, as it is written: its tag with its
/// attributes, and its children between the tag and its closing tag. An
/// element without children is closed in its tag.
pub open spec fn xml_element(
    fields: Seq<(Seq<char>, JsonModel)>,
    rules: MatchingRulesModel,
    generators: GeneratorsModel,
    parent: Seq<PathSegment>,
) -> Walked<Seq<u8>>
    decreases fields, fields.len() + 1,
{
    let name = element_name(fields);
    let path = parent.push(PathSegment::Field(name));
    let a = match member(fields, attributes_key()) {
        Some(JsonModel::Object(attributes)) => xml_attributes(
            attributes,
            attributes.len(),
            rules,
            generators,
            path,
        ),
        _ => Walked { value: Seq::empty(), rules, generators },
    };
    let c = match member_index(fields, children_key()) {
        Some(i) => if 0 <= i < fields.len() && fields[i].1 is Array {
            xml_children(
                fields[i].1->Array_0,
                fields[i].1->Array_0.len(),
                a.rules,
                a.generators,
                path,
            )
        } else {
            Walked { value: Seq::empty(), rules: a.rules, generators: a.generators }
        },
        None => Walked { value: Seq::empty(), rules: a.rules, generators: a.generators },
    };
    Walked {
        value: "<".spec_bytes() + encode_utf8(name) + a.value + (if c.value.len() == 0 {
            "/>".spec_bytes()
        } else {
            ">".spec_bytes() + c.value + "</".spec_bytes() + encode_utf8(name) + ">".spec_bytes()
        }),
        rules: c.rules,
        generators: c.generators,
    }
}

/// The first `n` children of the element at `path`, as they are written.
pub open spec fn xml_children(
    children: Seq<JsonModel>,
    n: nat,
    rules: MatchingRulesModel,
    generators: GeneratorsModel,
    path: Seq<PathSegment>,
) -> Walked<Seq<u8>>
    decreases children, n,
{
    if n == 0 || n > children.len() {
        Walked { value: Seq::empty(), rules, generators }
    } else {
        let before = xml_children(children, (n - 1) as nat, rules, generators, path);
        let w = xml_node(children[n - 1], before.rules, before.generators, path);
        Walked { value: before.value + w.value, rules: w.rules, generators: w.generators }
    }
}

/// The document that a builder document stands for: the declaration, and
/// the root element where the builder has one.
pub open spec fn xml_document(
    fields: Seq<(Seq<char>, JsonModel)>,
    rules: MatchingRulesModel,
    generators: GeneratorsModel,
) -> Walked<Seq<u8>> {
    match member(fields, root_key()) {
        Some(root) => {
            let w = xml_node(root, rules, generators, seq![PathSegment::Root]);
            Walked { value: declaration() + w.value, rules: w.rules, generators: w.generators }
        },
        None => Walked { value: declaration(), rules, generators },
    }
}

/// What a builder text comes to: the bytes of the document, or a message
/// that says why there is none. A text that is no JSON, or no JSON object,
/// gives a message and files nothing.
pub open spec fn xml_walk(
    body: Seq<char>,
    rules: MatchingRulesModel,
    generators: GeneratorsModel,
) -> Walked<Result<Seq<u8>, Seq<char>>> {
    match json_parse(body) {
        Some(JsonModel::Object(fields)) => {
            let w = xml_document(fields, rules, generators);
            Walked { value: Ok(w.value), rules: w.rules, generators: w.generators }
        },
        Some(other) => Walked {
            value: Err(
                "JSON document is invalid (expected an Object), have "@ + json_text(other),
            ),
            rules,
            generators,
        },
        None => Walked {
            value: Err("Failed to parse XML builder document: "@ + json_parse_error(body)),
            rules,
            generators,
        },
    }
}

fn push_text(out: &mut Vec<u8>, text: &str)
    ensures
        final(out)@ == old(out)@ + text.spec_bytes(),
{
    out.extend_from_slice(text.as_bytes());
}

fn push_all(out: &mut Vec<u8>, bytes: &Vec<u8>)
    ensures
        final(out)@ == old(out)@ + bytes@,
{
    out.extend_from_slice(bytes.as_slice());
}

fn push_escaped(out: &mut Vec<u8>, text: &str)
    ensures
        final(out)@ == old(out)@ + escaped(text.spec_bytes()),
{
    let bytes = text.as_bytes();
    let ghost start = out@;
    let mut i: usize = 0;
    assert(bytes@.take(0) =~= Seq::<u8>::empty());
    assert(out@ =~= start + escaped(bytes@.take(0)));
    while i < bytes.len()
        invariant
            i <= bytes.len(),
            bytes@ == text.spec_bytes(),
            out@ == start + escaped(bytes@.take(i as int)),
        decreases bytes.len() - i,
    {
        let b = bytes[i];
        let ghost before = out@;
        proof {
            assert(bytes@.take(i + 1).drop_last() =~= bytes@.take(i as int));
            assert(bytes@.take(i + 1).last() == b);
        }
        if b == 38 {
            push_text(out, "&amp;");
        } else if b == 60 {
            push_text(out, "&lt;");
        } else if b == 62 {
            push_text(out, "&gt;");
        } else if b == 34 {
            push_text(out, "&quot;");
        } else if b == 39 {
            push_text(out, "&apos;");
        } else {
            out.push(b);
            assert(out@ =~= before + seq![b]);
        }
        assert(out@ =~= start + escaped(bytes@.take(i + 1)));
        i += 1;
    }
    assert(bytes@.take(i as int) =~= bytes@);
}

fn value_text(value: &Json, rules: &mut MatchingRules, generators: &mut Generators, path: DocPath) -> (r:
    String)
    ensures
        ({
            let w = xml_value(value@, old(rules)@, old(generators)@, path@);
            &&& r@ == w.value
            &&& final(rules)@ == w.rules
            &&& final(generators)@ == w.generators
        }),
{
    match value {
        Json::Object(fields) => {
            proof {
                lemma_object_view(*fields);
            }
            crate::extract::process_object(
                fields,
                Category::Body,
                rules,
                generators,
                path,
                false,
                false,
            ).to_plain_text()
        },
        _ => value.to_plain_text(),
    }
}

fn name_of(fields: &Vec<JsonField>) -> (r: String)
    ensures
        r@ == element_name(fields.deep_view()),
{
    proof {
        lemma_member_index(fields.deep_view(), name_key());
    }
    match find_member(fields, "name") {
        Some(i) => {
            assert(fields.deep_view()[i as int].1 == fields@[i as int].value@);
            fields[i].value.to_plain_text()
        },
        None => String::new(),
    }
}

fn write_attributes(
    attributes: &Vec<JsonField>,
    rules: &mut MatchingRules,
    generators: &mut Generators,
    path: &DocPath,
    out: &mut Vec<u8>,
)
    ensures
        ({
            let w = xml_attributes(
                attributes.deep_view(),
                attributes@.len(),
                old(rules)@,
                old(generators)@,
                path@,
            );
            &&& final(out)@ == old(out)@ + w.value
            &&& final(rules)@ == w.rules
            &&& final(generators)@ == w.generators
        }),
{
    let ghost all = attributes.deep_view();
    let ghost rules0 = rules@;
    let ghost generators0 = generators@;
    let ghost start = out@;
    let mut i: usize = 0;
    assert(out@ =~= start + Seq::<u8>::empty());
    while i < attributes.len()
        invariant
            i <= attributes.len(),
            all == attributes.deep_view(),
            ({
                let w = xml_attributes(all, i as nat, rules0, generators0, path@);
                &&& out@ == start + w.value
                &&& rules@ == w.rules
                &&& generators@ == w.generators
            }),
        decreases attributes.len() - i,
    {
        let attribute = &attributes[i];
        assert(all[i as int] == (attribute.name@, attribute.value@));
        let mut place = path.clone();
        let mut marked: String = "@".to_owned();
        marked.append(attribute.name.as_str());
        place.push_field(marked.as_str());
        let text = value_text(&attribute.value, rules, generators, place);
        let ghost before = out@;
        push_text(out, " ");
        push_text(out, attribute.name.as_str());
        push_text(out, "=\"");
        push_escaped(out, text.as_str());
        push_text(out, "\"");
        assert(out@ =~= before + " ".spec_bytes() + encode_utf8(attribute.name@) + "=\"".spec_bytes()
            + escaped(encode_utf8(text@)) + "\"".spec_bytes());
        assert(out@ =~= start + xml_attributes(
            all,
            (i + 1) as nat,
            rules0,
            generators0,
            path@,
        ).value);
        i += 1;
    }
}

fn write_node(
    node: &Json,
    rules: &mut MatchingRules,
    generators: &mut Generators,
    parent: &DocPath,
    out: &mut Vec<u8>,
)
    ensures
        ({
            let w = xml_node(node@, old(rules)@, old(generators)@, parent@);
            &&& final(out)@ == old(out)@ + w.value
            &&& final(rules)@ == w.rules
            &&& final(generators)@ == w.generators
        }),
    decreases node, 0nat,
{
    let ghost start = out@;
    match node {
        Json::Object(fields) => {
            let ghost all = fields.deep_view();
            proof {
                lemma_object_view(*fields);
                lemma_member_index(all, matcher_key());
                lemma_member_index(all, value_key());
                lemma_member_index(all, content_key());
                lemma_member_index(all, name_key());
            }
            if find_member(fields, "pact:matcher:type").is_some() {
                match find_member(fields, "value") {
                    Some(i) => {
                        assert(all[i as int].1 == fields@[i as int].value@);
                        match &fields[i].value {
                            Json::Object(inner) => {
                                proof {
                                    lemma_object_view(*inner);
                                }
                                let mut path = parent.clone();
                                path.push_field(name_of(inner).as_str());
                                crate::extract::record_annotation(
                                    fields,
                                    Category::Body,
                                    rules,
                                    generators,
                                    &path,
                                );
                                assert(decreases_to!(*fields => fields[i as int]));
                                write_element(inner, rules, generators, parent, out);
                            },
                            _ => {
                                assert(out@ =~= start + Seq::<u8>::empty());
                            },
                        }
                    },
                    None => {
                        assert(out@ =~= start + Seq::<u8>::empty());
                    },
                }
            } else {
                match find_member(fields, "content") {
                    Some(i) => {
                        assert(all[i as int].1 == fields@[i as int].value@);
                        let mut path = parent.clone();
                        path.push_field("#text");
                        let text = value_text(&fields[i].value, rules, generators, path);
                        push_escaped(out, text.as_str());
                    },
                    None => {
                        if find_member(fields, "name").is_some() {
                            write_element(fields, rules, generators, parent, out);
                        } else {
                            assert(out@ =~= start + Seq::<u8>::empty());
                        }
                    },
                }
            }
        },
        _ => {
            assert(out@ =~= start + Seq::<u8>::empty());
        },
    }
}

fn write_children(
    children: &Vec<Json>,
    rules: &mut MatchingRules,
    generators: &mut Generators,
    path: &DocPath,
    out: &mut Vec<u8>,
)
    ensures
        ({
            let w = xml_children(
                children.deep_view(),
                children@.len(),
                old(rules)@,
                old(generators)@,
                path@,
            );
            &&& final(out)@ == old(out)@ + w.value
            &&& final(rules)@ == w.rules
            &&& final(generators)@ == w.generators
        }),
    decreases children, 0nat,
{
    let ghost items = children.deep_view();
    let ghost start = out@;
    let ghost rules0 = rules@;
    let ghost generators0 = generators@;
    let mut k: usize = 0;
    assert(out@ =~= start + Seq::<u8>::empty());
    while k < children.len()
        invariant
            k <= children.len(),
            items == children.deep_view(),
            ({
                let w = xml_children(items, k as nat, rules0, generators0, path@);
                &&& out@ == start + w.value
                &&& rules@ == w.rules
                &&& generators@ == w.generators
            }),
        decreases children.len() - k,
    {
        assert(items[k as int] == children@[k as int]@);
        assert(decreases_to!(*children => children[k as int]));
        let ghost before = xml_children(items, k as nat, rules0, generators0, path@);
        let ghost step = xml_node(items[k as int], before.rules, before.generators, path@);
        write_node(&children[k], rules, generators, path, out);
        assert(out@ =~= start + (before.value + step.value));
        k += 1;
    }
}

fn write_tag(
    fields: &Vec<JsonField>,
    rules: &mut MatchingRules,
    generators: &mut Generators,
    path: &DocPath,
    out: &mut Vec<u8>,
)
    ensures
        ({
            let w = match member(fields.deep_view(), attributes_key()) {
                Some(JsonModel::Object(attributes)) => xml_attributes(
                    attributes,
                    attributes.len(),
                    old(rules)@,
                    old(generators)@,
                    path@,
                ),
                _ => Walked {
                    value: Seq::empty(),
                    rules: old(rules)@,
                    generators: old(generators)@,
                },
            };
            &&& final(out)@ == old(out)@ + w.value
            &&& final(rules)@ == w.rules
            &&& final(generators)@ == w.generators
        }),
{
    let ghost all = fields.deep_view();
    let ghost start = out@;
    proof {
        lemma_member_index(all, attributes_key());
    }
    match find_member(fields, "attributes") {
        Some(i) => {
            assert(all[i as int].1 == fields@[i as int].value@);
            match &fields[i].value {
                Json::Object(attributes) => {
                    proof {
                        lemma_object_view(*attributes);
                    }
                    write_attributes(attributes, rules, generators, path, out);
                },
                _ => {
                    assert(out@ =~= start + Seq::<u8>::empty());
                },
            }
        },
        None => {
            assert(out@ =~= start + Seq::<u8>::empty());
        },
    }
}

fn write_inside(
    fields: &Vec<JsonField>,
    rules: &mut MatchingRules,
    generators: &mut Generators,
    path: &DocPath,
) -> (inside: Vec<u8>)
    ensures
        ({
            let all = fields.deep_view();
            let w = match member_index(all, children_key()) {
                Some(i) => if 0 <= i < all.len() && all[i].1 is Array {
                    xml_children(
                        all[i].1->Array_0,
                        all[i].1->Array_0.len(),
                        old(rules)@,
                        old(generators)@,
                        path@,
                    )
                } else {
                    Walked {
                        value: Seq::empty(),
                        rules: old(rules)@,
                        generators: old(generators)@,
                    }
                },
                None => Walked {
                    value: Seq::empty(),
                    rules: old(rules)@,
                    generators: old(generators)@,
                },
            };
            &&& inside@ == w.value
            &&& final(rules)@ == w.rules
            &&& final(generators)@ == w.generators
        }),
    decreases fields, 0nat,
{
    let ghost all = fields.deep_view();
    proof {
        lemma_member_index(all, children_key());
    }
    let mut inside: Vec<u8> = Vec::new();
    match find_member(fields, "children") {
        Some(i) => {
            assert(all[i as int].1 == fields@[i as int].value@);
            match &fields[i].value {
                Json::Array(children) => {
                    proof {
                        lemma_array_view(*children);
                    }
                    assert(decreases_to!(*fields => fields[i as int]));
                    assert(fields[i as int].value->Array_0 == *children);
                    assert(decreases_to!(fields[i as int].value => fields[i as int].value->Array_0));
                    write_children(children, rules, generators, path, &mut inside);
                    assert(inside@ =~= xml_children(
                        children.deep_view(),
                        children@.len(),
                        old(rules)@,
                        old(generators)@,
                        path@,
                    ).value);
                },
                _ => {},
            }
        },
        None => {},
    }
    inside
}

fn write_element(
    fields: &Vec<JsonField>,
    rules: &mut MatchingRules,
    generators: &mut Generators,
    parent: &DocPath,
    out: &mut Vec<u8>,
)
    ensures
        ({
            let w = xml_element(fields.deep_view(), old(rules)@, old(generators)@, parent@);
            &&& final(out)@ == old(out)@ + w.value
            &&& final(rules)@ == w.rules
            &&& final(generators)@ == w.generators
        }),
    decreases fields, 1nat,
{
    let ghost all = fields.deep_view();
    let ghost start = out@;
    let ghost rules0 = rules@;
    let ghost generators0 = generators@;
    let name = name_of(fields);
    let mut path = parent.clone();
    path.push_field(name.as_str());
    let mut tag: Vec<u8> = Vec::new();
    write_tag(fields, rules, generators, &path, &mut tag);
    assert(tag@ =~= Seq::<u8>::empty() + tag@);
    let inside = write_inside(fields, rules, generators, &path);
    push_text(out, "<");
    push_text(out, name.as_str());
    push_all(out, &tag);
    if inside.len() == 0 {
        push_text(out, "/>");
        assert(out@ =~= start + ("<".spec_bytes() + encode_utf8(name@) + tag@ + "/>".spec_bytes()));
    } else {
        push_text(out, ">");
        push_all(out, &inside);
        push_text(out, "</");
        push_text(out, name.as_str());
        push_text(out, ">");
        assert(out@ =~= start + ("<".spec_bytes() + encode_utf8(name@) + tag@ + (">".spec_bytes()
            + inside@ + "</".spec_bytes() + encode_utf8(name@) + ">".spec_bytes())));
    }
}

/// Writes the XML document that a builder text stands for, and files what
/// its annotations declare in the body category. A text that is no JSON
/// object gives a message instead, and files nothing.
pub fn process_xml(body: &str, rules: &mut MatchingRules, generators: &mut Generators) -> (r:
    Result<Vec<u8>, String>)
    ensures
        ({
            let w = xml_walk(body@, old(rules)@, old(generators)@);
            &&& final(rules)@ == w.rules
            &&& final(generators)@ == w.generators
            &&& match r {
                Ok(bytes) => w.value == Ok::<Seq<u8>, Seq<char>>(bytes@),
                Err(message) => w.value == Err::<Seq<u8>, Seq<char>>(message@),
            }
        }),
{
    match Json::parse_or_message(body) {
        Ok(Json::Object(fields)) => {
            proof {
                lemma_object_view(fields);
                lemma_member_index(fields.deep_view(), root_key());
            }
            let mut out: Vec<u8> = Vec::new();
            push_text(&mut out, "<?xml version=\"1.0\"?>");
            match find_member(&fields, "root") {
                Some(i) => {
                    assert(fields.deep_view()[i as int].1 == fields@[i as int].value@);
                    write_node(&fields[i].value, rules, generators, &DocPath::root(), &mut out);
                },
                None => {},
            }
            assert(out@ =~= xml_document(fields.deep_view(), old(rules)@, old(generators)@).value);
            Ok(out)
        },
        Ok(other) => {
            let mut message: String =
                "JSON document is invalid (expected an Object), have ".to_owned();
            message.append(other.to_text().as_str());
            Err(message)
        },
        Err(error) => {
            let mut message: String = "Failed to parse XML builder document: ".to_owned();
            message.append(error.as_str());
            Err(message)
        },
    }
}

} // verus!

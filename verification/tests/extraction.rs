use pact_builder::extract::{
    from_integration_json, process_array, process_json, process_object, process_value,
};
use pact_builder::json::{Json, JsonField};
use pact_builder::path::{DocPath, PathToken};
use pact_builder::rules::{Category, Generators, MatchingRules, RuleLogic};
use pact_builder::xml::process_xml;

fn fields(text: &str) -> Vec<JsonField> {
    match Json::parse(text).unwrap() {
        Json::Object(fields) => fields,
        _ => panic!("not an object"),
    }
}

fn path(tokens: Vec<PathToken>) -> DocPath {
    DocPath { tokens }
}

fn field(name: &str) -> PathToken {
    PathToken::Field(name.to_string())
}

#[test]
fn annotation_gives_its_example_and_one_rule() {
    let mut rules = MatchingRules::new();
    let mut generators = Generators::new();
    let annotated = fields("{\"pact:matcher:type\":\"type\",\"value\":7,\"min\":2}");
    let plain = process_object(
        &annotated,
        Category::Body,
        &mut rules,
        &mut generators,
        DocPath::root(),
        false,
        false,
    );
    assert_eq!(plain.to_text(), "7");
    assert_eq!(rules.count_at(Category::Body, &DocPath::root()), 1);
    let list = rules.body.get(&DocPath::root()).unwrap();
    assert_eq!(list.rules[0].kind, "type");
    assert!(list.rule_logic == RuleLogic::And);
    assert_eq!(list.rules[0].attributes.len(), 1);
    assert_eq!(list.rules[0].attributes[0].name, "min");
    assert_eq!(list.rules[0].attributes[0].value.to_text(), "2");
    assert_eq!(rules.body.len(), 1);
    assert_eq!(rules.header.len(), 0);
    assert_eq!(generators.body.len(), 0);
}

#[test]
fn json_body_is_walked_by_member_and_index() {
    let mut rules = MatchingRules::new();
    let mut generators = Generators::new();
    let body = "{\"id\":{\"pact:matcher:type\":\"integer\",\"value\":1},\"tags\":[\"a\",{\"pact:matcher:type\":\"regex\",\"regex\":\"b+\",\"value\":\"bb\"}],\"name\":\"n\"}";
    let plain = process_json(body, &mut rules, &mut generators);
    assert_eq!(plain, "{\"id\":1,\"name\":\"n\",\"tags\":[\"a\",\"bb\"]}");
    let id = path(vec![PathToken::Root, field("id")]);
    let tag = path(vec![PathToken::Root, field("tags"), PathToken::Index(1)]);
    let other = path(vec![PathToken::Root, field("tags"), PathToken::Index(0)]);
    assert_eq!(rules.count_at(Category::Body, &id), 1);
    assert_eq!(rules.count_at(Category::Body, &tag), 1);
    assert_eq!(rules.count_at(Category::Body, &other), 0);
    assert_eq!(rules.body.get(&tag).unwrap().rules[0].kind, "regex");
    assert_eq!(rules.body.len(), 2);
}

#[test]
fn body_that_is_no_json_container_stays_as_it_is() {
    let mut rules = MatchingRules::new();
    let mut generators = Generators::new();
    assert_eq!(process_json("not json {", &mut rules, &mut generators), "not json {");
    assert_eq!(process_json(" 12 ", &mut rules, &mut generators), " 12 ");
    assert_eq!(process_json("", &mut rules, &mut generators), "");
    assert_eq!(process_json("[ 1, 2 ]", &mut rules, &mut generators), "[1,2]");
    assert_eq!(rules.body.len(), 0);
}

#[test]
fn value_types_survive_the_walk() {
    let mut rules = MatchingRules::new();
    let mut generators = Generators::new();
    let body = "{\"n\":{\"pact:matcher:type\":\"number\",\"value\":1.5},\"b\":{\"pact:matcher:type\":\"boolean\",\"value\":true},\"s\":{\"pact:matcher:type\":\"type\",\"value\":\"1\"},\"z\":{\"pact:matcher:type\":\"null\"}}";
    let plain = process_json(body, &mut rules, &mut generators);
    assert_eq!(plain, "{\"b\":true,\"n\":1.5,\"s\":\"1\",\"z\":null}");
    assert_eq!(rules.body.len(), 4);
}

#[test]
fn example_of_an_annotation_hangs_under_wildcards() {
    let mut rules = MatchingRules::new();
    let mut generators = Generators::new();
    let body = "{\"items\":{\"pact:matcher:type\":\"type\",\"min\":1,\"value\":[{\"id\":{\"pact:matcher:type\":\"integer\",\"value\":3}}]}}";
    let plain = process_json(body, &mut rules, &mut generators);
    assert_eq!(plain, "{\"items\":[{\"id\":3}]}");
    let items = path(vec![PathToken::Root, field("items")]);
    let id = path(vec![PathToken::Root, field("items"), PathToken::StarIndex, field("id")]);
    assert_eq!(rules.count_at(Category::Body, &items), 1);
    assert_eq!(rules.count_at(Category::Body, &id), 1);
    assert_eq!(rules.body.len(), 2);
    let nested = fields("{\"pact:matcher:type\":\"type\",\"value\":{\"a\":{\"pact:matcher:type\":\"type\",\"value\":1}}}");
    let mut rules = MatchingRules::new();
    let plain = process_object(
        &nested,
        Category::Body,
        &mut rules,
        &mut generators,
        DocPath::root(),
        false,
        false,
    );
    assert_eq!(plain.to_text(), "{\"a\":1}");
    assert_eq!(rules.count_at(Category::Body, &path(vec![PathToken::Root, PathToken::Star])), 1);
}

#[test]
fn rules_of_one_path_keep_the_first_logic() {
    let mut rules = MatchingRules::new();
    let mut generators = Generators::new();
    let either = fields("{\"pact:matcher:type\":\"type\",\"combine\":\"OR\",\"value\":1}");
    let both = fields("{\"pact:matcher:type\":\"integer\",\"value\":1}");
    for annotated in [&either, &both] {
        process_object(
            annotated,
            Category::Query,
            &mut rules,
            &mut generators,
            DocPath::root(),
            false,
            false,
        );
    }
    let list = rules.query.get(&DocPath::root()).unwrap();
    assert_eq!(list.rules.len(), 2);
    assert!(list.rule_logic == RuleLogic::Or);
    assert_eq!(list.rules[0].kind, "type");
    assert_eq!(list.rules[0].attributes.len(), 1);
    assert_eq!(list.rules[1].kind, "integer");
    assert_eq!(rules.count_at(Category::Query, &DocPath::root()), 2);
}

#[test]
fn generator_replaces_the_generator_of_its_path() {
    let mut rules = MatchingRules::new();
    let mut generators = Generators::new();
    let first = "{\"pact:matcher:type\":\"regex\",\"regex\":\".*\",\"pact:generator:type\":\"Uuid\",\"value\":\"x\"}";
    let second = "{\"pact:matcher:type\":\"regex\",\"regex\":\".*\",\"pact:generator:type\":\"RandomString\",\"size\":4,\"value\":\"y\"}";
    let mut place = DocPath::root();
    place.push_field("X");
    assert_eq!(
        from_integration_json(&mut rules, &mut generators, first, place.clone(), Category::Header),
        "x"
    );
    assert_eq!(
        from_integration_json(&mut rules, &mut generators, second, place.clone(), Category::Header),
        "y"
    );
    assert_eq!(rules.count_at(Category::Header, &place), 2);
    assert_eq!(generators.header.len(), 1);
    let generator = generators.header.get(&place).unwrap();
    assert_eq!(generator.kind, "RandomString");
    assert_eq!(generator.attributes.len(), 2);
    assert_eq!(generators.body.len(), 0);
}

#[test]
fn scalar_that_is_no_annotation_is_literal() {
    let mut rules = MatchingRules::new();
    let mut generators = Generators::new();
    for literal in ["plain", "12", "[1,2]", "{\"a\":", "\"quoted\"", ""] {
        assert_eq!(
            from_integration_json(&mut rules, &mut generators, literal, DocPath::root(), Category::Path),
            literal
        );
    }
    assert_eq!(
        from_integration_json(&mut rules, &mut generators, "{\"a\": 1}", DocPath::root(), Category::Path),
        "{\"a\": 1}"
    );
    let nested = "{\"a\": {\"pact:matcher:type\":\"integer\",\"value\":12}}";
    assert_eq!(
        from_integration_json(&mut rules, &mut generators, nested, DocPath::root(), Category::Path),
        nested
    );
    assert_eq!(rules.path.len(), 0);
    assert_eq!(
        from_integration_json(
            &mut rules,
            &mut generators,
            "{\"pact:matcher:type\":\"integer\",\"value\":12}",
            DocPath::root(),
            Category::Path
        ),
        "12"
    );
    assert_eq!(rules.path.len(), 1);
}

#[test]
fn skipping_strips_without_filing() {
    let mut rules = MatchingRules::new();
    let mut generators = Generators::new();
    let node = Json::parse("[{\"pact:matcher:type\":\"type\",\"pact:generator:type\":\"Uuid\",\"value\":\"a\"}]").unwrap();
    let plain = process_value(&node, Category::Body, &mut rules, &mut generators, DocPath::root(), false, true);
    assert_eq!(plain.to_text(), "[\"a\"]");
    assert_eq!(rules.body.len(), 0);
    assert_eq!(generators.body.len(), 0);
    let items = match &node {
        Json::Array(items) => items,
        _ => panic!("not an array"),
    };
    let plain = process_array(items, Category::Body, &mut rules, &mut generators, DocPath::root(), true, false);
    assert_eq!(plain.to_text(), "[\"a\"]");
    assert_eq!(rules.count_at(Category::Body, &path(vec![PathToken::Root, PathToken::StarIndex])), 1);
    assert_eq!(generators.body.len(), 1);
}

#[test]
fn last_member_of_a_name_counts() {
    let mut rules = MatchingRules::new();
    let mut generators = Generators::new();
    let annotated = vec![
        JsonField { name: "value".to_string(), value: Json::string("first") },
        JsonField { name: "pact:matcher:type".to_string(), value: Json::string("type") },
        JsonField { name: "value".to_string(), value: Json::string("second") },
    ];
    let plain = process_object(&annotated, Category::Body, &mut rules, &mut generators, DocPath::root(), false, false);
    assert_eq!(plain.to_text(), "\"second\"");
}

#[test]
fn xml_document_is_written_from_its_builder() {
    let mut rules = MatchingRules::new();
    let mut generators = Generators::new();
    let builder = "{\"root\":{\"name\":\"projects\",\"attributes\":{\"id\":{\"pact:matcher:type\":\"integer\",\"value\":12},\"note\":\"a<b\"},\"children\":[{\"pact:matcher:type\":\"type\",\"value\":{\"name\":\"project\",\"children\":[{\"content\":{\"pact:matcher:type\":\"regex\",\"regex\":\".+\",\"value\":\"R&D\"}}]}},{\"name\":\"empty\"}]}}";
    let bytes = process_xml(builder, &mut rules, &mut generators).unwrap();
    assert_eq!(
        String::from_utf8(bytes).unwrap(),
        "<?xml version=\"1.0\"?><projects id=\"12\" note=\"a&lt;b\"><project>R&amp;D</project><empty/></projects>"
    );
    let id = path(vec![PathToken::Root, field("projects"), field("@id")]);
    let project = path(vec![PathToken::Root, field("projects"), field("project")]);
    let text = path(vec![PathToken::Root, field("projects"), field("project"), field("#text")]);
    assert_eq!(rules.count_at(Category::Body, &id), 1);
    assert_eq!(rules.count_at(Category::Body, &project), 1);
    assert_eq!(rules.count_at(Category::Body, &text), 1);
    assert_eq!(rules.body.len(), 3);
}

#[test]
fn xml_builder_that_is_no_object_is_an_error() {
    let mut rules = MatchingRules::new();
    let mut generators = Generators::new();
    assert_eq!(
        process_xml("[1]", &mut rules, &mut generators).unwrap_err(),
        "JSON document is invalid (expected an Object), have [1]"
    );
    let message = process_xml("<a/>", &mut rules, &mut generators).unwrap_err();
    assert!(message.starts_with("Failed to parse XML builder document: expected value"));
    assert_eq!(
        String::from_utf8(process_xml("{}", &mut rules, &mut generators).unwrap()).unwrap(),
        "<?xml version=\"1.0\"?>"
    );
    assert_eq!(
        String::from_utf8(process_xml("{\"root\":3}", &mut rules, &mut generators).unwrap()).unwrap(),
        "<?xml version=\"1.0\"?>"
    );
    assert_eq!(rules.body.len(), 0);
}

#[test]
fn path_segments() {
    let mut p = DocPath::root();
    assert!(p.is_root());
    p.push_field("a");
    p.push_index(2);
    p.push_star();
    p.push_star_index();
    assert_eq!(p.len(), 5);
    assert!(!p.is_root());
    let joined = DocPath::root().join("*");
    assert!(matches!(joined.tokens[1], PathToken::Star));
    let named = DocPath::root().join("a*");
    assert!(matches!(&named.tokens[1], PathToken::Field(n) if n == "a*"));
    assert_eq!(DocPath::empty().len(), 0);
}

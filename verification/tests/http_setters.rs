use pact_builder::builder::{
    pactffi_response_status, pactffi_with_binary_file, pactffi_with_header,
    pactffi_with_query_parameter, pactffi_with_request,
};
use pact_builder::handles::{HandleRegistry, InteractionHandle, InteractionPart, PactHandle};
use pact_builder::interactions::{
    pactffi_new_interaction, pactffi_new_message_interaction, pactffi_new_pact,
};
use pact_builder::model::{Interaction, SynchronousHttp};
use pact_builder::path::DocPath;
use pact_builder::rules::Category;

fn http<'a>(registry: &'a HandleRegistry, handle: InteractionHandle) -> &'a SynchronousHttp {
    let (document, position) = handle.parts();
    match &registry.get(document).unwrap().pact.interactions[(position - 1) as usize] {
        Interaction::Http(http) => http,
        _ => panic!("not an HTTP interaction"),
    }
}

fn texts(values: &[&str]) -> Vec<String> {
    values.iter().map(|v| v.to_string()).collect()
}

#[test]
fn header_values_grow_with_gaps() {
    let mut registry = HandleRegistry::new();
    let pact = pactffi_new_pact(&mut registry, Some("ConsumerA"), Some("ProviderB"));
    let i = pactffi_new_interaction(&mut registry, pact, Some("req1"));
    assert!(pactffi_with_header(&mut registry, i, InteractionPart::Request, Some("X-Count"), 0, Some("1")));
    assert!(pactffi_with_header(&mut registry, i, InteractionPart::Request, Some("X-Count"), 2, Some("3")));
    let headers = http(&registry, i).request.headers.as_ref().unwrap();
    assert_eq!(headers.get(&"X-Count".to_string()), Some(&texts(&["1", "", "3"])));
    assert!(http(&registry, i).response.headers.is_none());
}

#[test]
fn first_value_at_an_index_fills_the_front_with_empty_texts() {
    let mut registry = HandleRegistry::new();
    let pact = pactffi_new_pact(&mut registry, None, None);
    let i = pactffi_new_interaction(&mut registry, pact, Some("q"));
    assert!(pactffi_with_query_parameter(&mut registry, i, Some("id"), 3, Some("x")));
    let query = http(&registry, i).request.query.as_ref().unwrap();
    assert_eq!(query.get(&"id".to_string()), Some(&texts(&["", "", "", "x"])));
    assert!(pactffi_with_query_parameter(&mut registry, i, Some("id"), 1, None));
    assert!(pactffi_with_query_parameter(&mut registry, i, Some("id"), 0, Some("a")));
    let query = http(&registry, i).request.query.as_ref().unwrap();
    assert_eq!(query.get(&"id".to_string()), Some(&texts(&["a", "", "", "x"])));
}

#[test]
fn header_annotation_is_stripped_and_filed() {
    let mut registry = HandleRegistry::new();
    let pact = pactffi_new_pact(&mut registry, None, None);
    let i = pactffi_new_interaction(&mut registry, pact, Some("h"));
    let annotated = "{\"pact:matcher:type\":\"regex\",\"regex\":\"\\\\d+\",\"value\":\"42\"}";
    assert!(pactffi_with_header(&mut registry, i, InteractionPart::Response, Some("X-Id"), 0, Some(annotated)));
    let response = &http(&registry, i).response;
    assert_eq!(
        response.headers.as_ref().unwrap().get(&"X-Id".to_string()),
        Some(&texts(&["42"]))
    );
    let mut path = DocPath::root();
    path.push_field("X-Id");
    assert_eq!(response.matching_rules.count_at(Category::Header, &path), 1);
    let list = response.matching_rules.header.get(&path).unwrap();
    assert_eq!(list.rules[0].kind, "regex");
    assert_eq!(list.rules[0].attributes.len(), 1);
    assert_eq!(list.rules[0].attributes[0].name, "regex");
    assert_eq!(response.matching_rules.count_at(Category::Body, &path), 0);
}

#[test]
fn request_line_defaults_and_path_annotation() {
    let mut registry = HandleRegistry::new();
    let pact = pactffi_new_pact(&mut registry, None, None);
    let i = pactffi_new_interaction(&mut registry, pact, Some("r"));
    assert!(pactffi_with_request(&mut registry, i, None, None));
    assert_eq!(http(&registry, i).request.method, "GET");
    assert_eq!(http(&registry, i).request.path, "/");
    let annotated = "{\"pact:matcher:type\":\"regex\",\"regex\":\"/items/\\\\d+\",\"value\":\"/items/7\"}";
    assert!(pactffi_with_request(&mut registry, i, Some("PUT"), Some(annotated)));
    assert_eq!(http(&registry, i).request.method, "PUT");
    assert_eq!(http(&registry, i).request.path, "/items/7");
    assert_eq!(
        http(&registry, i).request.matching_rules.count_at(Category::Path, &DocPath::empty()),
        1
    );
}

#[test]
fn setters_refuse_what_is_no_http_interaction() {
    let mut registry = HandleRegistry::new();
    let pact = pactffi_new_pact(&mut registry, None, None);
    let message = pactffi_new_message_interaction(&mut registry, pact, Some("m"));
    assert!(!pactffi_response_status(&mut registry, message, 404));
    assert!(!pactffi_with_request(&mut registry, message, Some("POST"), Some("/")));
    assert!(!pactffi_with_header(&mut registry, message, InteractionPart::Request, Some("A"), 0, Some("b")));
    let unknown = InteractionHandle::new(PactHandle { pact_ref: 9 }, 1);
    assert!(!pactffi_response_status(&mut registry, unknown, 404));
    let beyond = InteractionHandle::new(pact, 2);
    assert!(!pactffi_response_status(&mut registry, beyond, 404));
}

#[test]
fn sentinel_handle_fails_every_setter() {
    let mut registry = HandleRegistry::new();
    let pact = pactffi_new_pact(&mut registry, None, None);
    let failed = pactffi_new_interaction(&mut registry, pact, None);
    assert_eq!(failed.parts(), (pact.pact_ref, 0));
    let empty = pactffi_new_interaction(&mut registry, pact, Some(""));
    assert_eq!(empty.parts(), (pact.pact_ref, 0));
    assert_eq!(registry.get(pact.pact_ref).unwrap().pact.interactions.len(), 0);
    assert!(!pactffi_response_status(&mut registry, failed, 201));
    assert!(!pactffi_with_request(&mut registry, failed, Some("POST"), Some("/")));
    assert!(!pactffi_with_header(&mut registry, failed, InteractionPart::Request, Some("A"), 0, Some("b")));
    assert!(!pactffi_with_query_parameter(&mut registry, failed, Some("a"), 0, Some("b")));
    assert!(!pactffi_with_binary_file(&mut registry, failed, InteractionPart::Request, Some("image/png"), Some(&[1u8, 2, 3])));
}

#[test]
fn binary_body_gets_a_content_type_rule() {
    let mut registry = HandleRegistry::new();
    let pact = pactffi_new_pact(&mut registry, None, None);
    let i = pactffi_new_interaction(&mut registry, pact, Some("b"));
    assert!(pactffi_with_binary_file(&mut registry, i, InteractionPart::Request, Some("image/png"), Some(&[1u8, 2, 3])));
    let request = &http(&registry, i).request;
    assert_eq!(request.body.value(), Some(vec![1u8, 2, 3]));
    assert_eq!(
        request.headers.as_ref().unwrap().get(&"Content-Type".to_string()),
        Some(&texts(&["application/octet-stream"]))
    );
    let list = request.matching_rules.body.get(&DocPath::root()).unwrap();
    assert_eq!(list.rules.len(), 1);
    assert_eq!(list.rules[0].kind, "contentType");
    assert!(!pactffi_with_binary_file(&mut registry, i, InteractionPart::Request, None, Some(&[1u8])));
    assert!(pactffi_with_binary_file(&mut registry, i, InteractionPart::Response, Some("image/png"), Some(&[])));
    assert_eq!(http(&registry, i).response.body.to_string(), "Empty");
    assert!(pactffi_with_binary_file(&mut registry, i, InteractionPart::Response, Some("image/png"), None));
    assert_eq!(http(&registry, i).response.body.to_string(), "Missing");
}

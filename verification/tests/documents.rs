use pact_builder::bodies::OptionalBody;
use pact_builder::builder::{
    content_type_of, edit_http, pactffi_response_status, pactffi_with_body, pactffi_with_header,
    pactffi_with_multipart_file, pactffi_with_request, HttpEdit, MultipartBody,
};
use pact_builder::export::{
    message_pact_write_status, pact_handle_write_status, pactffi_message_reify,
    pactffi_pact_handle_write_file, pactffi_write_message_pact_file, path_from_dir, Reified,
    WriteOutcome,
};
use pact_builder::handles::{
    HandleRegistry, InteractionHandle, InteractionPart, MessageHandle, MessagePactHandle,
    PactHandle,
};
use pact_builder::interactions::{
    edit_interaction, pactffi_free_message_pact_handle, pactffi_given, pactffi_given_with_param,
    pactffi_interaction_test_name, pactffi_new_interaction, pactffi_new_message,
    pactffi_new_message_interaction, pactffi_new_message_pact, pactffi_new_pact,
    pactffi_new_sync_message_interaction, pactffi_upon_receiving,
    pactffi_with_message_pact_metadata, pactffi_with_pact_metadata, pactffi_with_specification,
    InteractionEdit,
};
use pact_builder::messages::{
    pactffi_message_expects_to_receive, pactffi_message_given,
    pactffi_message_given_with_param, pactffi_message_with_contents,
    pactffi_message_with_metadata, reads_as_text,
};
use pact_builder::model::{
    AsynchronousMessage, Interaction, PactSpecification, SynchronousHttp,
};
use pact_builder::path::{DocPath, PathToken};
use pact_builder::rules::Category;

fn interaction<'a>(registry: &'a HandleRegistry, document: u16, position: u16) -> &'a Interaction {
    &registry.get(document).unwrap().pact.interactions[(position - 1) as usize]
}

fn http<'a>(registry: &'a HandleRegistry, handle: InteractionHandle) -> &'a SynchronousHttp {
    let (document, position) = handle.parts();
    match interaction(registry, document, position) {
        Interaction::Http(http) => http,
        _ => panic!("not an HTTP interaction"),
    }
}

fn message<'a>(registry: &'a HandleRegistry, handle: MessageHandle) -> &'a AsynchronousMessage {
    let (document, position) = handle.parts();
    match interaction(registry, document, position) {
        Interaction::AsyncMessage(m) => m,
        _ => panic!("not a message"),
    }
}

fn texts(values: &[&str]) -> Vec<String> {
    values.iter().map(|v| v.to_string()).collect()
}

#[test]
fn post_of_a_json_body_is_kept_and_exported() {
    let mut registry = HandleRegistry::new();
    let pact = pactffi_new_pact(&mut registry, Some("ConsumerA"), Some("ProviderB"));
    let i = pactffi_new_interaction(&mut registry, pact, Some("req1"));
    assert!(pactffi_with_request(&mut registry, i, Some("POST"), Some("/items")));
    assert!(pactffi_with_body(
        &mut registry,
        i,
        InteractionPart::Request,
        Some("application/json"),
        Some("{\"id\": 1}")
    ));
    let document = registry.get(pact.pact_ref).unwrap();
    assert_eq!(document.pact.consumer.name, "ConsumerA");
    assert_eq!(document.pact.provider.name, "ProviderB");
    assert_eq!(document.pact.interactions.len(), 1);
    assert_eq!(document.pact.default_file_name(), "ConsumerA-ProviderB.json");
    let request = &http(&registry, i).request;
    assert_eq!(request.method, "POST");
    assert_eq!(request.path, "/items");
    assert_eq!(request.body.str_value(), "{\"id\":1}");
    assert_eq!(
        request.body.to_v4_json().to_text(),
        "{\"content\":{\"id\":1},\"contentType\":\"application/json\",\"encoded\":false}"
    );
    assert_eq!(
        request.headers.as_ref().unwrap().get(&"Content-Type".to_string()),
        Some(&texts(&["application/json"]))
    );
    assert_eq!(request.matching_rules.body.len(), 0);
}

#[test]
fn annotated_json_body_is_stripped_and_filed() {
    let mut registry = HandleRegistry::new();
    let pact = pactffi_new_pact(&mut registry, None, None);
    let i = pactffi_new_interaction(&mut registry, pact, Some("annotated"));
    let body = "{\"id\":{\"pact:matcher:type\":\"integer\",\"value\":1}}";
    assert!(pactffi_with_body(&mut registry, i, InteractionPart::Response, Some("application/json"), Some(body)));
    let response = &http(&registry, i).response;
    assert_eq!(response.body.str_value(), "{\"id\":1}");
    assert_eq!(response.body.content_type().unwrap().to_string(), "application/json");
    let id = DocPath { tokens: vec![PathToken::Root, PathToken::Field("id".to_string())] };
    assert_eq!(response.matching_rules.count_at(Category::Body, &id), 1);
    assert_eq!(response.matching_rules.body.len(), 1);
    assert_eq!(http(&registry, i).request.matching_rules.body.len(), 0);
    assert!(http(&registry, i).request.headers.is_none());
}

#[test]
fn content_type_header_wins_over_the_argument() {
    let mut registry = HandleRegistry::new();
    let pact = pactffi_new_pact(&mut registry, None, None);
    let i = pactffi_new_interaction(&mut registry, pact, Some("typed"));
    assert!(pactffi_with_header(&mut registry, i, InteractionPart::Request, Some("Content-Type"), 0, Some("application/json")));
    assert!(pactffi_with_body(&mut registry, i, InteractionPart::Request, Some("text/plain"), Some("[ 1 ]")));
    let request = &http(&registry, i).request;
    assert_eq!(request.body.str_value(), "[1]");
    assert_eq!(
        request.headers.as_ref().unwrap().get(&"Content-Type".to_string()),
        Some(&texts(&["application/json"]))
    );
    assert!(content_type_of(&request.headers, &request.body).is_json());
    assert!(content_type_of(&request.headers, &OptionalBody::Missing).is_json());
    assert!(pactffi_with_body(&mut registry, i, InteractionPart::Response, None, Some("[ 1 ]")));
    let response = &http(&registry, i).response;
    assert_eq!(response.body.str_value(), "[ 1 ]");
    assert!(!response.body.has_content_type());
    assert_eq!(
        response.headers.as_ref().unwrap().get(&"Content-Type".to_string()),
        Some(&texts(&["text/plain"]))
    );
    assert!(pactffi_with_body(&mut registry, i, InteractionPart::Response, None, None));
    assert_eq!(http(&registry, i).response.body.to_string(), "Empty");
}

#[test]
fn empty_body_is_empty_for_every_content_type() {
    let mut registry = HandleRegistry::new();
    let pact = pactffi_new_pact(&mut registry, None, None);
    for content_type in ["application/json", "application/xml", "text/plain", "image/png"] {
        let i = pactffi_new_interaction(&mut registry, pact, Some("empty"));
        assert!(pactffi_with_body(&mut registry, i, InteractionPart::Request, Some(content_type), Some("")));
        let request = &http(&registry, i).request;
        assert_eq!(request.body.to_string(), "Empty");
        assert_eq!(request.body.to_v4_json().to_text(), "{\"content\":\"\"}");
        assert_eq!(
            request.headers.as_ref().unwrap().get(&"Content-Type".to_string()),
            Some(&texts(&[content_type]))
        );
        assert_eq!(request.matching_rules.body.len(), 0);
        assert!(matches!(http(&registry, i).response.body.to_v4_json(), pact_builder::json::Json::Null));
    }
    let i = pactffi_new_interaction(&mut registry, pact, Some("set, then emptied"));
    assert!(pactffi_with_body(&mut registry, i, InteractionPart::Response, Some("application/json"), Some("[1]")));
    assert_eq!(http(&registry, i).response.body.to_string(), "Present(3 bytes, application/json)");
    assert!(pactffi_with_body(&mut registry, i, InteractionPart::Response, Some("application/json"), None));
    assert_eq!(http(&registry, i).response.body.to_string(), "Empty");
    assert!(registry.start_mock_server(pact.pact_ref));
    assert!(!pactffi_with_body(&mut registry, i, InteractionPart::Response, Some("application/json"), Some("[2]")));
    assert_eq!(
        http(&registry, i).response.body.to_v4_json().to_text(),
        "{\"content\":[2],\"contentType\":\"application/json\",\"encoded\":false}"
    );
}

#[test]
fn xml_body_is_written_from_its_builder() {
    let mut registry = HandleRegistry::new();
    let pact = pactffi_new_pact(&mut registry, None, None);
    let i = pactffi_new_interaction(&mut registry, pact, Some("xml"));
    let builder = "{\"root\":{\"name\":\"a\",\"children\":[{\"content\":\"t\"}]}}";
    assert!(pactffi_with_body(&mut registry, i, InteractionPart::Request, Some("application/xml"), Some(builder)));
    let request = &http(&registry, i).request;
    assert_eq!(request.body.str_value(), "<?xml version=\"1.0\"?><a>t</a>");
    assert_eq!(request.body.content_type().unwrap().to_string(), "application/xml");
    assert!(pactffi_with_body(&mut registry, i, InteractionPart::Response, Some("application/xml"), Some("<a/>")));
    let response = &http(&registry, i).response;
    assert_eq!(response.body.to_string(), "Present(0 bytes, application/xml)");
}

#[test]
fn frozen_document_changes_and_reports_failure() {
    let mut registry = HandleRegistry::new();
    let pact = pactffi_new_pact(&mut registry, None, None);
    let i = pactffi_new_interaction(&mut registry, pact, Some("frozen"));
    assert!(pactffi_response_status(&mut registry, i, 201));
    assert!(!registry.is_started(pact.pact_ref));
    assert!(registry.start_mock_server(pact.pact_ref));
    assert!(registry.is_started(pact.pact_ref));
    assert!(!registry.start_mock_server(77));
    assert!(!pactffi_response_status(&mut registry, i, 404));
    assert!(!pactffi_with_header(&mut registry, i, InteractionPart::Response, Some("X-A"), 0, Some("late")));
    assert!(!pactffi_with_body(&mut registry, i, InteractionPart::Response, Some("text/plain"), Some("late body")));
    assert!(!pactffi_upon_receiving(&mut registry, i.clone(), Some("renamed")));
    assert!(!pactffi_with_specification(&mut registry, pact, PactSpecification::V4));
    let response = &http(&registry, i).response;
    assert_eq!(response.status, 404);
    assert_eq!(response.headers.as_ref().unwrap().get(&"X-A".to_string()), Some(&texts(&["late"])));
    assert_eq!(response.body.str_value(), "late body");
    assert_eq!(response.body.to_v4_json().to_text(), "{\"content\":\"late body\",\"contentType\":\"*/*\",\"encoded\":false}");
    assert_eq!(http(&registry, i).description, "renamed");
    assert!(registry.get(pact.pact_ref).unwrap().specification_version == PactSpecification::V4);
    assert_eq!(pactffi_interaction_test_name(&mut registry, i, Some("late test")), 3);
    assert_eq!(
        http(&registry, i).comments.get(&"testname".to_string()).unwrap().to_text(),
        "\"late test\""
    );
}

#[test]
fn provider_states_and_parameters() {
    let mut registry = HandleRegistry::new();
    let pact = pactffi_new_pact(&mut registry, None, None);
    let i = pactffi_new_interaction(&mut registry, pact, Some("states"));
    assert!(pactffi_given(&mut registry, i, Some("a user")));
    assert!(pactffi_given(&mut registry, i, Some("a user")));
    assert!(pactffi_given_with_param(&mut registry, i, Some("a user"), Some("id"), Some("42")));
    assert!(pactffi_given_with_param(&mut registry, i, Some("a user"), Some("name"), Some("bob")));
    assert!(pactffi_given_with_param(&mut registry, i, Some("a user"), Some("id"), Some("{\"n\": 1}")));
    assert!(pactffi_given_with_param(&mut registry, i, Some("an order"), Some("open"), None));
    assert!(!pactffi_given_with_param(&mut registry, i, None, Some("x"), Some("y")));
    assert!(!pactffi_given_with_param(&mut registry, i, Some("a user"), None, Some("y")));
    assert!(!pactffi_given(&mut registry, i, None));
    let states = &http(&registry, i).provider_states;
    assert_eq!(states.len(), 3);
    assert_eq!(states[0].name, "a user");
    assert_eq!(states[0].params.len(), 2);
    assert_eq!(states[0].params.get(&"id".to_string()).unwrap().to_text(), "{\"n\":1}");
    assert_eq!(states[0].params.get(&"name".to_string()).unwrap().to_text(), "\"bob\"");
    assert_eq!(states[1].params.len(), 0);
    assert_eq!(states[2].name, "an order");
    assert_eq!(states[2].params.get(&"open".to_string()).unwrap().to_text(), "\"\"");
    assert!(edit_interaction(&mut registry, pact.pact_ref, 1, InteractionEdit::Given("more")));
    assert!(!edit_interaction(&mut registry, pact.pact_ref, 2, InteractionEdit::Given("more")));
    assert_eq!(http(&registry, i).provider_states.len(), 4);
}

#[test]
fn description_and_test_name() {
    let mut registry = HandleRegistry::new();
    let pact = pactffi_new_pact(&mut registry, None, None);
    let i = pactffi_new_sync_message_interaction(&mut registry, pact, Some("first"));
    assert!(pactffi_upon_receiving(&mut registry, i, Some("second")));
    assert!(!pactffi_upon_receiving(&mut registry, i, None));
    let (document, position) = i.parts();
    assert_eq!(interaction(&registry, document, position).description(), "second");
    assert_eq!(interaction(&registry, document, position).type_of(), "V4 Synchronous/Messages");
    assert!(!interaction(&registry, document, position).is_message());
    assert_eq!(pactffi_interaction_test_name(&mut registry, i, Some("my test")), 0);
    assert_eq!(pactffi_interaction_test_name(&mut registry, i, None), 1);
    assert_eq!(pactffi_interaction_test_name(&mut registry, InteractionHandle::new(pact, 0), Some("t")), 2);
    assert_eq!(pactffi_interaction_test_name(&mut registry, InteractionHandle::new(pact, 5), Some("t")), 2);
    match interaction(&registry, document, position) {
        Interaction::SyncMessage(m) => {
            assert_eq!(m.comments.get(&"testname".to_string()).unwrap().to_text(), "\"my test\"")
        }
        _ => panic!("not a synchronous message"),
    }
}

#[test]
fn document_defaults_and_metadata() {
    let mut registry = HandleRegistry::new();
    let pact = pactffi_new_pact(&mut registry, None, Some(""));
    let document = registry.get(pact.pact_ref).unwrap();
    assert_eq!(document.pact.consumer.name, "Consumer");
    assert_eq!(document.pact.provider.name, "Provider");
    assert!(document.specification_version == PactSpecification::V3);
    assert!(document.specification_version.legacy());
    assert!(!document.mock_server_started);
    assert!(pactffi_with_pact_metadata(&mut registry, pact, Some("pact-test"), Some("version"), Some("1.0")));
    assert!(pactffi_with_pact_metadata(&mut registry, pact, Some("pact-test"), Some("name"), None));
    assert!(pactffi_with_pact_metadata(&mut registry, pact, None, Some("ignored"), Some("x")));
    assert!(!pactffi_with_pact_metadata(&mut registry, PactHandle { pact_ref: 40 }, Some("a"), Some("b"), Some("c")));
    let metadata = &registry.get(pact.pact_ref).unwrap().pact.metadata;
    assert_eq!(metadata.len(), 1);
    assert_eq!(metadata.get(&"pact-test".to_string()).unwrap().to_text(), "{\"name\":\"\"}");
    assert!(pactffi_with_specification(&mut registry, pact, PactSpecification::V4));
    assert!(!registry.get(pact.pact_ref).unwrap().specification_version.legacy());
    assert!(!pactffi_with_specification(&mut registry, PactHandle { pact_ref: 40 }, PactSpecification::V4));
}

#[test]
fn messages_are_set_through_message_handles() {
    let mut registry = HandleRegistry::new();
    let pact = pactffi_new_message_pact(&mut registry, Some("C"), None);
    let m = pactffi_new_message(&mut registry, pact, Some("an event"));
    assert_eq!(m.parts(), (pact.pact_ref, 1));
    pactffi_message_expects_to_receive(&mut registry, m, Some("the event"));
    pactffi_message_expects_to_receive(&mut registry, m, None);
    pactffi_message_given(&mut registry, m, Some("a state"));
    pactffi_message_given_with_param(&mut registry, m, Some("a state"), Some("n"), Some("1"));
    pactffi_message_with_metadata(&mut registry, m, Some("topic"), Some("orders"));
    pactffi_message_with_metadata(&mut registry, m, None, Some("orders"));
    pactffi_with_message_pact_metadata(&mut registry, pact, Some("ns"), Some("k"), Some("v"));
    let body = "{\"id\":{\"pact:matcher:type\":\"integer\",\"value\":9}}";
    pactffi_message_with_contents(&mut registry, m, Some("application/json"), body.as_bytes());
    let found = message(&registry, m);
    assert_eq!(found.description, "the event");
    assert_eq!(found.provider_states.len(), 1);
    assert_eq!(found.provider_states[0].params.get(&"n".to_string()).unwrap().to_text(), "1");
    assert_eq!(found.contents.metadata.get(&"topic".to_string()).unwrap().to_text(), "\"orders\"");
    assert_eq!(found.contents.contents.str_value(), "{\"id\":9}");
    assert_eq!(found.contents.contents.content_type().unwrap().to_string(), "application/json");
    assert_eq!(found.contents.matching_rules.body.len(), 1);
    assert_eq!(
        registry.get(pact.pact_ref).unwrap().pact.metadata.get(&"ns".to_string()).unwrap().to_text(),
        "{\"k\":\"v\"}"
    );
    assert_eq!(pactffi_free_message_pact_handle(&mut registry, pact), 0);
    assert_eq!(pactffi_free_message_pact_handle(&mut registry, pact), 1);
    assert_eq!(pactffi_new_message(&mut registry, pact, Some("late")).parts(), (pact.pact_ref, 0));
    assert_eq!(pactffi_new_message(&mut registry, MessagePactHandle { pact_ref: 3 }, None).parts(), (3, 0));
}

#[test]
fn message_contents_by_content_type() {
    let mut registry = HandleRegistry::new();
    let pact = pactffi_new_pact(&mut registry, None, None);
    let i = pactffi_new_message_interaction(&mut registry, pact, Some("m"));
    let m = MessageHandle::new(MessagePactHandle { pact_ref: pact.pact_ref }, i.parts().1);
    pactffi_message_with_contents(&mut registry, m, None, b"[ 1 ]");
    assert_eq!(message(&registry, m).contents.contents.to_string(), "Present(3 bytes, text/plain)");
    pactffi_message_with_contents(&mut registry, m, Some("application/octet-stream"), &[0xff, 0x00]);
    assert_eq!(message(&registry, m).contents.contents.value(), Some(vec![0xffu8, 0x00]));
    pactffi_message_with_contents(&mut registry, m, Some("nonsense"), &[7]);
    assert_eq!(message(&registry, m).contents.contents.to_string(), "Present(1 bytes)");
    for content_type in [None, Some("nonsense"), Some("application/json"), Some("application/xml"), Some("image/png")] {
        pactffi_message_with_contents(&mut registry, m, Some("text/plain"), b"x");
        pactffi_message_with_contents(&mut registry, m, content_type, &[]);
        assert_eq!(message(&registry, m).contents.contents.to_string(), "Empty");
        assert_eq!(
            message(&registry, m).contents.contents.to_v4_json().to_text(),
            "{\"content\":\"\"}"
        );
    }
    pactffi_message_with_contents(&mut registry, m, Some("text/plain"), &[0xff]);
    assert_eq!(message(&registry, m).contents.contents.to_string(), "Present(0 bytes, text/plain)");
    pactffi_message_with_contents(&mut registry, m, Some("application/xml"), b"{\"root\":{\"name\":\"e\"}}");
    assert_eq!(message(&registry, m).contents.contents.str_value(), "<?xml version=\"1.0\"?><e/>");
    assert!(reads_as_text(None));
    assert!(reads_as_text(Some("application/xml")));
    assert!(reads_as_text(Some("application/json")));
    assert!(!reads_as_text(Some("image/png")));
    assert!(!reads_as_text(Some("nonsense")));
    let http = pactffi_new_interaction(&mut registry, pact, Some("h"));
    let wrong = MessageHandle::new(MessagePactHandle { pact_ref: pact.pact_ref }, http.parts().1);
    pactffi_message_with_contents(&mut registry, wrong, None, b"x");
    pactffi_message_expects_to_receive(&mut registry, wrong, Some("changed"));
    let (document, position) = http.parts();
    assert_eq!(interaction(&registry, document, position).description(), "h");
}

#[test]
fn reify_by_the_state_of_the_contents() {
    let mut registry = HandleRegistry::new();
    let pact = pactffi_new_message_pact(&mut registry, None, None);
    let m = pactffi_new_message(&mut registry, pact, Some("m"));
    assert!(matches!(pactffi_message_reify(&registry, m), Reified::Text(t) if t.is_empty()));
    pactffi_message_with_contents(&mut registry, m, Some("text/plain"), b"x");
    assert!(matches!(pactffi_message_reify(&registry, m), Reified::Message { legacy: true }));
    assert!(pactffi_with_specification(&mut registry, PactHandle { pact_ref: pact.pact_ref }, PactSpecification::V4));
    assert!(matches!(pactffi_message_reify(&registry, m), Reified::Message { legacy: false }));
    let changed = m.with_message(&mut registry, |place, started, interaction| match interaction {
        Interaction::AsyncMessage(mut found) => {
            found.contents.contents = OptionalBody::Null;
            (Interaction::AsyncMessage(found), (place, started))
        }
        other => (other, (place, started)),
    });
    assert_eq!(changed, Some((0, false)));
    assert!(matches!(pactffi_message_reify(&registry, m), Reified::Text(t) if t == "null"));
    let unknown = MessageHandle::new(pact, 4);
    assert!(matches!(pactffi_message_reify(&registry, unknown), Reified::Text(t) if t.is_empty()));
}

#[test]
fn closures_see_and_store_documents_and_interactions() {
    let mut registry = HandleRegistry::new();
    let pact = pactffi_new_pact(&mut registry, Some("c"), Some("p"));
    let i = pactffi_new_interaction(&mut registry, pact, Some("one"));
    let seen = i.with_interaction(&mut registry, |place, started, mut interaction| {
        interaction.set_description("two");
        (interaction, (place, started))
    });
    assert_eq!(seen, Some((0, false)));
    assert_eq!(http(&registry, i).description, "two");
    let none = InteractionHandle::new(pact, 0).with_interaction(&mut registry, |_, _, interaction| (interaction, ()));
    assert_eq!(none, None);
    let count = i.with_pact(&mut registry, |before, mut document| {
        document.mock_server_started = true;
        let count = document.pact.interactions.len();
        (document, (before, count))
    });
    assert_eq!(count, Some((pact.pact_ref - 1, 1)));
    assert!(registry.is_started(pact.pact_ref));
    let as_message = MessageHandle::new(MessagePactHandle { pact_ref: pact.pact_ref }, 1);
    assert_eq!(as_message.with_message(&mut registry, |_, _, interaction| (interaction, 1)), None);
    let version = as_message.with_pact(&mut registry, |_, document, version| (document, version));
    assert!(version == Some(PactSpecification::V3));
    let name = MessagePactHandle { pact_ref: pact.pact_ref }
        .with_pact(&mut registry, |_, document, _| {
            let name = document.consumer.name.clone();
            (document, name)
        });
    assert_eq!(name, Some("c".to_string()));
    assert_eq!(MessagePactHandle { pact_ref: 9 }.with_pact(&mut registry, |_, d, _| (d, 0)), None);
    assert_eq!(PactHandle { pact_ref: 9 }.with_pact(&mut registry, |_, d| (d, 0)), None);
}

#[test]
fn write_plans_and_statuses() {
    let mut registry = HandleRegistry::new();
    let pact = pactffi_new_pact(&mut registry, Some("A"), Some("B"));
    let plan = pactffi_pact_handle_write_file(&registry, pact, Some("/tmp/pacts"), true).unwrap();
    assert_eq!(plan.directory.as_deref(), Some("/tmp/pacts"));
    assert_eq!(plan.file_name, "A-B.json");
    assert!(plan.overwrite);
    assert!(plan.specification_version == PactSpecification::V3);
    let here = pactffi_write_message_pact_file(&registry, MessagePactHandle { pact_ref: pact.pact_ref }, Some(""), false).unwrap();
    assert_eq!(here.directory, None);
    assert!(!here.overwrite);
    assert!(pactffi_pact_handle_write_file(&registry, PactHandle { pact_ref: 8 }, None, true).is_none());
    assert_eq!(pact_handle_write_status(WriteOutcome::Written), 0);
    assert_eq!(pact_handle_write_status(WriteOutcome::Panicked), 1);
    assert_eq!(pact_handle_write_status(WriteOutcome::Failed), 2);
    assert_eq!(pact_handle_write_status(WriteOutcome::NotFound), 3);
    assert_eq!(message_pact_write_status(WriteOutcome::Written), 0);
    assert_eq!(message_pact_write_status(WriteOutcome::Failed), 1);
    assert_eq!(message_pact_write_status(WriteOutcome::NotFound), 2);
    let path = path_from_dir(Some("/out"), Some("f.json")).unwrap();
    assert_eq!((path.directory.as_str(), path.file_name.as_deref()), ("/out", Some("f.json")));
    assert_eq!(path_from_dir(Some("/out"), None).unwrap().file_name, None);
    assert!(path_from_dir(None, Some("f.json")).is_none());
    assert!(path_from_dir(Some(""), Some("f.json")).is_none());
}

#[test]
fn multipart_body_and_its_failures() {
    let mut registry = HandleRegistry::new();
    let pact = pactffi_new_pact(&mut registry, None, None);
    let i = pactffi_new_interaction(&mut registry, pact, Some("upload"));
    let m = pactffi_new_message_interaction(&mut registry, pact, Some("message"));
    let body = || MultipartBody {
        body: OptionalBody::Present(b"--b--".to_vec(), None, None),
        boundary: "b".to_string(),
    };
    let part = InteractionPart::Request;
    assert_eq!(pactffi_with_multipart_file(&mut registry, i, part, Some("image/png"), Ok(body()), None), Ok(()));
    let request = &http(&registry, i).request;
    assert_eq!(request.body.str_value(), "--b--");
    assert_eq!(
        request.headers.as_ref().unwrap().get(&"Content-Type".to_string()),
        Some(&texts(&["multipart/form-data; boundary=b"]))
    );
    let file = DocPath { tokens: vec![PathToken::Root, PathToken::Field("file".to_string())] };
    assert_eq!(request.matching_rules.count_at(Category::Body, &file), 1);
    let header = DocPath { tokens: vec![PathToken::Root, PathToken::Field("Content-Type".to_string())] };
    let rule = &request.matching_rules.header.get(&header).unwrap().rules[0];
    assert_eq!(rule.kind, "regex");
    assert_eq!(
        rule.attributes[0].value.to_plain_text(),
        "multipart/form-data;(\\s*charset=[^;]*;)?\\s*boundary=.*"
    );
    assert_eq!(
        pactffi_with_multipart_file(&mut registry, i, part, None, Ok(body()), None),
        Err("with_multipart_file: Content type value is not valid (NULL or non-UTF-8)".to_string())
    );
    assert_eq!(
        pactffi_with_multipart_file(&mut registry, InteractionHandle::new(pact, 0), part, Some("a/b"), Ok(body()), None),
        Err("with_multipart_file: Interaction handle is invalid".to_string())
    );
    assert_eq!(
        pactffi_with_multipart_file(&mut registry, m, part, Some("a/b"), Err("no file".to_string()), None),
        Err("with_multipart_file: failed to generate multipart body - no file".to_string())
    );
    assert_eq!(
        pactffi_with_multipart_file(&mut registry, m, part, Some("a/b"), Ok(body()), None),
        Err("with_multipart_file: Interaction is not an HTTP interaction, is V4 Asynchronous/Messages".to_string())
    );
    assert!(registry.start_mock_server(pact.pact_ref));
    assert_eq!(
        pactffi_with_multipart_file(&mut registry, i, InteractionPart::Response, Some("a/b"), Ok(body()), Some("doc")),
        Err("with_multipart_file: This Pact can not be modified, as the mock server has already started".to_string())
    );
    assert_eq!(http(&registry, i).response.body.str_value(), "--b--");
    assert!(!edit_http(&mut registry, i, HttpEdit::Status(500)));
    assert_eq!(http(&registry, i).response.status, 500);
}

use pact_builder::dict::Dict;
use pact_builder::model::HttpResponse;
use pact_builder::report::{process_request_response_result, Mismatch, MismatchResult};

fn response() -> HttpResponse {
    let mut response = HttpResponse::new();
    let mut headers: Dict<String, Vec<String>> = Dict::new();
    headers.insert("Accept".to_string(), vec!["a".to_string(), "b".to_string()]);
    headers.insert("X-Id".to_string(), vec!["7".to_string()]);
    response.headers = Some(headers);
    response.status = 201;
    response
}

const OK: &str = "\u{1b}[32mOK\u{1b}[0m";
const FAILED: &str = "\u{1b}[31mFAILED\u{1b}[0m";

#[test]
fn matching_response_is_all_ok() {
    let mut output = vec!["before".to_string()];
    process_request_response_result(&response(), &Ok(None), &mut output);
    assert_eq!(
        output,
        vec![
            "before".to_string(),
            "    returns a response which".to_string(),
            format!("      has status code \u{1b}[1m201\u{1b}[0m ({})", OK),
            "      includes headers".to_string(),
            format!("        \"\u{1b}[1mAccept\u{1b}[0m\" with value \"\u{1b}[1ma, b\u{1b}[0m\" ({})", OK),
            format!("        \"\u{1b}[1mX-Id\u{1b}[0m\" with value \"\u{1b}[1m7\u{1b}[0m\" ({})", OK),
            format!("      has a matching body ({})", OK),
        ]
    );
}

#[test]
fn differences_mark_what_they_concern() {
    let mut output = Vec::new();
    let result = Err(MismatchResult::Mismatches {
        mismatches: vec![
            Mismatch::HeaderMismatch { key: "X-Id".to_string() },
            Mismatch::BodyTypeMismatch,
            Mismatch::QueryMismatch,
        ],
    });
    process_request_response_result(&response(), &result, &mut output);
    assert_eq!(output.len(), 6);
    assert_eq!(output[1], format!("      has status code \u{1b}[1m201\u{1b}[0m ({})", OK));
    assert!(output[3].ends_with(&format!("({})", OK)));
    assert!(output[4].ends_with(&format!("({})", FAILED)));
    assert_eq!(output[5], format!("      has a matching body ({})", FAILED));
    let mut output = Vec::new();
    let result = Err(MismatchResult::Mismatches { mismatches: vec![Mismatch::StatusMismatch] });
    let mut plain = HttpResponse::new();
    plain.status = 0;
    process_request_response_result(&plain, &result, &mut output);
    assert_eq!(
        output,
        vec![
            "    returns a response which".to_string(),
            format!("      has status code \u{1b}[1m0\u{1b}[0m ({})", FAILED),
            format!("      has a matching body ({})", OK),
        ]
    );
    assert_eq!(Mismatch::StatusMismatch.mismatch_type(), "StatusMismatch");
    assert_eq!(Mismatch::HeaderMismatch { key: String::new() }.mismatch_type(), "HeaderMismatch");
}

#[test]
fn failed_request_is_one_red_line() {
    let mut output = Vec::new();
    let result = Err(MismatchResult::Error("connection refused".to_string()));
    process_request_response_result(&response(), &result, &mut output);
    assert_eq!(
        output,
        vec!["      \u{1b}[31mRequest Failed - connection refused\u{1b}[0m".to_string()]
    );
}

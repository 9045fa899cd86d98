//! The report of a verification: what is said about a response once it has
//! been compared with the response that a contract expects.
use crate::model::HttpResponse;
use crate::text::{decimal, decimal_text};
use crate::values::{join_values, joined};
use vstd::prelude::*;
use vstd::string::StringExecFns;

verus! {

/// One difference between an expected and an actual request or response.
#[derive(Debug)]
pub enum Mismatch {
    MethodMismatch,
    PathMismatch,
    StatusMismatch,
    QueryMismatch,
    HeaderMismatch { key: String },
    BodyTypeMismatch,
    BodyMismatch,
    MetadataMismatch,
}

/// The model of a [`Mismatch`].
pub ghost enum MismatchModel {
    MethodMismatch,
    PathMismatch,
    StatusMismatch,
    QueryMismatch,
    HeaderMismatch { key: Seq<char> },
    BodyTypeMismatch,
    BodyMismatch,
    MetadataMismatch,
}

impl View for Mismatch {
    type V = MismatchModel;

    open spec fn view(&self) -> MismatchModel {
        match self {
            Mismatch::MethodMismatch => MismatchModel::MethodMismatch,
            Mismatch::PathMismatch => MismatchModel::PathMismatch,
            Mismatch::StatusMismatch => MismatchModel::StatusMismatch,
            Mismatch::QueryMismatch => MismatchModel::QueryMismatch,
            Mismatch::HeaderMismatch { key } => MismatchModel::HeaderMismatch { key: key@ },
            Mismatch::BodyTypeMismatch => MismatchModel::BodyTypeMismatch,
            Mismatch::BodyMismatch => MismatchModel::BodyMismatch,
            Mismatch::MetadataMismatch => MismatchModel::MetadataMismatch,
        }
    }
}

impl DeepView for Mismatch {
    type V = MismatchModel;

    open spec fn deep_view(&self) -> MismatchModel {
        self@
    }
}

impl MismatchModel {
    /// The name of the kind of difference.
    pub open spec fn mismatch_type(self) -> Seq<char> {
        match self {
            MismatchModel::MethodMismatch => "MethodMismatch"@,
            MismatchModel::PathMismatch => "PathMismatch"@,
            MismatchModel::StatusMismatch => "StatusMismatch"@,
            MismatchModel::QueryMismatch => "QueryMismatch"@,
            MismatchModel::HeaderMismatch { .. } => "HeaderMismatch"@,
            MismatchModel::BodyTypeMismatch => "BodyTypeMismatch"@,
            MismatchModel::BodyMismatch => "BodyMismatch"@,
            MismatchModel::MetadataMismatch => "MetadataMismatch"@,
        }
    }
}

impl Mismatch {
    /// The name of the kind of difference.
    pub fn mismatch_type(&self) -> (r: &'static str)
        ensures
            r@ == self@.mismatch_type(),
    {
        match self {
            Mismatch::MethodMismatch => "MethodMismatch",
            Mismatch::PathMismatch => "PathMismatch",
            Mismatch::StatusMismatch => "StatusMismatch",
            Mismatch::QueryMismatch => "QueryMismatch",
            Mismatch::HeaderMismatch { .. } => "HeaderMismatch",
            Mismatch::BodyTypeMismatch => "BodyTypeMismatch",
            Mismatch::BodyMismatch => "BodyMismatch",
            Mismatch::MetadataMismatch => "MetadataMismatch",
        }
    }
}

/// How a comparison went wrong.
#[derive(Debug)]
pub enum MismatchResult {
    /// The response differs from what was expected.
    Mismatches { mismatches: Vec<Mismatch> },
    /// The request could not be made.
    Error(String),
}

/// Whether the status differs.
pub open spec fn status_differs(mismatches: Seq<MismatchModel>) -> bool {
    exists|i: int| 0 <= i < mismatches.len() && mismatches[i] is StatusMismatch
}

/// Whether the header `key` differs.
pub open spec fn header_differs(mismatches: Seq<MismatchModel>, key: Seq<char>) -> bool {
    exists|i: int|
        0 <= i < mismatches.len() && mismatches[i] == (MismatchModel::HeaderMismatch { key })
}

/// Whether the body differs, in its content or in its type.
pub open spec fn body_differs(mismatches: Seq<MismatchModel>) -> bool {
    exists|i: int|
        0 <= i < mismatches.len() && (mismatches[i] is BodyMismatch
            || mismatches[i] is BodyTypeMismatch)
}

/// A text in green, as `ansi_term` paints it.
pub open spec fn green(text: Seq<char>) -> Seq<char> {
    "\x1B[32m"@ + text + "\x1B[0m"@
}

/// A text in red, as `ansi_term` paints it.
pub open spec fn red(text: Seq<char>) -> Seq<char> {
    "\x1B[31m"@ + text + "\x1B[0m"@
}

/// A text in bold, as `ansi_term` paints it.
pub open spec fn bold(text: Seq<char>) -> Seq<char> {
    "\x1B[1m"@ + text + "\x1B[0m"@
}

/// The word for a finding: a green `OK` or a red `FAILED`.
pub open spec fn mark(failed: bool) -> Seq<char> {
    if failed {
        red("FAILED"@)
    } else {
        green("OK"@)
    }
}

/// Calls `paint` of `ansi_term::Colour::Green` and prints the result: the
/// text between the escape sequence for a green foreground and the one that
/// resets all styles.
#[verifier::external_body]
fn paint_green(text: &str) -> (r: String)
    ensures
        r@ == green(text@),
{
    ansi_term::Colour::Green.paint(text).to_string()
}

/// Calls `paint` of `ansi_term::Colour::Red` and prints the result: the
/// text between the escape sequence for a red foreground and the one that
/// resets all styles.
#[verifier::external_body]
fn paint_red(text: &str) -> (r: String)
    ensures
        r@ == red(text@),
{
    ansi_term::Colour::Red.paint(text).to_string()
}

/// Calls `paint` of a bold `ansi_term::Style` and prints the result: the
/// text between the escape sequence for bold and the one that resets all
/// styles.
#[verifier::external_body]
fn paint_bold(text: &str) -> (r: String)
    ensures
        r@ == bold(text@),
{
    ansi_term::Style::new().bold().paint(text).to_string()
}

fn paint_mark(failed: bool) -> (r: String)
    ensures
        r@ == mark(failed),
{
    if failed {
        paint_red("FAILED")
    } else {
        paint_green("OK")
    }
}

/// The line about the status.
pub open spec fn status_line(status: u16, failed: bool) -> Seq<char> {
    "      has status code "@ + bold(decimal(status as nat)) + " ("@ + mark(failed) + ")"@
}

/// The line about one header.
pub open spec fn header_line(key: Seq<char>, values: Seq<Seq<char>>, failed: bool) -> Seq<char> {
    "        \""@ + bold(key) + "\" with value \""@ + bold(joined(values)) + "\" ("@ + mark(
        failed,
    ) + ")"@
}

/// The line about the body.
pub open spec fn body_line(failed: bool) -> Seq<char> {
    "      has a matching body ("@ + mark(failed) + ")"@
}

/// The lines about the first `n` headers, in the order in which they are
/// kept.
pub open spec fn header_lines(
    headers: Seq<(Seq<char>, Seq<Seq<char>>)>,
    n: nat,
    mismatches: Seq<MismatchModel>,
) -> Seq<Seq<char>>
    decreases n,
{
    if n == 0 || n > headers.len() {
        Seq::empty()
    } else {
        header_lines(headers, (n - 1) as nat, mismatches).push(
            header_line(
                headers[n - 1].0,
                headers[n - 1].1,
                header_differs(mismatches, headers[n - 1].0),
            ),
        )
    }
}

/// The report on a response that was compared: a heading, the status, the
/// headers where the response expects any, and the body.
pub open spec fn response_lines(
    status: u16,
    headers: Option<Seq<(Seq<char>, Seq<Seq<char>>)>>,
    mismatches: Seq<MismatchModel>,
) -> Seq<Seq<char>> {
    seq!["    returns a response which"@, status_line(status, status_differs(mismatches))] + (
    match headers {
        Some(h) => seq!["      includes headers"@] + header_lines(h, h.len(), mismatches),
        None => Seq::empty(),
    }) + seq![body_line(body_differs(mismatches))]
}

/// The line that reports a request that could not be made.
pub open spec fn failure_line(description: Seq<char>) -> Seq<char> {
    "      "@ + red("Request Failed - "@ + description)
}

fn any_status(mismatches: &Vec<Mismatch>) -> (r: bool)
    ensures
        r == status_differs(mismatches.deep_view()),
{
    let mut i: usize = 0;
    while i < mismatches.len()
        invariant
            i <= mismatches.len(),
            forall|j: int| 0 <= j < i ==> !(mismatches.deep_view()[j] is StatusMismatch),
        decreases mismatches.len() - i,
    {
        assert(mismatches.deep_view()[i as int] == mismatches@[i as int]@);
        match &mismatches[i] {
            Mismatch::StatusMismatch => {
                return true;
            },
            _ => {},
        }
        i += 1;
    }
    false
}

fn any_body(mismatches: &Vec<Mismatch>) -> (r: bool)
    ensures
        r == body_differs(mismatches.deep_view()),
{
    let mut i: usize = 0;
    while i < mismatches.len()
        invariant
            i <= mismatches.len(),
            forall|j: int|
                0 <= j < i ==> !(mismatches.deep_view()[j] is BodyMismatch
                    || mismatches.deep_view()[j] is BodyTypeMismatch),
        decreases mismatches.len() - i,
    {
        assert(mismatches.deep_view()[i as int] == mismatches@[i as int]@);
        match &mismatches[i] {
            Mismatch::BodyMismatch => {
                return true;
            },
            Mismatch::BodyTypeMismatch => {
                return true;
            },
            _ => {},
        }
        i += 1;
    }
    false
}

fn any_header(mismatches: &Vec<Mismatch>, key: &String) -> (r: bool)
    ensures
        r == header_differs(mismatches.deep_view(), key@),
{
    let mut i: usize = 0;
    while i < mismatches.len()
        invariant
            i <= mismatches.len(),
            forall|j: int|
                0 <= j < i ==> mismatches.deep_view()[j] != (MismatchModel::HeaderMismatch {
                    key: key@,
                }),
        decreases mismatches.len() - i,
    {
        assert(mismatches.deep_view()[i as int] == mismatches@[i as int]@);
        match &mismatches[i] {
            Mismatch::HeaderMismatch { key: other } => {
                if *other == *key {
                    return true;
                }
            },
            _ => {},
        }
        i += 1;
    }
    false
}

fn generate_display_for_result(
    response: &HttpResponse,
    mismatches: &Vec<Mismatch>,
    output: &mut Vec<String>,
)
    ensures
        final(output).deep_view() == old(output).deep_view() + response_lines(
            response.status,
            match response.headers {
                Some(h) => Some(h.entries.deep_view()),
                None => None,
            },
            mismatches.deep_view(),
        ),
{
    let ghost start = output.deep_view();
    let ghost ms = mismatches.deep_view();
    output.push("    returns a response which".to_owned());
    let mut line: String = "      has status code ".to_owned();
    line.append(paint_bold(decimal_text(response.status as usize).as_str()).as_str());
    line.append(" (");
    line.append(paint_mark(any_status(mismatches)).as_str());
    line.append(")");
    output.push(line);
    assert(output.deep_view() =~= start + seq![
        "    returns a response which"@,
        status_line(response.status, status_differs(ms)),
    ]);
    let ghost headed = output.deep_view();
    match &response.headers {
        Some(headers) => {
            output.push("      includes headers".to_owned());
            let ghost all = headers.entries.deep_view();
            let ghost listed = output.deep_view();
            assert(listed =~= headed + seq!["      includes headers"@]);
            let mut i: usize = 0;
            assert(output.deep_view() =~= listed + header_lines(all, 0, ms));
            while i < headers.entries.len()
                invariant
                    i <= headers.entries.len(),
                    all == headers.entries.deep_view(),
                    ms == mismatches.deep_view(),
                    output.deep_view() == listed + header_lines(all, i as nat, ms),
                decreases headers.entries.len() - i,
            {
                let entry = &headers.entries[i];
                assert(all[i as int] == (entry.0@, entry.1.deep_view()));
                let mut line: String = "        \"".to_owned();
                line.append(paint_bold(entry.0.as_str()).as_str());
                line.append("\" with value \"");
                line.append(paint_bold(join_values(&entry.1).as_str()).as_str());
                line.append("\" (");
                line.append(paint_mark(any_header(mismatches, &entry.0)).as_str());
                line.append(")");
                assert(line@ =~= header_line(
                    entry.0@,
                    entry.1.deep_view(),
                    header_differs(ms, entry.0@),
                ));
                let ghost sofar = output.deep_view();
                output.push(line);
                assert(output.deep_view() =~= sofar.push(line@));
                assert(output.deep_view() =~= listed + header_lines(all, (i + 1) as nat, ms));
                i += 1;
            }
        },
        None => {
            assert(output.deep_view() =~= headed + Seq::<Seq<char>>::empty());
        },
    }
    let ghost before = output.deep_view();
    let mut line: String = "      has a matching body (".to_owned();
    line.append(paint_mark(any_body(mismatches)).as_str());
    line.append(")");
    output.push(line);
    assert(output.deep_view() =~= before + seq![body_line(body_differs(ms))]);
    assert(output.deep_view() =~= start + response_lines(
        response.status,
        match response.headers {
            Some(h) => Some(h.entries.deep_view()),
            None => None,
        },
        ms,
    ));
}

/// Adds to `output` the report on a response that was compared with the
/// response that an interaction expects.
///
/// A comparison that found nothing reports every part as `OK`. One that
/// found differences reports the status, each expected header and the body
/// as `FAILED` where a difference concerns it. A request that could not be
/// made is reported in one line.
pub fn process_request_response_result(
    response: &HttpResponse,
    match_result: &Result<Option<String>, MismatchResult>,
    output: &mut Vec<String>,
)
    ensures
        final(output).deep_view() == old(output).deep_view() + (match match_result {
            Ok(_) => response_lines(
                response.status,
                match response.headers {
                    Some(h) => Some(h.entries.deep_view()),
                    None => None,
                },
                Seq::empty(),
            ),
            Err(MismatchResult::Error(description)) => seq![failure_line(description@)],
            Err(MismatchResult::Mismatches { mismatches }) => response_lines(
                response.status,
                match response.headers {
                    Some(h) => Some(h.entries.deep_view()),
                    None => None,
                },
                mismatches.deep_view(),
            ),
        }),
{
    match match_result {
        Ok(_) => {
            let none: Vec<Mismatch> = Vec::new();
            assert(none.deep_view() =~= Seq::<MismatchModel>::empty());
            generate_display_for_result(response, &none, output);
        },
        Err(MismatchResult::Error(description)) => {
            let ghost start = output.deep_view();
            let mut reason: String = "Request Failed - ".to_owned();
            reason.append(description.as_str());
            let mut line: String = "      ".to_owned();
            line.append(paint_red(reason.as_str()).as_str());
            output.push(line);
            assert(output.deep_view() =~= start + seq![failure_line(description@)]);
        },
        Err(MismatchResult::Mismatches { mismatches }) => {
            generate_display_for_result(response, mismatches, output);
        },
    }
}

} // verus!

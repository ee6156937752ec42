//! From what came back, or failed to come back, to one [`ApiError`].

use crate::error::{ApiError, ApiErrorView};
use crate::json::{as_text, json_model, json_parse, member, parse, Json};
use crate::text::{decimal, leading, leading_chars, push_decimal};
use vstd::prelude::*;

verus! {

/// How many characters of an error response's body are worth logging.
pub const BODY_EXCERPT_CHARS: usize = 500;

/// Whether `status` counts as success: 200 up to, not including, 300.
pub open spec fn is_success(status: u16) -> bool {
    200 <= status < 300
}

/// The message used where the body offers none: `HTTP` and the status.
pub open spec fn fallback_message(status: u16) -> Seq<char> {
    "HTTP "@ + decimal(status as nat)
}

/// The message that every rate-limited response gets, whatever its body
/// says.
pub open spec fn rate_limit_message() -> Seq<char> {
    "too many requests, retry later"@
}

/// The string stored at `error.message` of a document, if there is one.
pub open spec fn nested_message(doc: Json) -> Option<Seq<char>> {
    match doc.lookup("error"@) {
        Some(inner) => match inner.lookup("message"@) {
            Some(m) => m.text(),
            None => None,
        },
        None => None,
    }
}

/// The string stored at the top-level `message` of a document, if there is
/// one.
pub open spec fn top_message(doc: Json) -> Option<Seq<char>> {
    match doc.lookup("message"@) {
        Some(m) => m.text(),
        None => None,
    }
}

/// The message a document carries: the string at `error.message`, else the
/// string at `message`, else none.
pub open spec fn body_message(doc: Json) -> Option<Seq<char>> {
    if nested_message(doc) is Some {
        nested_message(doc)
    } else {
        top_message(doc)
    }
}

/// The message for a response: the one its body carries where the body is a
/// JSON document that has one, else the fallback.
pub open spec fn response_message(status: u16, parsed: Option<Json>) -> Seq<char> {
    match parsed {
        Some(doc) => match body_message(doc) {
            Some(m) => m,
            None => fallback_message(status),
        },
        None => fallback_message(status),
    }
}

/// The error for a status and a message. 401 and 403 are credential
/// failures; 429 is a client error with the fixed rate-limit message; 500 to
/// 599 are server errors; everything else is a client error.
pub open spec fn classification(status: u16, message: Seq<char>) -> ApiErrorView {
    if status == 401 || status == 403 {
        ApiErrorView::AuthError { message, status }
    } else if status == 429 {
        ApiErrorView::ApiError { message: rate_limit_message(), status }
    } else if 500 <= status <= 599 {
        ApiErrorView::ServerError { message, status }
    } else {
        ApiErrorView::ApiError { message, status }
    }
}

/// The error for a failed client construction.
pub open spec fn client_failure_view(detail: Seq<char>) -> ApiErrorView {
    ApiErrorView::NetworkError { message: "failed to create HTTP client: "@ + detail }
}

/// The error for a request that got no response. A timeout wins over a
/// failed connection, and both win over the transport's own description.
pub open spec fn transport_failure_view(
    timed_out: bool,
    connect: bool,
    detail: Seq<char>,
) -> ApiErrorView {
    if timed_out {
        ApiErrorView::Timeout
    } else if connect {
        ApiErrorView::NetworkError { message: "cannot connect to API server"@ }
    } else {
        ApiErrorView::NetworkError { message: "network request failed: "@ + detail }
    }
}

/// The error for a response whose body could not be read as text.
pub open spec fn read_failure_view(detail: Seq<char>) -> ApiErrorView {
    ApiErrorView::ParseError { message: "failed to read response: "@ + detail }
}

/// What a call that got a response ends in: the body itself on success,
/// else the classified error.
pub open spec fn conclusion(status: u16, text: Seq<char>) -> Result<Seq<char>, ApiErrorView> {
    if is_success(status) {
        Ok(text)
    } else {
        Err(classification(status, response_message(status, json_parse(text))))
    }
}

/// Reads the message out of a parsed body, see [`body_message`].
pub fn extract_message(doc: &serde_json::Value) -> (r: Option<String>)
    ensures
        match r {
            Some(m) => body_message(json_model(*doc)) == Some(m@),
            None => body_message(json_model(*doc)) is None,
        },
{
    if let Some(inner) = member(doc, "error") {
        if let Some(m) = member(inner, "message") {
            if let Some(s) = as_text(m) {
                return Some(s.to_owned());
            }
        }
    }
    if let Some(m) = member(doc, "message") {
        if let Some(s) = as_text(m) {
            return Some(s.to_owned());
        }
    }
    None
}

/// Classifies a status together with the message extracted from the body,
/// if any was.
pub fn classify_with_message(status: u16, extracted: Option<String>) -> (e: ApiError)
    ensures
        e@ == classification(
            status,
            match extracted {
                Some(m) => m@,
                None => fallback_message(status),
            },
        ),
{
    let message = match extracted {
        Some(m) => m,
        None => {
            let mut m = "HTTP ".to_owned();
            push_decimal(&mut m, status as u64);
            m
        },
    };
    if status == 401 || status == 403 {
        ApiError::AuthError { message, status }
    } else if status == 429 {
        ApiError::ApiError { message: "too many requests, retry later".to_owned(), status }
    } else if 500 <= status && status <= 599 {
        ApiError::ServerError { message, status }
    } else {
        ApiError::ApiError { message, status }
    }
}

/// The part of a response body that goes into the log beside an error
/// status: its first [`BODY_EXCERPT_CHARS`] characters.
pub fn body_excerpt(text: &str) -> (head: &str)
    ensures
        head@ == leading(text@, BODY_EXCERPT_CHARS as nat),
{
    leading_chars(text, BODY_EXCERPT_CHARS)
}

/// Turns the status and raw body of a response into an error. Never fails,
/// whatever the status and whatever the body holds.
pub fn classify_http_error(status: u16, body: &str) -> (e: ApiError)
    ensures
        e@ == classification(status, response_message(status, json_parse(body@))),
{
    let extracted = match parse(body) {
        Ok(doc) => extract_message(&doc),
        Err(_) => None,
    };
    classify_with_message(status, extracted)
}

/// The error for a client that could not be constructed.
pub fn client_failure(detail: &str) -> (e: ApiError)
    ensures
        e@ == client_failure_view(detail@),
{
    let mut message = "failed to create HTTP client: ".to_owned();
    message.append(detail);
    ApiError::NetworkError { message }
}

/// The error for a request that failed in transit; `timed_out` and
/// `connect` say what kind of failure the transport reported.
pub fn transport_failure(timed_out: bool, connect: bool, detail: &str) -> (e: ApiError)
    ensures
        e@ == transport_failure_view(timed_out, connect, detail@),
{
    if timed_out {
        ApiError::Timeout
    } else if connect {
        ApiError::NetworkError { message: "cannot connect to API server".to_owned() }
    } else {
        let mut message = "network request failed: ".to_owned();
        message.append(detail);
        ApiError::NetworkError { message }
    }
}

/// The error for a response body that could not be read as text.
pub fn read_failure(detail: &str) -> (e: ApiError)
    ensures
        e@ == read_failure_view(detail@),
{
    let mut message = "failed to read response: ".to_owned();
    message.append(detail);
    ApiError::ParseError { message }
}

/// Ends a call that got a response: a success status hands the body back
/// untouched, any other status is classified.
pub fn conclude(status: u16, text: String) -> (r: Result<String, ApiError>)
    ensures
        match r {
            Ok(body) => conclusion(status, text@) == Ok::<Seq<char>, ApiErrorView>(body@),
            Err(e) => conclusion(status, text@) == Err::<Seq<char>, ApiErrorView>(e@),
        },
{
    if 200 <= status && status < 300 {
        Ok(text)
    } else {
        Err(classify_http_error(status, text.as_str()))
    }
}

/// Classifying is a function of the status and the body: two
/// classifications of the same response are the same error.
pub proof fn lemma_classification_deterministic(
    status: u16,
    body: Seq<char>,
    first: ApiErrorView,
    second: ApiErrorView,
)
    requires
        first == classification(status, response_message(status, json_parse(body))),
        second == classification(status, response_message(status, json_parse(body))),
    ensures
        first == second,
{
}

/// Every status is classified, and into one of the three variants that
/// stand for a response: 401 and 403 give `AuthError`, 500 to 599 give
/// `ServerError`, all others give `ApiError`. The error keeps the status,
/// and it keeps the message unless the status is 429.
pub proof fn lemma_classification_total(status: u16, message: Seq<char>)
    ensures
        classification(status, message).status() == Some(status),
        classification(status, message) is AuthError <==> status == 401 || status == 403,
        classification(status, message) is ServerError <==> 500 <= status <= 599,
        classification(status, message) is ApiError <==> status != 401 && status != 403 && !(500
            <= status <= 599),
        status != 429 ==> classification(status, message).message() == Some(message),
        status == 429 ==> classification(status, message).message() == Some(rate_limit_message()),
{
}

/// The message of a response is never empty-handed: it is the body's own
/// message where the body is a document that has one, and `HTTP` with the
/// status in every other case, an unparseable body included.
pub proof fn lemma_response_message_cases(status: u16, parsed: Option<Json>)
    ensures
        parsed is None ==> response_message(status, parsed) == fallback_message(status),
        parsed is Some && body_message(parsed->0) is None ==> response_message(status, parsed)
            == fallback_message(status),
        parsed is Some && body_message(parsed->0) is Some ==> Some(
            response_message(status, parsed),
        ) == body_message(parsed->0),
        decimal(status as nat).is_suffix_of(fallback_message(status)),
{
}

/// A nested `error.message` string wins over a top-level `message`; the
/// top-level one is used where the nested one is missing or no string.
pub proof fn lemma_nested_message_first(doc: Json)
    ensures
        nested_message(doc) is Some ==> body_message(doc) == nested_message(doc),
        nested_message(doc) is None ==> body_message(doc) == top_message(doc),
        !(doc is Object) ==> body_message(doc) is None,
{
}

/// A success status hands the body back as it came, whatever it holds; any
/// other status yields an error that carries that status.
pub proof fn lemma_conclusion_cases(status: u16, text: Seq<char>)
    ensures
        is_success(status) ==> conclusion(status, text) == Ok::<Seq<char>, ApiErrorView>(text),
        !is_success(status) ==> conclusion(status, text) is Err && conclusion(
            status,
            text,
        )->Err_0.status() == Some(status),
{
}

} // verus!

//! Request interception: the commands that pause, fulfill and release
//! network requests.
use base64::{engine::general_purpose::STANDARD, Engine};
use vstd::prelude::*;
use vstd::string::*;

verus! {

/// Content type of a response served in place of a paused request.
pub const HTML_CONTENT_TYPE: &'static str = "text/html; charset=utf-8";

/// One HTTP header.
#[derive(Clone, Debug)]
pub struct HeaderEntry {
    pub name: String,
    pub value: String,
}

/// A command of the request-interception domain. `R` is the resource type
/// that an interception rule may be restricted to.
#[derive(Clone, Debug)]
pub enum FetchCommand<R> {
    /// Pause requests whose URL matches the glob `url_pattern` and, when
    /// given, whose resource type is `resource_type`.
    Enable { url_pattern: String, resource_type: Option<R>, handle_auth_requests: bool },
    /// Stop pausing requests.
    Disable,
    /// Answer a paused request with a synthetic response.
    Fulfill {
        request_id: String,
        response_code: i64,
        headers: Vec<HeaderEntry>,
        body_base64: String,
    },
    /// Release a paused request to the network unchanged.
    Continue { request_id: String },
}

/// Standard base64 (with padding) of the UTF-8 encoding of `text`.
pub uninterp spec fn base64_standard(text: Seq<char>) -> Seq<char>;

/// Relies on base64's `STANDARD.encode`: the padded standard base64 of the
/// string's UTF-8 bytes, which is empty for an empty string.
#[verifier::external_body]
fn encode_base64(text: &str) -> (r: String)
    ensures
        r@ == base64_standard(text@),
        text@.len() == 0 ==> r@.len() == 0,
{
    STANDARD.encode(text)
}

/// Turns interception on for `url_pattern`, optionally for one resource
/// type only; authentication challenges are not intercepted.
pub fn enable_interception<R>(url_pattern: &str, resource_type: Option<R>) -> (r: FetchCommand<R>)
    ensures
        r matches FetchCommand::Enable { url_pattern: p, resource_type: t, handle_auth_requests: a }
            && p@ == url_pattern@ && t == resource_type && !a,
{
    FetchCommand::Enable {
        url_pattern: String::from_str(url_pattern),
        resource_type,
        handle_auth_requests: false,
    }
}

/// Turns interception off.
pub fn disable_interception<R>() -> (r: FetchCommand<R>)
    ensures
        r is Disable,
{
    FetchCommand::Disable
}

/// Answers the paused request `request_id` with the already encoded body
/// `body_base64`, the status `status_code` and an HTML content type.
pub fn fulfill_with_encoded<R>(request_id: &str, body_base64: String, status_code: i64) -> (r:
    FetchCommand<R>)
    ensures
        r matches FetchCommand::Fulfill { request_id: id, response_code: c, headers: h, body_base64: b }
            && id@ == request_id@ && c == status_code && b@ == body_base64@ && h@.len() == 1
            && h@[0].name@ == "content-type"@ && h@[0].value@ == HTML_CONTENT_TYPE@,
{
    let mut headers: Vec<HeaderEntry> = Vec::new();
    headers.push(
        HeaderEntry {
            name: String::from_str("content-type"),
            value: String::from_str(HTML_CONTENT_TYPE),
        },
    );
    FetchCommand::Fulfill {
        request_id: String::from_str(request_id),
        response_code: status_code,
        headers,
        body_base64,
    }
}

/// Answers the paused request `request_id` with `html`, base64-encoded, the
/// status `status_code` and an HTML content type.
pub fn fulfill_with_html<R>(request_id: &str, html: &str, status_code: i64) -> (r: FetchCommand<R>)
    ensures
        r matches FetchCommand::Fulfill { request_id: id, response_code: c, headers: h, body_base64: b }
            && id@ == request_id@ && c == status_code && b@ == base64_standard(html@) && h@.len()
            == 1 && h@[0].name@ == "content-type"@ && h@[0].value@ == HTML_CONTENT_TYPE@,
{
    fulfill_with_encoded(request_id, encode_base64(html), status_code)
}

/// Releases the paused request `request_id` unchanged.
pub fn continue_unmodified<R>(request_id: &str) -> (r: FetchCommand<R>)
    ensures
        r matches FetchCommand::Continue { request_id: id } && id@ == request_id@,
{
    FetchCommand::Continue { request_id: String::from_str(request_id) }
}

} // verus!

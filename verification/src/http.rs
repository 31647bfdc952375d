//! The HTTP request that carries a chat request to the endpoint.

use crate::chat::{build_chat_request, chat_request_for};
use crate::json_body::{body_text, serialize};
use vstd::prelude::*;

verus! {

/// How the host treats a request to another origin.
#[derive(Clone, Copy, Debug, PartialEq, Eq, Structural)]
pub enum RequestMode {
    SameOrigin,
    NoCors,
    Cors,
    Navigate,
}

/// What a header is: the characters of its name and of its value.
pub struct HeaderModel {
    pub name: Seq<char>,
    pub value: Seq<char>,
}

/// One header of a request.
#[derive(Clone, Debug)]
pub struct Header {
    pub name: String,
    pub value: String,
}

impl View for Header {
    type V = HeaderModel;

    open spec fn view(&self) -> HeaderModel {
        HeaderModel { name: self.name@, value: self.value@ }
    }
}

/// What a request is, over plain sequences.
pub struct HttpRequestModel {
    pub method: Seq<char>,
    pub url: Seq<char>,
    pub mode: RequestMode,
    pub headers: Seq<HeaderModel>,
    pub body: Seq<char>,
}

/// A request for the host to dispatch. Headers are set in the order given.
#[derive(Clone, Debug)]
pub struct HttpRequest {
    pub method: String,
    pub url: String,
    pub mode: RequestMode,
    pub headers: Vec<Header>,
    pub body: String,
}

impl View for HttpRequest {
    type V = HttpRequestModel;

    open spec fn view(&self) -> HttpRequestModel {
        HttpRequestModel {
            method: self.method@,
            url: self.url@,
            mode: self.mode,
            headers: Seq::new(self.headers@.len(), |i: int| self.headers@[i]@),
            body: self.body@,
        }
    }
}

/// The method of every request.
pub open spec fn request_method() -> Seq<char> {
    "POST"@
}

/// The address of the chat-completion endpoint.
pub open spec fn endpoint_url() -> Seq<char> {
    "https://api.openai.com/v1/chat/completions"@
}

/// The value of the `Authorization` header for the credential `api_key`.
pub open spec fn bearer_value(api_key: Seq<char>) -> Seq<char> {
    "Bearer "@ + api_key
}

/// The headers of a request made with the credential `api_key`: the content
/// type, then the authorization.
pub open spec fn headers_for(api_key: Seq<char>) -> Seq<HeaderModel> {
    seq![
        HeaderModel { name: "Content-Type"@, value: "application/json"@ },
        HeaderModel { name: "Authorization"@, value: bearer_value(api_key) },
    ]
}

/// The request for the input `user_input` and the credential `api_key`.
pub open spec fn request_for(user_input: Seq<char>, api_key: Seq<char>) -> HttpRequestModel {
    HttpRequestModel {
        method: request_method(),
        url: endpoint_url(),
        mode: RequestMode::Cors,
        headers: headers_for(api_key),
        body: body_text(chat_request_for(user_input)),
    }
}

/// Writes the value of the `Authorization` header. The credential is used as
/// it is given: nothing is checked, trimmed or escaped.
pub fn bearer(api_key: &str) -> (out: String)
    ensures
        out@ == bearer_value(api_key@),
        out@ == "Bearer "@ + api_key@,
{
    let mut out = String::from_str("Bearer ");
    out.append(api_key);
    out
}

/// Builds the two headers of a request, in the order in which they are set.
pub fn build_headers(api_key: &str) -> (out: Vec<Header>)
    ensures
        out@.len() == 2,
        out@[0]@ == (HeaderModel { name: "Content-Type"@, value: "application/json"@ }),
        out@[1]@ == (HeaderModel { name: "Authorization"@, value: bearer_value(api_key@) }),
{
    let content_type = Header {
        name: String::from_str("Content-Type"),
        value: String::from_str("application/json"),
    };
    let authorization = Header { name: String::from_str("Authorization"), value: bearer(api_key) };
    let mut out: Vec<Header> = Vec::new();
    out.push(content_type);
    out.push(authorization);
    out
}

/// Builds the request to dispatch for one user input and one credential:
/// a cross-origin `POST` to the endpoint, with the two headers and the
/// serialized chat request as its body.
pub fn build_request(user_input: &str, api_key: &str) -> (out: HttpRequest)
    ensures
        out@ == request_for(user_input@, api_key@),
        out@.headers == headers_for(api_key@),
        out@.body == body_text(chat_request_for(user_input@)),
{
    let chat = build_chat_request(user_input);
    let body = serialize(&chat);
    let out = HttpRequest {
        method: String::from_str("POST"),
        url: String::from_str("https://api.openai.com/v1/chat/completions"),
        mode: RequestMode::Cors,
        headers: build_headers(api_key),
        body,
    };
    assert(out@.headers =~= headers_for(api_key@));
    out
}

} // verus!

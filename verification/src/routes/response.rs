//! Responses: status, content type and body.

use crate::error::EncodeError;
use vstd::prelude::*;
use vstd::string::*;

verus! {

/// Status 200: the request was served.
pub const OK: u16 = 200;

/// Status 201: a record was made.
pub const CREATED: u16 = 201;

/// Status 400: the request is not well formed.
pub const BAD_REQUEST: u16 = 400;

/// Status 404: there is no such record.
pub const NOT_FOUND: u16 = 404;

/// Status 500: the store failed.
pub const INTERNAL_SERVER_ERROR: u16 = 500;

/// The content type that a response names.
#[derive(Clone, Copy, Debug, PartialEq, Eq)]
pub enum ContentType {
    /// The response names none.
    Unspecified,
    /// `application/json`.
    Json,
}

/// A response: status, content type and body.
#[derive(Clone, Debug, PartialEq, Eq)]
pub struct HttpResponse {
    pub status: u16,
    pub content_type: ContentType,
    pub body: String,
}

/// A response as plain values.
pub struct HttpResponseView {
    pub status: u16,
    pub content_type: ContentType,
    pub body: Seq<char>,
}

impl View for HttpResponse {
    type V = HttpResponseView;

    open spec fn view(&self) -> HttpResponseView {
        HttpResponseView { status: self.status, content_type: self.content_type, body: self.body@ }
    }
}

/// The response with a body of plain text.
pub open spec fn text_response(status: u16, body: Seq<char>) -> HttpResponseView {
    HttpResponseView { status, content_type: ContentType::Unspecified, body }
}

/// The response with a body of JSON.
pub open spec fn json_response(status: u16, body: Seq<char>) -> HttpResponseView {
    HttpResponseView { status, content_type: ContentType::Json, body }
}

/// The response with a body of JSON, where the body could be written.
pub open spec fn json_response_of(status: u16, body: Option<Seq<char>>) -> Result<
    HttpResponseView,
    EncodeError,
> {
    match body {
        Some(text) => Ok(json_response(status, text)),
        None => Err(EncodeError {  }),
    }
}

/// A response as plain values, or the error in its place.
pub open spec fn responded(r: Result<HttpResponse, EncodeError>) -> Result<
    HttpResponseView,
    EncodeError,
> {
    match r {
        Ok(response) => Ok(response@),
        Err(e) => Err(e),
    }
}

/// Makes the response with a body of plain text.
pub(crate) fn respond_text(status: u16, body: &str) -> (r: HttpResponse)
    ensures
        r@ == text_response(status, body@),
{
    HttpResponse { status, content_type: ContentType::Unspecified, body: String::from_str(body) }
}

/// Makes the response with a body of JSON.
pub(crate) fn respond_json(status: u16, body: String) -> (r: HttpResponse)
    ensures
        r@ == json_response(status, body@),
{
    HttpResponse { status, content_type: ContentType::Json, body }
}

} // verus!

//! What passes between the library and the transport that carries its
//! requests: plain values in both directions.

use crate::errors::{ReplicateError, ReplicateErrorView};
use vstd::prelude::*;

verus! {

/// One header line of a request.
#[derive(Clone, Debug, PartialEq, Eq)]
pub struct Header {
    pub name: String,
    pub value: String,
}

/// Mathematical model of a [`Header`].
pub struct HeaderView {
    pub name: Seq<char>,
    pub value: Seq<char>,
}

impl View for Header {
    type V = HeaderView;

    open spec fn view(&self) -> HeaderView {
        HeaderView { name: self.name@, value: self.value@ }
    }
}

/// A `GET` request: the transport fetches `url` and sends `headers` with it.
#[derive(Clone, Debug, PartialEq, Eq)]
pub struct Request {
    pub url: String,
    pub headers: Vec<Header>,
}

/// Mathematical model of a [`Request`].
pub struct RequestView {
    pub url: Seq<char>,
    pub headers: Seq<HeaderView>,
}

/// Model of a list of headers.
pub open spec fn headers_view(headers: &Vec<Header>) -> Seq<HeaderView> {
    Seq::new(headers@.len(), |i: int| headers@[i]@)
}

impl View for Request {
    type V = RequestView;

    open spec fn view(&self) -> RequestView {
        RequestView { url: self.url@, headers: headers_view(&self.headers) }
    }
}

/// What came back for a request: the status code and the body as text.
#[derive(Clone, Debug, PartialEq, Eq)]
pub struct Response {
    pub status: u16,
    pub body: String,
}

/// Mathematical model of a [`Response`].
pub struct ResponseView {
    pub status: u16,
    pub body: Seq<char>,
}

impl View for Response {
    type V = ResponseView;

    open spec fn view(&self) -> ResponseView {
        ResponseView { status: self.status, body: self.body@ }
    }
}

/// What a transport hands back: the response, or its description of why none
/// arrived.
pub type Reply = Result<Response, String>;

/// Model of a [`Reply`].
pub open spec fn reply_view(reply: Reply) -> Result<ResponseView, Seq<char>> {
    match reply {
        Ok(response) => Ok(response@),
        Err(message) => Err(message@),
    }
}

/// The success range of status codes.
pub open spec fn is_success(status: u16) -> bool {
    200 <= status <= 299
}

/// What a reply yields before its body is looked into: the body where the
/// status is a success, the body as the error where it is not, and the
/// transport's message where there was no response.
pub open spec fn body_of(reply: Result<ResponseView, Seq<char>>) -> Result<
    Seq<char>,
    ReplicateErrorView,
> {
    match reply {
        Err(message) => Err(ReplicateErrorView::TransportError(message)),
        Ok(response) => if is_success(response.status) {
            Ok(response.body)
        } else {
            Err(ReplicateErrorView::ResponseError(response.body))
        },
    }
}

impl Response {
    /// Whether the status is in the success range.
    pub fn is_success(&self) -> (success: bool)
        ensures
            success == is_success(self.status),
    {
        200 <= self.status && self.status <= 299
    }
}

/// Takes the body out of a reply, or says why there is none to decode.
pub fn success_body(reply: Reply) -> (result: Result<String, ReplicateError>)
    ensures
        match result {
            Ok(body) => body_of(reply_view(reply)) == Ok::<Seq<char>, ReplicateErrorView>(body@),
            Err(error) => body_of(reply_view(reply)) == Err::<Seq<char>, ReplicateErrorView>(
                error@,
            ),
        },
{
    match reply {
        Err(message) => Err(ReplicateError::TransportError(message)),
        Ok(response) => {
            if response.is_success() {
                Ok(response.body)
            } else {
                Err(ReplicateError::ResponseError(response.body))
            }
        },
    }
}

} // verus!

//! The collections endpoints.
//!
//! Each call is one round trip: the client builds the request, the transport
//! that the caller hands in carries it, and the client turns the reply into a
//! value or an error. Nothing is retried, cached or followed.

use crate::api_definitions::{
    collection_of, page_of, GetCollectionModels, GetCollectionModelsView, ListCollectionModels,
    ListCollectionModelsView,
};
use crate::config::{Config, ConfigView};
use crate::errors::{
    outcome_view, DecodeError, DecodeErrorView, ReplicateError, ReplicateErrorView,
};
use crate::json::{parsed_document, Json, JsonView};
use crate::transport::{
    body_of, headers_view, is_success, reply_view, success_body, Header, HeaderView, Reply,
    Request, RequestView, ResponseView,
};
use vstd::prelude::*;
use vstd::string::StringExecFns;

verus! {

/// The headers of every request: the token and the user agent, in this order.
pub open spec fn credentials(config: ConfigView) -> Seq<HeaderView> {
    seq![
        HeaderView { name: "Authorization"@, value: "Token "@ + config.auth },
        HeaderView { name: "User-Agent"@, value: config.user_agent },
    ]
}

/// The request for one collection.
pub open spec fn get_request_view(config: ConfigView, slug: Seq<char>) -> RequestView {
    RequestView { url: config.base_url + "/collections/"@ + slug, headers: credentials(config) }
}

/// The request for the list of collections.
pub open spec fn list_request_view(config: ConfigView) -> RequestView {
    RequestView { url: config.base_url + "/collections"@, headers: credentials(config) }
}

/// What a reply to the request for one collection amounts to.
pub open spec fn get_outcome(reply: Result<ResponseView, Seq<char>>) -> Result<
    GetCollectionModelsView,
    ReplicateErrorView,
> {
    match body_of(reply) {
        Err(error) => Err(error),
        Ok(body) => match parsed_document(body) {
            None => Err(ReplicateErrorView::DecodeError(DecodeErrorView::Syntax)),
            Some(document) => match collection_of(document) {
                Ok(collection) => Ok(collection),
                Err(error) => Err(ReplicateErrorView::DecodeError(DecodeErrorView::Shape(error))),
            },
        },
    }
}

/// What a reply to the request for the list of collections amounts to.
pub open spec fn list_outcome(reply: Result<ResponseView, Seq<char>>) -> Result<
    ListCollectionModelsView,
    ReplicateErrorView,
> {
    match body_of(reply) {
        Err(error) => Err(error),
        Ok(body) => match parsed_document(body) {
            None => Err(ReplicateErrorView::DecodeError(DecodeErrorView::Syntax)),
            Some(document) => match page_of(document) {
                Ok(page) => Ok(page),
                Err(error) => Err(ReplicateErrorView::DecodeError(DecodeErrorView::Shape(error))),
            },
        },
    }
}

/// Client for the collections endpoints. It holds the settings and nothing
/// else: no state survives a call.
#[derive(Clone, Debug)]
pub struct Collection {
    /// Base URL, token and user agent of every request.
    pub parent: Config,
}

impl Collection {
    /// A client that sends its requests as `rep` says.
    pub fn new(rep: Config) -> (client: Collection)
        ensures
            client.parent == rep,
    {
        Collection { parent: rep }
    }

    fn headers(&self) -> (headers: Vec<Header>)
        ensures
            headers_view(&headers) == credentials(self.parent@),
    {
        let mut token = String::from_str("Token ");
        token.append(self.parent.auth.as_str());
        let mut headers: Vec<Header> = Vec::new();
        headers.push(Header { name: String::from_str("Authorization"), value: token });
        headers.push(
            Header { name: String::from_str("User-Agent"), value: self.parent.user_agent.clone() },
        );
        assert(headers_view(&headers) =~= credentials(self.parent@));
        headers
    }

    /// Builds the request for the collection with the slug `collection_slug`.
    /// The slug goes into the URL as it is.
    pub fn get_request(&self, collection_slug: &str) -> (request: Request)
        ensures
            request@ == get_request_view(self.parent@, collection_slug@),
    {
        let mut url = self.parent.base_url.clone();
        url.append("/collections/");
        url.append(collection_slug);
        Request { url, headers: self.headers() }
    }

    /// Builds the request for the list of collections.
    pub fn list_request(&self) -> (request: Request)
        ensures
            request@ == list_request_view(self.parent@),
    {
        let mut url = self.parent.base_url.clone();
        url.append("/collections");
        Request { url, headers: self.headers() }
    }

    /// Turns the reply to a request for one collection into the call's result.
    pub fn get_result(reply: Reply) -> (result: Result<GetCollectionModels, ReplicateError>)
        ensures
            outcome_view(result) == get_outcome(reply_view(reply)),
    {
        let body = success_body(reply)?;
        match Json::parse(body.as_str()) {
            Err(error) => Err(ReplicateError::DecodeError(error)),
            Ok(document) => match GetCollectionModels::from_json(&document) {
                Ok(collection) => Ok(collection),
                Err(error) => Err(ReplicateError::DecodeError(DecodeError::Shape(error))),
            },
        }
    }

    /// Turns the reply to a request for the list of collections into the
    /// call's result.
    pub fn list_result(reply: Reply) -> (result: Result<ListCollectionModels, ReplicateError>)
        ensures
            outcome_view(result) == list_outcome(reply_view(reply)),
    {
        let body = success_body(reply)?;
        match Json::parse(body.as_str()) {
            Err(error) => Err(ReplicateError::DecodeError(error)),
            Ok(document) => match ListCollectionModels::from_json(&document) {
                Ok(page) => Ok(page),
                Err(error) => Err(ReplicateError::DecodeError(DecodeError::Shape(error))),
            },
        }
    }

    /// Gets a collection by its slug: builds the request, has `send` carry
    /// it, once, and reads the reply.
    pub fn get<F>(&self, collection_slug: &str, send: F) -> (result: Result<
        GetCollectionModels,
        ReplicateError,
    >) where F: FnOnce(Request) -> Reply
        requires
            forall|request: Request|
                request@ == get_request_view(self.parent@, collection_slug@) ==> call_requires(
                    send,
                    (request,),
                ),
        ensures
            exists|request: Request, reply: Reply|
                request@ == get_request_view(self.parent@, collection_slug@) && call_ensures(
                    send,
                    (request,),
                    reply,
                ) && outcome_view(result) == get_outcome(reply_view(reply)),
    {
        let request = self.get_request(collection_slug);
        let ghost sent = request;
        let reply = send(request);
        let ghost received = reply;
        let result = Collection::get_result(reply);
        assert(call_ensures(send, (sent,), received));
        result
    }

    /// Lists the collections: builds the request, has `send` carry it, once,
    /// and reads the reply. The page's `next` and `previous` are not followed.
    pub fn list<F>(&self, send: F) -> (result: Result<
        ListCollectionModels,
        ReplicateError,
    >) where F: FnOnce(Request) -> Reply
        requires
            forall|request: Request|
                request@ == list_request_view(self.parent@) ==> call_requires(send, (request,)),
        ensures
            exists|request: Request, reply: Reply|
                request@ == list_request_view(self.parent@) && call_ensures(
                    send,
                    (request,),
                    reply,
                ) && outcome_view(result) == list_outcome(reply_view(reply)),
    {
        let request = self.list_request();
        let ghost sent = request;
        let reply = send(request);
        let ghost received = reply;
        let result = Collection::list_result(reply);
        assert(call_ensures(send, (sent,), received));
        result
    }
}

/// Every request carries two headers and no other: `Authorization` with the
/// word `Token`, a space and the configured token, and `User-Agent` with the
/// configured agent.
pub proof fn lemma_requests_carry_credentials(config: ConfigView, slug: Seq<char>)
    ensures
        get_request_view(config, slug).headers == list_request_view(config).headers,
        list_request_view(config).headers.len() == 2,
        list_request_view(config).headers[0] == (HeaderView {
            name: "Authorization"@,
            value: "Token "@ + config.auth,
        }),
        list_request_view(config).headers[1] == (HeaderView {
            name: "User-Agent"@,
            value: config.user_agent,
        }),
{
}

/// A response with a status in the success range and a body that denotes a
/// value of the expected shape is that value, for either endpoint.
pub proof fn lemma_success_decodes(response: ResponseView, document: JsonView)
    requires
        is_success(response.status),
        parsed_document(response.body) == Some(document),
    ensures
        collection_of(document) is Ok ==> get_outcome(Ok(response)) == Ok::<
            GetCollectionModelsView,
            ReplicateErrorView,
        >(collection_of(document)->Ok_0),
        page_of(document) is Ok ==> list_outcome(Ok(response)) == Ok::<
            ListCollectionModelsView,
            ReplicateErrorView,
        >(page_of(document)->Ok_0),
{
}

/// A response with a status outside the success range is a response error
/// that holds the body as it came, whatever the body is, for either endpoint.
pub proof fn lemma_failure_keeps_body(response: ResponseView)
    requires
        !is_success(response.status),
    ensures
        get_outcome(Ok(response)) == Err::<GetCollectionModelsView, ReplicateErrorView>(
            ReplicateErrorView::ResponseError(response.body),
        ),
        list_outcome(Ok(response)) == Err::<ListCollectionModelsView, ReplicateErrorView>(
            ReplicateErrorView::ResponseError(response.body),
        ),
{
}

/// A response with a status in the success range and a body that does not
/// denote a value of the expected shape is a decode error, for either
/// endpoint: a syntax error where the body is no JSON document, else the
/// reason why the document is of another shape.
pub proof fn lemma_malformed_body_is_decode_error(response: ResponseView)
    requires
        is_success(response.status),
    ensures
        parsed_document(response.body) is None ==> get_outcome(Ok(response)) == Err::<
            GetCollectionModelsView,
            ReplicateErrorView,
        >(ReplicateErrorView::DecodeError(DecodeErrorView::Syntax)) && list_outcome(Ok(response))
            == Err::<ListCollectionModelsView, ReplicateErrorView>(
            ReplicateErrorView::DecodeError(DecodeErrorView::Syntax),
        ),
        parsed_document(response.body) matches Some(document) ==> (collection_of(document) is Err
            ==> get_outcome(Ok(response)) == Err::<GetCollectionModelsView, ReplicateErrorView>(
            ReplicateErrorView::DecodeError(
                DecodeErrorView::Shape(collection_of(document)->Err_0),
            ),
        )) && (page_of(document) is Err ==> list_outcome(Ok(response)) == Err::<
            ListCollectionModelsView,
            ReplicateErrorView,
        >(ReplicateErrorView::DecodeError(DecodeErrorView::Shape(page_of(document)->Err_0)))),
{
}

/// A request that no response came back for is a transport error that holds
/// the transport's message, for either endpoint.
pub proof fn lemma_no_response_is_transport_error(message: Seq<char>)
    ensures
        get_outcome(Err(message)) == Err::<GetCollectionModelsView, ReplicateErrorView>(
            ReplicateErrorView::TransportError(message),
        ),
        list_outcome(Err(message)) == Err::<ListCollectionModelsView, ReplicateErrorView>(
            ReplicateErrorView::TransportError(message),
        ),
{
}

} // verus!

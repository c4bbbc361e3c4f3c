//! What is sent to the server and what comes back, as plain values.

use crate::error::{classified, wrap_error, ApiError, RequestError, TransportError};
use crate::json::{parsed_json, Json};
use vstd::prelude::*;

verus! {

/// Version of the API, the second segment of every endpoint's path.
pub const API_VERSION: &'static str = "v1";

/// The HTTP methods that the API is called with.
#[derive(Clone, Copy, Debug, PartialEq, Eq, Structural)]
pub enum Method {
    Get,
    Post,
}

/// A request for the transport to perform.
#[derive(Clone, Debug, PartialEq, Eq)]
pub struct Request {
    pub method: Method,
    /// Absolute URL, without a query string.
    pub url: String,
    /// Query parameters, to be encoded and appended to the URL in this order.
    pub query: Vec<(String, String)>,
    /// Header names, in lower case, with their values.
    pub headers: Vec<(String, String)>,
}

/// What the transport received for a request.
#[derive(Clone, Debug, PartialEq, Eq)]
pub struct Response {
    /// HTTP status code.
    pub status: u16,
    /// The body, as text.
    pub body: String,
}

/// The text of each pair of strings in `pairs`.
pub open spec fn pair_texts(pairs: Seq<(String, String)>) -> Seq<(Seq<char>, Seq<char>)> {
    pairs.map_values(|pair: (String, String)| (pair.0@, pair.1@))
}

/// A request, with its strings as sequences of characters.
pub struct RequestView {
    pub method: Method,
    pub url: Seq<char>,
    pub query: Seq<(Seq<char>, Seq<char>)>,
    pub headers: Seq<(Seq<char>, Seq<char>)>,
}

impl View for Request {
    type V = RequestView;

    open spec fn view(&self) -> RequestView {
        RequestView {
            method: self.method,
            url: self.url@,
            query: pair_texts(self.query@),
            headers: pair_texts(self.headers@),
        }
    }
}

impl RequestView {
    /// The same request with one more query parameter at the end.
    pub open spec fn with_query(self, name: Seq<char>, value: Seq<char>) -> RequestView {
        RequestView { query: self.query.push((name, value)), ..self }
    }
}

/// Whether `status` reports success.
pub open spec fn is_success(status: u16) -> bool {
    200 <= status < 300
}

/// What the transport reports for a request: the response, or why there is
/// none.
pub type Outcome = Result<Response, TransportError>;

/// The document that an outcome carries. Only a response with a status
/// between 200 and 299 and a JSON body carries one.
pub open spec fn received(outcome: Outcome) -> Result<Json, TransportError> {
    match outcome {
        Err(e) => Err(e),
        Ok(response) => if !is_success(response.status) {
            Err(TransportError::Status(response.status))
        } else {
            match parsed_json(response.body@) {
                Some(j) => Ok(j),
                None => Err(TransportError::Decode),
            }
        },
    }
}

/// The document that an outcome carries, with a rejection of the
/// credentials reported as such.
pub open spec fn dispatched(outcome: Outcome) -> Result<Json, RequestError> {
    match received(outcome) {
        Ok(j) => Ok(j),
        Err(e) => Err(classified(e)),
    }
}

/// A response with status 401 or 403 is reported as `NotAuthenticatedError`
/// with that status, whatever its body; one with any other status outside
/// 200 to 299 as the transport failure that it is.
pub proof fn lemma_status_rule(response: Response)
    ensures
        response.status == 401 || response.status == 403 ==> dispatched(Ok(response)) == Err::<
            Json,
            RequestError,
        >(RequestError::Api(ApiError::NotAuthenticatedError(response.status))),
        !is_success(response.status) && response.status != 401 && response.status != 403
            ==> dispatched(Ok(response)) == Err::<Json, RequestError>(
            RequestError::Transport(TransportError::Status(response.status)),
        ),
{
}

/// The URL of the endpoint `suffix` on `api_server`.
pub open spec fn endpoint_url(api_server: Seq<char>, suffix: Seq<char>) -> Seq<char> {
    api_server + "/"@ + API_VERSION@ + "/"@ + suffix
}

/// The value of the `authorization` header for `access_token`.
pub open spec fn bearer(access_token: Seq<char>) -> Seq<char> {
    "Bearer "@ + access_token
}

/// A `GET` for the endpoint `suffix` on `api_server`, authorised by
/// `access_token` and without query parameters.
pub open spec fn authenticated_get(
    api_server: Seq<char>,
    access_token: Seq<char>,
    suffix: Seq<char>,
) -> RequestView {
    RequestView {
        method: Method::Get,
        url: endpoint_url(api_server, suffix),
        query: Seq::empty(),
        headers: seq![("authorization"@, bearer(access_token))],
    }
}

/// Appends a pair of strings to `pairs`.
pub fn push_pair(pairs: &mut Vec<(String, String)>, name: &str, value: String)
    ensures
        pair_texts(final(pairs)@) == pair_texts(old(pairs)@).push((name@, value@)),
{
    pairs.push((String::from_str(name), value));
    assert(pair_texts(final(pairs)@) =~= pair_texts(old(pairs)@).push((name@, value@)));
}

/// Tells whether `status` reports success.
pub fn status_is_success(status: u16) -> (r: bool)
    ensures
        r == is_success(status),
{
    200 <= status && status < 300
}

/// Takes the JSON document out of an outcome.
pub fn receive(outcome: Outcome) -> (r: Result<Json, TransportError>)
    ensures
        r == received(outcome),
{
    match outcome {
        Err(e) => Err(e),
        Ok(response) => {
            if !status_is_success(response.status) {
                Err(TransportError::Status(response.status))
            } else {
                match Json::parse(response.body.as_str()) {
                    Some(j) => Ok(j),
                    None => Err(TransportError::Decode),
                }
            }
        },
    }
}

/// Takes the JSON document out of an outcome; a failure that carries status
/// 401 or 403 becomes `NotAuthenticatedError`.
pub fn dispatch(outcome: Outcome) -> (r: Result<Json, RequestError>)
    ensures
        r == dispatched(outcome),
{
    match receive(outcome) {
        Ok(j) => Ok(j),
        Err(e) => Err(wrap_error(e)),
    }
}

impl Request {
    /// Builds the `GET` for the endpoint `suffix` on `api_server`, authorised
    /// by `access_token`.
    pub fn get(api_server: &str, access_token: &str, suffix: &str) -> (r: Request)
        ensures
            r@ == authenticated_get(api_server@, access_token@, suffix@),
    {
        let mut url = String::from_str(api_server);
        url.append("/");
        url.append(API_VERSION);
        url.append("/");
        url.append(suffix);
        let mut authorization = String::from_str("Bearer ");
        authorization.append(access_token);
        let mut headers: Vec<(String, String)> = Vec::new();
        push_pair(&mut headers, "authorization", authorization);
        let r = Request { method: Method::Get, url, query: Vec::new(), headers };
        assert(r@.query =~= Seq::empty());
        assert(r@.headers =~= seq![("authorization"@, bearer(access_token@))]);
        r
    }

    /// Adds a query parameter after those already there.
    pub fn add_query(&mut self, name: &str, value: String)
        ensures
            final(self)@ == old(self)@.with_query(name@, value@),
    {
        push_pair(&mut self.query, name, value);
    }
}

} // verus!

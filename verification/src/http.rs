//! Requests to Discord's REST API: their URLs, and the token that
//! authorizes them.

use vstd::prelude::*;
use crate::API_URL;

verus! {

/// An HTTP client, as `reqwest` holds it.
#[verifier::external_type_specification]
#[verifier::external_body]
pub struct ExClient(reqwest::Client);

/// An HTTP method, as `reqwest` holds it.
#[verifier::external_type_specification]
#[verifier::external_body]
pub struct ExMethod(reqwest::Method);

/// A request being built, as `reqwest` holds it.
#[verifier::external_type_specification]
#[verifier::external_body]
pub struct ExRequestBuilder(reqwest::RequestBuilder);

/// A request ready to be sent, as `reqwest` holds it.
#[verifier::external_type_specification]
#[verifier::external_body]
pub struct ExRequest(reqwest::Request);

/// An error of `reqwest`.
#[verifier::external_type_specification]
#[verifier::external_body]
pub struct ExReqwestError(reqwest::Error);

/// The URL of a path of the API: the path follows the base URL, which ends
/// with a `/`, so that exactly one `/` stands between them; a `/` at the
/// start of the path is dropped.
pub open spec fn api_url(path: Seq<char>) -> Seq<char> {
    if path.len() > 0 && path[0] == '/' {
        API_URL@ + path.skip(1)
    } else {
        API_URL@ + path
    }
}

/// Builds the URL of a path of the API.
pub fn build_url(path: &str) -> (url: String)
    ensures
        url@ == api_url(path@),
{
    let mut url = String::from_str(API_URL);
    let len = path.unicode_len();
    if len > 0 && path.get_char(0) == '/' {
        url.append(path.substring_char(1, len));
    } else {
        url.append(path);
    }
    url
}

/// The value of the `Authorization` header that carries `token`.
pub open spec fn authorization_value(token: Seq<char>) -> Seq<char> {
    "Bot "@ + token
}

/// The builder that `reqwest::RequestBuilder::header` returns when it adds an
/// `Authorization` header with `value` to `builder`: the header is appended,
/// or, if `value` is no valid header value, the error is kept for `build`.
pub uninterp spec fn with_authorization(builder: reqwest::RequestBuilder, value: Seq<char>) -> reqwest::RequestBuilder;

/// Whether the header map of `builder` can take one more entry: `http`'s
/// `HeaderMap::append`, which `reqwest::RequestBuilder::header` calls,
/// panics when the map is at its maximum capacity.
pub uninterp spec fn has_header_room(builder: reqwest::RequestBuilder) -> bool;

/// The builder that `reqwest::Client::request` returns for `method` and
/// `url` on `client`.
pub uninterp spec fn request_for(client: reqwest::Client, method: reqwest::Method, url: Seq<char>) -> reqwest::RequestBuilder;

/// Starts a request with `method` to `url` on `client`:
/// `reqwest::Client::request`. Its result is stated as a function of its
/// arguments alone, `request_for`. Its header map has room: the request it
/// starts holds no header but the one that credentials in the URL add.
#[verifier::external_body]
fn new_request(client: &reqwest::Client, method: reqwest::Method, url: String) -> (res: reqwest::RequestBuilder)
    ensures
        res == request_for(*client, method, url@),
        has_header_room(res),
{
    client.request(method, url)
}

/// What `reqwest::RequestBuilder::build` returns for `builder`: the request
/// it holds, or the error it kept.
pub uninterp spec fn built(builder: reqwest::RequestBuilder) -> Result<reqwest::Request, reqwest::Error>;

/// The `Authorization` value of a token is `Bot `, a space, then the whole
/// token, whatever its length.
pub proof fn lemma_authorization_value(token: Seq<char>)
    ensures
        authorization_value(token).len() == token.len() + 4,
        authorization_value(token).take(4) == seq!['B', 'o', 't', ' '],
        authorization_value(token).skip(4) == token,
{
    reveal_strlit("Bot ");
    assert(authorization_value(token).take(4) =~= seq!['B', 'o', 't', ' ']);
    assert(authorization_value(token).skip(4) =~= token);
}

/// Every API URL starts with the base URL, a path that does not start with a
/// `/` follows it whole, and a `/` in front of a path changes nothing.
pub proof fn lemma_api_url(path: Seq<char>)
    ensures
        api_url(path).take(API_URL@.len() as int) == API_URL@,
        (path.len() == 0 || path[0] != '/') ==> api_url(path).skip(API_URL@.len() as int) == path,
        (path.len() == 0 || path[0] != '/') ==> api_url(seq!['/'] + path) == api_url(path),
{
    assert(api_url(path).take(API_URL@.len() as int) =~= API_URL@);
    if path.len() == 0 || path[0] != '/' {
        assert(api_url(path).skip(API_URL@.len() as int) =~= path);
        assert((seq!['/'] + path).skip(1) =~= path);
    } else {
        assert(api_url(path) =~= API_URL@ + path.skip(1));
    }
}

/// Adds an `Authorization` header with `value` to the request:
/// `reqwest::RequestBuilder::header`. Its result is stated as a function of
/// its arguments alone, `with_authorization`; what that builder holds is not
/// stated. It is called only on a builder whose header map has room, since
/// the call panics on a full one.
#[verifier::external_body]
fn header_authorization(builder: reqwest::RequestBuilder, value: String) -> (res: reqwest::RequestBuilder)
    requires
        has_header_room(builder),
    ensures
        res == with_authorization(builder, value@),
{
    builder.header(reqwest::header::AUTHORIZATION, value)
}

/// Finishes the request: `reqwest::RequestBuilder::build`. Its result is
/// stated as a function of the builder alone, `built`; what the request or
/// the error holds is not stated.
#[verifier::external_body]
fn finish_request(builder: reqwest::RequestBuilder) -> (res: Result<reqwest::Request, reqwest::Error>)
    ensures
        res == built(builder),
{
    builder.build()
}

/// A request being built, and whether it must carry the application's token.
pub struct HttpRequestBuilder {
    pub request_builder: reqwest::RequestBuilder,
    require_token: bool,
}

impl HttpRequestBuilder {
    /// Whether the request must carry the application's token.
    pub closed spec fn requires_token(&self) -> bool {
        self.require_token
    }

    /// The request being built.
    pub closed spec fn request(&self) -> reqwest::RequestBuilder {
        self.request_builder
    }

    /// A request that carries the application's token.
    pub fn new(request_builder: reqwest::RequestBuilder) -> (res: Self)
        ensures
            res.request() == request_builder,
            res.requires_token(),
    {
        Self { request_builder, require_token: true }
    }

    /// A request with `method` to the API's `path` on `client`, which must
    /// carry the application's token.
    pub fn api_request(client: &reqwest::Client, method: reqwest::Method, path: &str) -> (res: Self)
        ensures
            res.request() == request_for(*client, method, api_url(path@)),
            has_header_room(res.request()),
            res.requires_token(),
    {
        let url = build_url(path);
        Self::new(new_request(client, method, url))
    }

    /// Sets whether the request must carry the application's token.
    pub fn require_token(self, require_token: bool) -> (res: Self)
        ensures
            res.request() == self.request(),
            res.requires_token() == require_token,
    {
        let mut s = self;
        s.require_token = require_token;
        s
    }

    /// The `Authorization` header that the request gets with `token`, if any.
    pub fn authorization(&self, token: &str) -> (value: Option<String>)
        ensures
            self.requires_token() ==> value is Some && value->0@ == authorization_value(token@),
            self.requires_token() ==> value is Some && value->0@ == "Bot "@ + token@,
            !self.requires_token() ==> value is None,
    {
        if self.require_token {
            let mut value = String::from_str("Bot ");
            value.append(token);
            Some(value)
        } else {
            None
        }
    }

    /// Builds the request, with an `Authorization` header that carries
    /// `token` when the request must carry it. Adding that header panics
    /// when the request's header map is full, which neither `reqwest` nor
    /// `http` lets a caller test beforehand; such a request is left out.
    pub fn build(self, token: &str) -> (res: Result<reqwest::Request, reqwest::Error>)
        requires
            self.requires_token() ==> has_header_room(self.request()),
        ensures
            self.requires_token() ==> res == built(
                with_authorization(self.request(), authorization_value(token@)),
            ),
            !self.requires_token() ==> res == built(self.request()),
    {
        match self.authorization(token) {
            Some(value) => finish_request(header_authorization(self.request_builder, value)),
            None => finish_request(self.request_builder),
        }
    }
}

} // verus!

//! The authentication session and the token exchange that yields it.

use crate::decode::{read_string, read_u64, string_from, u64_from, FromJson};
use crate::error::{ApiError, RequestError};
use crate::json::{find, lookup, Json};
use crate::request::{push_pair, receive, received, Method, Outcome, Request, RequestView};
use crate::text::{lemma_without_trailing, trim_trailing_slashes, without_trailing};
use crate::time::Instant;
use vstd::prelude::*;

verus! {

/// The URL that tokens are exchanged at: one for practice accounts, one for
/// live accounts.
pub open spec fn login_url(is_demo: bool) -> Seq<char> {
    if is_demo {
        "https://practicelogin.questrade.com/oauth2/token"@
    } else {
        "https://login.questrade.com/oauth2/token"@
    }
}

/// Gets the authentication url.
pub fn get_url(is_demo: bool) -> (r: &'static str)
    ensures
        r@ == login_url(is_demo),
{
    if is_demo {
        "https://practicelogin.questrade.com/oauth2/token"
    } else {
        "https://login.questrade.com/oauth2/token"
    }
}

/// Authentication token information.
#[derive(Clone, Debug, PartialEq, Eq)]
pub struct AuthenticationInfo {
    /// Token used to refresh access token.
    pub refresh_token: String,
    /// Token to use for queries.
    pub access_token: String,
    /// Reading of the caller's clock at which the access token expires.
    pub expires_at: Instant,
    /// API server to connect to for queries, without a slash at its end.
    pub api_server: String,
    /// Flag to indicate a practice account is in use.
    pub is_demo: bool,
}

/// An [`AuthenticationInfo`], with its strings as sequences of characters.
pub struct Session {
    pub refresh_token: Seq<char>,
    pub access_token: Seq<char>,
    pub expires_at: Instant,
    pub api_server: Seq<char>,
    pub is_demo: bool,
}

impl Session {
    /// Whether the server of the session is written as every token exchange
    /// leaves it: without a slash at its end.
    pub open spec fn wf(self) -> bool {
        self.api_server.len() > 0 ==> self.api_server.last() != '/'
    }
}

impl View for AuthenticationInfo {
    type V = Session;

    open spec fn view(&self) -> Session {
        Session {
            refresh_token: self.refresh_token@,
            access_token: self.access_token@,
            expires_at: self.expires_at,
            api_server: self.api_server@,
            is_demo: self.is_demo,
        }
    }
}

/// What the server sends in answer to a token exchange.
#[derive(Clone, Debug, PartialEq, Eq)]
pub struct TokenResponse {
    /// The refresh token for the next exchange; it supersedes the one sent.
    pub refresh_token: String,
    /// The bearer credential for the endpoints.
    pub access_token: String,
    /// Lifetime of the access token, in seconds.
    pub expires_in: u64,
    /// Base URL for the endpoints.
    pub api_server: String,
}

impl FromJson for TokenResponse {
    open spec fn wf(&self) -> bool {
        true
    }

    open spec fn decoded(j: Json) -> Result<TokenResponse, ApiError> {
        match j {
            Json::Object(members) => {
                let m = members@;
                let refresh_token = string_from(lookup(m, "refresh_token"@), "refresh_token");
                let access_token = string_from(lookup(m, "access_token"@), "access_token");
                let expires_in = u64_from(lookup(m, "expires_in"@), "expires_in");
                let api_server = string_from(lookup(m, "api_server"@), "api_server");
                if refresh_token is Err {
                    Err(refresh_token->Err_0)
                } else if access_token is Err {
                    Err(access_token->Err_0)
                } else if expires_in is Err {
                    Err(expires_in->Err_0)
                } else if api_server is Err {
                    Err(api_server->Err_0)
                } else {
                    Ok(
                        TokenResponse {
                            refresh_token: refresh_token->Ok_0,
                            access_token: access_token->Ok_0,
                            expires_in: expires_in->Ok_0,
                            api_server: api_server->Ok_0,
                        },
                    )
                }
            },
            _ => Err(ApiError::InvalidTypeError("TokenResponse", "object")),
        }
    }

    fn from_json(j: &Json) -> (r: Result<TokenResponse, ApiError>) {
        match j {
            Json::Object(members) => {
                let refresh_token = read_string(find(members, "refresh_token"), "refresh_token")?;
                let access_token = read_string(find(members, "access_token"), "access_token")?;
                let expires_in = read_u64(find(members, "expires_in"), "expires_in")?;
                let api_server = read_string(find(members, "api_server"), "api_server")?;
                Ok(TokenResponse { refresh_token, access_token, expires_in, api_server })
            },
            _ => Err(ApiError::InvalidTypeError("TokenResponse", "object")),
        }
    }
}

/// The request that exchanges `refresh_token`: a `POST` without a body to the
/// login server for practice accounts or for live ones.
pub open spec fn token_exchange(refresh_token: Seq<char>, is_demo: bool) -> RequestView {
    RequestView {
        method: Method::Post,
        url: login_url(is_demo),
        query: seq![("grant_type"@, "refresh_token"@), ("refresh_token"@, refresh_token)],
        headers: seq![("content-length"@, "0"@), ("accept"@, "application/json"@)],
    }
}

/// The session that a token response grants when it is received at
/// `received_at`: it expires `expires_in` seconds later, and its server is
/// the one sent without the slashes at its end. A lifetime that reaches past
/// the last instant of the clock is refused.
pub open spec fn granted(token: TokenResponse, is_demo: bool, received_at: Instant) -> Result<
    Session,
    ApiError,
> {
    if received_at.secs + token.expires_in > u64::MAX {
        Err(ApiError::InvalidTypeError("expires_in", "lifetime"))
    } else {
        Ok(
            Session {
                refresh_token: token.refresh_token@,
                access_token: token.access_token@,
                expires_at: received_at.plus_secs(token.expires_in),
                api_server: without_trailing(token.api_server@, '/'),
                is_demo,
            },
        )
    }
}

/// The session that the outcome of a token exchange grants. A failure of the
/// exchange is passed on as it is: with no session yet, status 401 or 403 is
/// a transport failure like any other.
pub open spec fn exchanged(outcome: Outcome, is_demo: bool, received_at: Instant) -> Result<
    Session,
    RequestError,
> {
    match received(outcome) {
        Err(e) => Err(RequestError::Transport(e)),
        Ok(j) => match TokenResponse::decoded(j) {
            Err(e) => Err(RequestError::Api(e)),
            Ok(token) => match granted(token, is_demo, received_at) {
                Err(e) => Err(RequestError::Api(e)),
                Ok(session) => Ok(session),
            },
        },
    }
}

/// Whether `r` holds exactly the session, or the failure, that `expected`
/// names.
pub open spec fn session_is<E>(r: Result<AuthenticationInfo, E>, expected: Result<Session, E>)
    -> bool {
    match expected {
        Ok(session) => r is Ok && r->Ok_0@ == session,
        Err(e) => r == Err::<AuthenticationInfo, E>(e),
    }
}

/// A granted session expires exactly `expires_in` seconds after the response
/// was received, keeps the practice flag it was asked with, and names a server
/// that is the one sent up to its trailing slashes and ends in none.
pub proof fn lemma_granted_session(token: TokenResponse, is_demo: bool, received_at: Instant)
    requires
        granted(token, is_demo, received_at) is Ok,
    ensures
        ({
            let session = granted(token, is_demo, received_at)->Ok_0;
            let sent = token.api_server@;
            &&& session.wf()
            &&& session.expires_at.secs == received_at.secs + token.expires_in
            &&& session.expires_at.nanos == received_at.nanos
            &&& session.is_demo == is_demo
            &&& session.api_server.len() <= sent.len()
            &&& session.api_server == sent.subrange(0, session.api_server.len() as int)
            &&& session.api_server.len() > 0 ==> session.api_server.last() != '/'
            &&& forall|i: int| session.api_server.len() <= i < sent.len() ==> sent[i] == '/'
        }),
{
    lemma_without_trailing(token.api_server@, '/');
}

impl AuthenticationInfo {
    /// Builds the request that exchanges `refresh_token` for a session.
    pub fn refresh_access_token(refresh_token: &str, is_demo: bool) -> (r: Request)
        ensures
            r@ == token_exchange(refresh_token@, is_demo),
    {
        let mut query: Vec<(String, String)> = Vec::new();
        push_pair(&mut query, "grant_type", String::from_str("refresh_token"));
        push_pair(&mut query, "refresh_token", String::from_str(refresh_token));
        let mut headers: Vec<(String, String)> = Vec::new();
        push_pair(&mut headers, "content-length", String::from_str("0"));
        push_pair(&mut headers, "accept", String::from_str("application/json"));
        let url = String::from_str(get_url(is_demo));
        let r = Request { method: Method::Post, url, query, headers };
        assert(r@.query =~= token_exchange(refresh_token@, is_demo).query);
        assert(r@.headers =~= token_exchange(refresh_token@, is_demo).headers);
        r
    }

    /// Builds the request that authenticates with the specified token.
    pub fn authenticate(refresh_token: &str, is_demo: bool) -> (r: Request)
        ensures
            r@ == token_exchange(refresh_token@, is_demo),
    {
        Self::refresh_access_token(refresh_token, is_demo)
    }

    /// Builds the request that renews this session: the exchange of its own
    /// refresh token, with its own practice flag.
    pub fn refresh(&self) -> (r: Request)
        ensures
            r@ == token_exchange(self.refresh_token@, self.is_demo),
    {
        Self::refresh_access_token(self.refresh_token.as_str(), self.is_demo)
    }

    /// Makes the session that `token` grants when it is received at
    /// `received_at`.
    pub fn from_token(token: TokenResponse, is_demo: bool, received_at: Instant) -> (r: Result<
        AuthenticationInfo,
        ApiError,
    >)
        ensures
            session_is(r, granted(token, is_demo, received_at)),
            r matches Ok(session) ==> session@.wf(),
    {
        proof {
            lemma_without_trailing(token.api_server@, '/');
        }
        match received_at.checked_add_secs(token.expires_in) {
            None => Err(ApiError::InvalidTypeError("expires_in", "lifetime")),
            Some(expires_at) => {
                let api_server = trim_trailing_slashes(token.api_server.as_str());
                Ok(
                    AuthenticationInfo {
                        refresh_token: token.refresh_token,
                        access_token: token.access_token,
                        expires_at,
                        api_server,
                        is_demo,
                    },
                )
            },
        }
    }

    /// Makes the session that the outcome of a token exchange grants, where
    /// the answer was received at `received_at`.
    pub fn from_response(outcome: Outcome, is_demo: bool, received_at: Instant) -> (r: Result<
        AuthenticationInfo,
        RequestError,
    >)
        ensures
            session_is(r, exchanged(outcome, is_demo, received_at)),
            r matches Ok(session) ==> session@.wf(),
    {
        match receive(outcome) {
            Err(e) => Err(RequestError::Transport(e)),
            Ok(j) => match TokenResponse::from_json(&j) {
                Err(e) => Err(RequestError::Api(e)),
                Ok(token) => match Self::from_token(token, is_demo, received_at) {
                    Err(e) => Err(RequestError::Api(e)),
                    Ok(session) => Ok(session),
                },
            },
        }
    }

    /// A copy of the session.
    pub fn duplicate(&self) -> (r: AuthenticationInfo)
        ensures
            r == *self,
    {
        AuthenticationInfo {
            refresh_token: self.refresh_token.clone(),
            access_token: self.access_token.clone(),
            expires_at: self.expires_at,
            api_server: self.api_server.clone(),
            is_demo: self.is_demo,
        }
    }
}

} // verus!

//! The authentication flows: which request each one sends, and the
//! credentials that a granted access token turns into.
use vstd::prelude::*;
use crate::credentials::{Credentials, Error, Token};
use crate::encoding::{encode_query, pairs_view, push_field, query_of};
use crate::link::LinkOptions;
use crate::options::AuthOptions;

verus! {

/// The endpoints of the authentication flows.
#[derive(Debug, Clone, Copy, PartialEq, Eq, Structural)]
pub enum Route {
    AuthEmailRequest,
    AuthEmailExchange,
    AuthGog,
    AuthItchio,
    AuthOculus,
    AuthSteam,
    LinkAccount,
}

/// A request to send: its endpoint and its form-encoded body.
pub struct Request {
    pub route: Route,
    pub body: String,
}

/// An access token as granted by the server.
pub struct AccessToken {
    pub value: String,
    pub expired_at: Option<u64>,
}

/// The authentication flow of a client that holds `credentials`.
///
/// Each flow sends one request; an exchange then consumes the flow and hands
/// back new credentials.
pub struct Auth {
    credentials: Credentials,
}

impl View for Auth {
    type V = Credentials;

    closed spec fn view(&self) -> Credentials {
        self.credentials
    }
}

/// The body made of one field.
fn single_field(name: &'static str, value: &str) -> (r: String)
    ensures
        r@ == query_of(seq![(name@, value@)]),
{
    let mut v: Vec<(&'static str, String)> = Vec::new();
    push_field(&mut v, name, value.to_owned());
    assert(pairs_view(v@) =~= seq![(name@, value@)]);
    encode_query(&v)
}

impl Auth {
    pub fn new(credentials: Credentials) -> (r: Auth)
        ensures
            r@ == credentials,
    {
        Auth { credentials }
    }

    /// The request that has a security code sent to the user's email.
    pub fn request_code(&self, email: &str) -> (r: Request)
        ensures
            r.route == Route::AuthEmailRequest,
            r.body@ == query_of(seq![("email"@, email@)]),
    {
        Request { route: Route::AuthEmailRequest, body: single_field("email", email) }
    }

    /// The request that exchanges a security code for an access token.
    pub fn security_code(&self, code: &str) -> (r: Request)
        ensures
            r.route == Route::AuthEmailExchange,
            r.body@ == query_of(seq![("security_code"@, code@)]),
    {
        Request { route: Route::AuthEmailExchange, body: single_field("security_code", code) }
    }

    /// The request that authenticates through an external provider.
    pub fn external(&self, options: &AuthOptions) -> (r: Request)
        ensures
            match options {
                AuthOptions::Gog(o) => r.route == Route::AuthGog && r.body@ == query_of(o@),
                AuthOptions::Itchio(o) => r.route == Route::AuthItchio && r.body@ == query_of(o@),
                AuthOptions::Oculus(o) => r.route == Route::AuthOculus && r.body@ == query_of(o@),
                AuthOptions::Steam(o) => r.route == Route::AuthSteam && r.body@ == query_of(o@),
            },
    {
        match options {
            AuthOptions::Gog(o) => Request { route: Route::AuthGog, body: o.to_query_string() },
            AuthOptions::Itchio(o) => Request {
                route: Route::AuthItchio,
                body: o.to_query_string(),
            },
            AuthOptions::Oculus(o) => Request {
                route: Route::AuthOculus,
                body: o.to_query_string(),
            },
            AuthOptions::Steam(o) => Request { route: Route::AuthSteam, body: o.to_query_string() },
        }
    }

    /// The request that links an external account. It needs an access token.
    pub fn link(&self, options: &LinkOptions) -> (r: Result<Request, Error>)
        ensures
            self@.token is None <==> r is Err,
            r is Err ==> r->Err_0 == Error::TokenRequired,
            r is Ok ==> r->Ok_0.route == Route::LinkAccount && r->Ok_0.body@ == query_of(
                options@,
            ),
    {
        if self.credentials.token.is_none() {
            return Err(Error::TokenRequired);
        }
        Ok(Request { route: Route::LinkAccount, body: options.to_query_string() })
    }

    /// The credentials after the server granted `token`: the same API key with
    /// the new token. The flow is spent.
    pub fn exchange(self, token: AccessToken) -> (r: Credentials)
        ensures
            r.api_key == self@.api_key,
            r.token == Some(Token { value: token.value, expired_at: token.expired_at }),
    {
        Credentials {
            api_key: self.credentials.api_key,
            token: Some(Token { value: token.value, expired_at: token.expired_at }),
        }
    }
}

} // verus!

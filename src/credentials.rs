//! API key, access token and the authentication errors.
use vstd::prelude::*;

verus! {

/// mod.io credentials: an API key with an optional OAuth2 access token.
#[derive(Clone)]
pub struct Credentials {
    pub api_key: String,
    pub token: Option<Token>,
}

/// An access token and the optional Unix timestamp at which it expires.
#[derive(Clone)]
pub struct Token {
    pub value: String,
    pub expired_at: Option<u64>,
}

impl PartialEq for Token {
    fn eq(&self, other: &Token) -> (r: bool)
        ensures
            r == (self.value@ == other.value@ && self.expired_at == other.expired_at),
    {
        self.value == other.value && match (self.expired_at, other.expired_at) {
            (Some(a), Some(b)) => a == b,
            (None, None) => true,
            _ => false,
        }
    }
}

impl vstd::std_specs::cmp::PartialEqSpecImpl for Token {
    open spec fn obeys_eq_spec() -> bool {
        true
    }

    open spec fn eq_spec(&self, other: &Token) -> bool {
        self.value@ == other.value@ && self.expired_at == other.expired_at
    }
}

impl PartialEq for Credentials {
    fn eq(&self, other: &Credentials) -> (r: bool)
        ensures
            r == (self.api_key@ == other.api_key@ && token_eq(self.token, other.token)),
    {
        self.api_key == other.api_key && match (&self.token, &other.token) {
            (Some(a), Some(b)) => a.eq(b),
            (None, None) => true,
            _ => false,
        }
    }
}

impl vstd::std_specs::cmp::PartialEqSpecImpl for Credentials {
    open spec fn obeys_eq_spec() -> bool {
        true
    }

    open spec fn eq_spec(&self, other: &Credentials) -> bool {
        self.api_key@ == other.api_key@ && token_eq(self.token, other.token)
    }
}

/// Two optional tokens are equal: both absent, or both present with equal fields.
pub open spec fn token_eq(a: Option<Token>, b: Option<Token>) -> bool {
    match (a, b) {
        (Some(x), Some(y)) => x.value@ == y.value@ && x.expired_at == y.expired_at,
        (None, None) => true,
        _ => false,
    }
}

/// The redacted rendering of credentials: it tells only whether a token is held.
pub open spec fn redacted_of(has_token: bool) -> Seq<char> {
    if has_token {
        "Credentials(apikey+token)"@
    } else {
        "Credentials(apikey)"@
    }
}

impl Credentials {
    /// Credentials made of an API key alone.
    pub fn new(api_key: &str) -> (r: Credentials)
        ensures
            r.api_key@ == api_key@,
            r.token is None,
    {
        Credentials { api_key: api_key.to_owned(), token: None }
    }

    /// Credentials made of an API key and an access token without expiry.
    pub fn with_token(api_key: &str, token: &str) -> (r: Credentials)
        ensures
            r.api_key@ == api_key@,
            r.token is Some,
            r.token->0.value@ == token@,
            r.token->0.expired_at is None,
    {
        Credentials {
            api_key: api_key.to_owned(),
            token: Some(Token { value: token.to_owned(), expired_at: None }),
        }
    }

    /// The debug rendering, which shows neither the key nor the token.
    pub fn to_debug_string(&self) -> (r: String)
        ensures
            r@ == redacted_of(self.token is Some),
    {
        if self.token.is_some() {
            "Credentials(apikey+token)".to_owned()
        } else {
            "Credentials(apikey)".to_owned()
        }
    }
}

/// Whatever the key and the token hold, two credentials that agree on whether
/// a token is present are rendered alike: the rendering reveals no value.
pub proof fn lemma_rendering_reveals_only_presence(a: Credentials, b: Credentials)
    requires
        (a.token is Some) == (b.token is Some),
    ensures
        redacted_of(a.token is Some) == redacted_of(b.token is Some),
        redacted_of(a.token is Some).len() > 0,
{
    reveal_strlit("Credentials(apikey+token)");
    reveal_strlit("Credentials(apikey)");
}

/// An authentication error.
#[derive(Debug, Clone, Copy, PartialEq, Eq, Structural)]
pub enum Error {
    /// The API key or access token is incorrect, revoked or expired.
    Unauthorized,
    /// An access token is required to perform the action.
    TokenRequired,
}

impl Error {
    /// The message for the error.
    pub fn message(&self) -> (r: &'static str)
        ensures
            r@ == match self {
                Error::Unauthorized => "Unauthorized"@,
                Error::TokenRequired => "Access token is required"@,
            },
    {
        match self {
            Error::Unauthorized => "Unauthorized",
            Error::TokenRequired => "Access token is required",
        }
    }
}

} // verus!

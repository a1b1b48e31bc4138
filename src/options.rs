//! Options of the external authentication providers: each is a field set
//! whose names are kept in ascending order.
use vstd::prelude::*;
use crate::encoding::{
    decimal, decimal_of, encode_query, keys_ascending, lemma_lex_lt_asymmetric, lex_lt,
    pairs_view, push_field, query_of, set_field,
};

verus! {

/// The `date_expires` entry, if an expiry is set.
pub open spec fn expiry_pair(expired_at: Option<u64>) -> Seq<(Seq<char>, Seq<char>)> {
    match expired_at {
        Some(t) => seq![("date_expires"@, decimal_of(t as nat))],
        None => seq![],
    }
}

/// The `email` entry, if an email is set.
pub open spec fn email_pair(email: Option<String>) -> Seq<(Seq<char>, Seq<char>)> {
    match email {
        Some(e) => seq![("email"@, e@)],
        None => seq![],
    }
}

/// The field names of all providers, in ascending order.
pub proof fn lemma_field_names_ordered()
    ensures
        lex_lt("appdata"@, "auth_token"@),
        lex_lt("appdata"@, "date_expires"@),
        lex_lt("appdata"@, "email"@),
        lex_lt("auth_token"@, "date_expires"@),
        lex_lt("auth_token"@, "email"@),
        lex_lt("auth_token"@, "nonce"@),
        lex_lt("auth_token"@, "user_id"@),
        lex_lt("date_expires"@, "email"@),
        lex_lt("date_expires"@, "itchio_token"@),
        lex_lt("date_expires"@, "nonce"@),
        lex_lt("date_expires"@, "user_id"@),
        lex_lt("email"@, "itchio_token"@),
        lex_lt("email"@, "nonce"@),
        lex_lt("email"@, "user_id"@),
        lex_lt("nonce"@, "user_id"@),
{
    reveal_strlit("appdata");
    reveal_strlit("auth_token");
    reveal_strlit("date_expires");
    reveal_strlit("email");
    reveal_strlit("itchio_token");
    reveal_strlit("nonce");
    reveal_strlit("user_id");
    reveal_with_fuel(lex_lt, 3);
}

/// On a ticket (Galaxy, Steam), the email and the expiry land in the same
/// places whichever is set first: `appdata`, `date_expires`, `email`.
pub proof fn lemma_ticket_options_order(ticket: Seq<char>, email: Seq<char>, expiry: Seq<char>)
    ensures
        set_field(seq![("appdata"@, ticket)], "email"@, email) == seq![
            ("appdata"@, ticket),
            ("email"@, email),
        ],
        set_field(seq![("appdata"@, ticket)], "date_expires"@, expiry) == seq![
            ("appdata"@, ticket),
            ("date_expires"@, expiry),
        ],
        set_field(set_field(seq![("appdata"@, ticket)], "email"@, email), "date_expires"@, expiry)
            == seq![("appdata"@, ticket), ("date_expires"@, expiry), ("email"@, email)],
        set_field(set_field(seq![("appdata"@, ticket)], "date_expires"@, expiry), "email"@, email)
            == seq![("appdata"@, ticket), ("date_expires"@, expiry), ("email"@, email)],
{
    lemma_field_names_ordered();
    lemma_lex_lt_asymmetric("appdata"@, "email"@);
    lemma_lex_lt_asymmetric("appdata"@, "date_expires"@);
    lemma_lex_lt_asymmetric("date_expires"@, "email"@);
    reveal_with_fuel(set_field, 4);
    let t = seq![("appdata"@, ticket)];
    assert(set_field(t, "email"@, email) =~= seq![("appdata"@, ticket), ("email"@, email)]);
    assert(set_field(t, "date_expires"@, expiry) =~= seq![
        ("appdata"@, ticket),
        ("date_expires"@, expiry),
    ]);
    assert(set_field(set_field(t, "email"@, email), "date_expires"@, expiry) =~= seq![
        ("appdata"@, ticket),
        ("date_expires"@, expiry),
        ("email"@, email),
    ]);
    assert(set_field(set_field(t, "date_expires"@, expiry), "email"@, email) =~= seq![
        ("appdata"@, ticket),
        ("date_expires"@, expiry),
        ("email"@, email),
    ]);
}

/// On an itch.io token, the email and the expiry land in the same places
/// whichever is set first: `date_expires`, `email`, `itchio_token`.
pub proof fn lemma_itchio_options_order(token: Seq<char>, email: Seq<char>, expiry: Seq<char>)
    ensures
        set_field(seq![("itchio_token"@, token)], "email"@, email) == seq![
            ("email"@, email),
            ("itchio_token"@, token),
        ],
        set_field(seq![("itchio_token"@, token)], "date_expires"@, expiry) == seq![
            ("date_expires"@, expiry),
            ("itchio_token"@, token),
        ],
        set_field(
            set_field(seq![("itchio_token"@, token)], "email"@, email),
            "date_expires"@,
            expiry,
        ) == seq![("date_expires"@, expiry), ("email"@, email), ("itchio_token"@, token)],
        set_field(
            set_field(seq![("itchio_token"@, token)], "date_expires"@, expiry),
            "email"@,
            email,
        ) == seq![("date_expires"@, expiry), ("email"@, email), ("itchio_token"@, token)],
{
    lemma_field_names_ordered();
    lemma_lex_lt_asymmetric("email"@, "itchio_token"@);
    lemma_lex_lt_asymmetric("date_expires"@, "itchio_token"@);
    lemma_lex_lt_asymmetric("date_expires"@, "email"@);
    reveal_with_fuel(set_field, 4);
    let t = seq![("itchio_token"@, token)];
    assert(set_field(t, "email"@, email) =~= seq![("email"@, email), ("itchio_token"@, token)]);
    assert(set_field(t, "date_expires"@, expiry) =~= seq![
        ("date_expires"@, expiry),
        ("itchio_token"@, token),
    ]);
    assert(set_field(set_field(t, "email"@, email), "date_expires"@, expiry) =~= seq![
        ("date_expires"@, expiry),
        ("email"@, email),
        ("itchio_token"@, token),
    ]);
    assert(set_field(set_field(t, "date_expires"@, expiry), "email"@, email) =~= seq![
        ("date_expires"@, expiry),
        ("email"@, email),
        ("itchio_token"@, token),
    ]);
}

/// On an Oculus user, the email and the expiry land in the same places
/// whichever is set first: `auth_token`, `date_expires`, `email`, `nonce`,
/// `user_id`.
pub proof fn lemma_oculus_options_order(
    nonce: Seq<char>,
    user_id: Seq<char>,
    auth_token: Seq<char>,
    email: Seq<char>,
    expiry: Seq<char>,
)
    ensures
        ({
            let base = seq![
                ("auth_token"@, auth_token),
                ("nonce"@, nonce),
                ("user_id"@, user_id),
            ];
            let full = seq![
                ("auth_token"@, auth_token),
                ("date_expires"@, expiry),
                ("email"@, email),
                ("nonce"@, nonce),
                ("user_id"@, user_id),
            ];
            &&& set_field(base, "email"@, email) == seq![
                ("auth_token"@, auth_token),
                ("email"@, email),
                ("nonce"@, nonce),
                ("user_id"@, user_id),
            ]
            &&& set_field(base, "date_expires"@, expiry) == seq![
                ("auth_token"@, auth_token),
                ("date_expires"@, expiry),
                ("nonce"@, nonce),
                ("user_id"@, user_id),
            ]
            &&& set_field(set_field(base, "email"@, email), "date_expires"@, expiry) == full
            &&& set_field(set_field(base, "date_expires"@, expiry), "email"@, email) == full
        }),
{
    lemma_field_names_ordered();
    lemma_lex_lt_asymmetric("auth_token"@, "email"@);
    lemma_lex_lt_asymmetric("auth_token"@, "date_expires"@);
    lemma_lex_lt_asymmetric("date_expires"@, "email"@);
    lemma_lex_lt_asymmetric("date_expires"@, "nonce"@);
    lemma_lex_lt_asymmetric("email"@, "nonce"@);
    reveal_with_fuel(set_field, 6);
    let base = seq![("auth_token"@, auth_token), ("nonce"@, nonce), ("user_id"@, user_id)];
    let with_email = seq![
        ("auth_token"@, auth_token),
        ("email"@, email),
        ("nonce"@, nonce),
        ("user_id"@, user_id),
    ];
    let with_expiry = seq![
        ("auth_token"@, auth_token),
        ("date_expires"@, expiry),
        ("nonce"@, nonce),
        ("user_id"@, user_id),
    ];
    let full = seq![
        ("auth_token"@, auth_token),
        ("date_expires"@, expiry),
        ("email"@, email),
        ("nonce"@, nonce),
        ("user_id"@, user_id),
    ];
    assert(base.drop_first().drop_first() =~= seq![("user_id"@, user_id)]);
    assert(set_field(base, "email"@, email) =~= with_email);
    assert(set_field(base, "date_expires"@, expiry) =~= with_expiry);
    assert(set_field(with_email, "date_expires"@, expiry) =~= full);
    assert(set_field(with_expiry, "email"@, email) =~= full);
}

/// Authentication options for an encrypted GOG Galaxy app ticket.
pub struct GalaxyOptions {
    ticket: String,
    email: Option<String>,
    expired_at: Option<u64>,
}

impl View for GalaxyOptions {
    type V = Seq<(Seq<char>, Seq<char>)>;

    closed spec fn view(&self) -> Seq<(Seq<char>, Seq<char>)> {
        seq![("appdata"@, self.ticket@)] + expiry_pair(self.expired_at) + email_pair(self.email)
    }
}

impl GalaxyOptions {
    pub fn new(ticket: &str) -> (r: Self)
        ensures
            r@ == seq![("appdata"@, ticket@)],
    {
        let r = GalaxyOptions { ticket: ticket.to_owned(), email: None, expired_at: None };
        assert(r@ =~= seq![("appdata"@, ticket@)]);
        r
    }

    /// Sets the email address, replacing an earlier one.
    pub fn email(self, email: &str) -> (r: Self)
        ensures
            r@ == set_field(self@, "email"@, email@),
    {
        let r = GalaxyOptions { email: Some(email.to_owned()), ..self };
        proof {
            lemma_field_names_ordered();
            lemma_lex_lt_asymmetric("appdata"@, "email"@);
            lemma_lex_lt_asymmetric("date_expires"@, "email"@);
            reveal_with_fuel(set_field, 4);
            assert(set_field(self@, "email"@, email@) =~= r@);
        }
        r
    }

    /// Sets the Unix timestamp at which the returned token expires. It should
    /// lie at most a common year ahead.
    pub fn expired_at(self, expired_at: u64) -> (r: Self)
        ensures
            r@ == set_field(self@, "date_expires"@, decimal_of(expired_at as nat)),
    {
        let r = GalaxyOptions { expired_at: Some(expired_at), ..self };
        proof {
            lemma_field_names_ordered();
            lemma_lex_lt_asymmetric("appdata"@, "date_expires"@);
            lemma_lex_lt_asymmetric("date_expires"@, "email"@);
            reveal_with_fuel(set_field, 4);
            assert(set_field(self@, "date_expires"@, decimal_of(expired_at as nat)) =~= r@);
        }
        r
    }

    fn fields(&self) -> (r: Vec<(&'static str, String)>)
        ensures
            pairs_view(r@) == self@,
    {
        let mut v: Vec<(&'static str, String)> = Vec::new();
        push_field(&mut v, "appdata", self.ticket.clone());
        if let Some(t) = self.expired_at {
            push_field(&mut v, "date_expires", decimal(t));
        }
        if let Some(e) = &self.email {
            push_field(&mut v, "email", e.clone());
        }
        assert(pairs_view(v@) =~= self@);
        v
    }

    /// The form-encoded request body.
    pub fn to_query_string(&self) -> (r: String)
        ensures
            r@ == query_of(self@),
    {
        encode_query(&self.fields())
    }

    /// The names stand in ascending order, whichever fields are set.
    pub proof fn lemma_keys_ascending(&self)
        ensures
            keys_ascending(self@),
    {
        lemma_field_names_ordered();
    }
}

/// Authentication options for an encrypted Steam app ticket.
pub struct SteamOptions {
    ticket: String,
    email: Option<String>,
    expired_at: Option<u64>,
}

impl View for SteamOptions {
    type V = Seq<(Seq<char>, Seq<char>)>;

    closed spec fn view(&self) -> Seq<(Seq<char>, Seq<char>)> {
        seq![("appdata"@, self.ticket@)] + expiry_pair(self.expired_at) + email_pair(self.email)
    }
}

impl SteamOptions {
    pub fn new(ticket: &str) -> (r: Self)
        ensures
            r@ == seq![("appdata"@, ticket@)],
    {
        let r = SteamOptions { ticket: ticket.to_owned(), email: None, expired_at: None };
        assert(r@ =~= seq![("appdata"@, ticket@)]);
        r
    }

    /// Sets the email address, replacing an earlier one.
    pub fn email(self, email: &str) -> (r: Self)
        ensures
            r@ == set_field(self@, "email"@, email@),
    {
        let r = SteamOptions { email: Some(email.to_owned()), ..self };
        proof {
            lemma_field_names_ordered();
            lemma_lex_lt_asymmetric("appdata"@, "email"@);
            lemma_lex_lt_asymmetric("date_expires"@, "email"@);
            reveal_with_fuel(set_field, 4);
            assert(set_field(self@, "email"@, email@) =~= r@);
        }
        r
    }

    /// Sets the Unix timestamp at which the returned token expires. It should
    /// lie at most a common year ahead.
    pub fn expired_at(self, expired_at: u64) -> (r: Self)
        ensures
            r@ == set_field(self@, "date_expires"@, decimal_of(expired_at as nat)),
    {
        let r = SteamOptions { expired_at: Some(expired_at), ..self };
        proof {
            lemma_field_names_ordered();
            lemma_lex_lt_asymmetric("appdata"@, "date_expires"@);
            lemma_lex_lt_asymmetric("date_expires"@, "email"@);
            reveal_with_fuel(set_field, 4);
            assert(set_field(self@, "date_expires"@, decimal_of(expired_at as nat)) =~= r@);
        }
        r
    }

    fn fields(&self) -> (r: Vec<(&'static str, String)>)
        ensures
            pairs_view(r@) == self@,
    {
        let mut v: Vec<(&'static str, String)> = Vec::new();
        push_field(&mut v, "appdata", self.ticket.clone());
        if let Some(t) = self.expired_at {
            push_field(&mut v, "date_expires", decimal(t));
        }
        if let Some(e) = &self.email {
            push_field(&mut v, "email", e.clone());
        }
        assert(pairs_view(v@) =~= self@);
        v
    }

    /// The form-encoded request body.
    pub fn to_query_string(&self) -> (r: String)
        ensures
            r@ == query_of(self@),
    {
        encode_query(&self.fields())
    }

    /// The names stand in ascending order, whichever fields are set.
    pub proof fn lemma_keys_ascending(&self)
        ensures
            keys_ascending(self@),
    {
        lemma_field_names_ordered();
    }
}

/// Authentication options for an itch.io JWT token.
pub struct ItchioOptions {
    token: String,
    email: Option<String>,
    expired_at: Option<u64>,
}

impl View for ItchioOptions {
    type V = Seq<(Seq<char>, Seq<char>)>;

    closed spec fn view(&self) -> Seq<(Seq<char>, Seq<char>)> {
        expiry_pair(self.expired_at) + email_pair(self.email) + seq![("itchio_token"@, self.token@)]
    }
}

impl ItchioOptions {
    pub fn new(token: &str) -> (r: Self)
        ensures
            r@ == seq![("itchio_token"@, token@)],
    {
        let r = ItchioOptions { token: token.to_owned(), email: None, expired_at: None };
        assert(r@ =~= seq![("itchio_token"@, token@)]);
        r
    }

    /// Sets the email address, replacing an earlier one.
    pub fn email(self, email: &str) -> (r: Self)
        ensures
            r@ == set_field(self@, "email"@, email@),
    {
        let r = ItchioOptions { email: Some(email.to_owned()), ..self };
        proof {
            lemma_field_names_ordered();
            lemma_lex_lt_asymmetric("email"@, "itchio_token"@);
            lemma_lex_lt_asymmetric("date_expires"@, "email"@);
            reveal_with_fuel(set_field, 4);
            assert(set_field(self@, "email"@, email@) =~= r@);
        }
        r
    }

    /// Sets the Unix timestamp at which the returned token expires. It should
    /// lie at most a week ahead.
    pub fn expired_at(self, expired_at: u64) -> (r: Self)
        ensures
            r@ == set_field(self@, "date_expires"@, decimal_of(expired_at as nat)),
    {
        let r = ItchioOptions { expired_at: Some(expired_at), ..self };
        proof {
            lemma_field_names_ordered();
            lemma_lex_lt_asymmetric("date_expires"@, "itchio_token"@);
            lemma_lex_lt_asymmetric("date_expires"@, "email"@);
            reveal_with_fuel(set_field, 4);
            assert(set_field(self@, "date_expires"@, decimal_of(expired_at as nat)) =~= r@);
        }
        r
    }

    fn fields(&self) -> (r: Vec<(&'static str, String)>)
        ensures
            pairs_view(r@) == self@,
    {
        let mut v: Vec<(&'static str, String)> = Vec::new();
        if let Some(t) = self.expired_at {
            push_field(&mut v, "date_expires", decimal(t));
        }
        if let Some(e) = &self.email {
            push_field(&mut v, "email", e.clone());
        }
        push_field(&mut v, "itchio_token", self.token.clone());
        assert(pairs_view(v@) =~= self@);
        v
    }

    /// The form-encoded request body.
    pub fn to_query_string(&self) -> (r: String)
        ensures
            r@ == query_of(self@),
    {
        encode_query(&self.fields())
    }

    /// The names stand in ascending order, whichever fields are set.
    pub proof fn lemma_keys_ascending(&self)
        ensures
            keys_ascending(self@),
    {
        lemma_field_names_ordered();
    }
}

/// Authentication options for an Oculus user.
pub struct OculusOptions {
    nonce: String,
    user_id: u64,
    auth_token: String,
    email: Option<String>,
    expired_at: Option<u64>,
}

impl View for OculusOptions {
    type V = Seq<(Seq<char>, Seq<char>)>;

    closed spec fn view(&self) -> Seq<(Seq<char>, Seq<char>)> {
        seq![("auth_token"@, self.auth_token@)] + expiry_pair(self.expired_at) + email_pair(
            self.email,
        ) + seq![("nonce"@, self.nonce@), ("user_id"@, decimal_of(self.user_id as nat))]
    }
}

impl OculusOptions {
    pub fn new(nonce: &str, user_id: u64, auth_token: &str) -> (r: Self)
        ensures
            r@ == seq![
                ("auth_token"@, auth_token@),
                ("nonce"@, nonce@),
                ("user_id"@, decimal_of(user_id as nat)),
            ],
    {
        let r = OculusOptions {
            nonce: nonce.to_owned(),
            user_id,
            auth_token: auth_token.to_owned(),
            email: None,
            expired_at: None,
        };
        assert(r@ =~= seq![
            ("auth_token"@, auth_token@),
            ("nonce"@, nonce@),
            ("user_id"@, decimal_of(user_id as nat)),
        ]);
        r
    }

    /// Sets the email address, replacing an earlier one.
    pub fn email(self, email: &str) -> (r: Self)
        ensures
            r@ == set_field(self@, "email"@, email@),
    {
        let r = OculusOptions { email: Some(email.to_owned()), ..self };
        proof {
            lemma_field_names_ordered();
            lemma_lex_lt_asymmetric("auth_token"@, "email"@);
            lemma_lex_lt_asymmetric("date_expires"@, "email"@);
            lemma_lex_lt_asymmetric("email"@, "nonce"@);
            reveal_with_fuel(set_field, 6);
            assert(set_field(self@, "email"@, email@) =~= r@);
        }
        r
    }

    /// Sets the Unix timestamp at which the returned token expires. It should
    /// lie at most a common year ahead.
    pub fn expired_at(self, expired_at: u64) -> (r: Self)
        ensures
            r@ == set_field(self@, "date_expires"@, decimal_of(expired_at as nat)),
    {
        let r = OculusOptions { expired_at: Some(expired_at), ..self };
        proof {
            lemma_field_names_ordered();
            lemma_lex_lt_asymmetric("auth_token"@, "date_expires"@);
            lemma_lex_lt_asymmetric("date_expires"@, "email"@);
            lemma_lex_lt_asymmetric("date_expires"@, "nonce"@);
            reveal_with_fuel(set_field, 6);
            assert(set_field(self@, "date_expires"@, decimal_of(expired_at as nat)) =~= r@);
        }
        r
    }

    fn fields(&self) -> (r: Vec<(&'static str, String)>)
        ensures
            pairs_view(r@) == self@,
    {
        let mut v: Vec<(&'static str, String)> = Vec::new();
        push_field(&mut v, "auth_token", self.auth_token.clone());
        if let Some(t) = self.expired_at {
            push_field(&mut v, "date_expires", decimal(t));
        }
        if let Some(e) = &self.email {
            push_field(&mut v, "email", e.clone());
        }
        push_field(&mut v, "nonce", self.nonce.clone());
        push_field(&mut v, "user_id", decimal(self.user_id));
        assert(pairs_view(v@) =~= self@);
        v
    }

    /// The form-encoded request body.
    pub fn to_query_string(&self) -> (r: String)
        ensures
            r@ == query_of(self@),
    {
        encode_query(&self.fields())
    }

    /// The names stand in ascending order, whichever fields are set.
    pub proof fn lemma_keys_ascending(&self)
        ensures
            keys_ascending(self@),
    {
        lemma_field_names_ordered();
    }
}

/// The options of one external provider, to pick its route by.
pub enum AuthOptions {
    Gog(GalaxyOptions),
    Itchio(ItchioOptions),
    Oculus(OculusOptions),
    Steam(SteamOptions),
}

impl From<GalaxyOptions> for AuthOptions {
    fn from(options: GalaxyOptions) -> (r: AuthOptions)
        ensures
            r == AuthOptions::Gog(options),
    {
        AuthOptions::Gog(options)
    }
}

impl vstd::std_specs::convert::FromSpecImpl<GalaxyOptions> for AuthOptions {
    open spec fn obeys_from_spec() -> bool {
        true
    }

    open spec fn from_spec(options: GalaxyOptions) -> AuthOptions {
        AuthOptions::Gog(options)
    }
}

impl From<ItchioOptions> for AuthOptions {
    fn from(options: ItchioOptions) -> (r: AuthOptions)
        ensures
            r == AuthOptions::Itchio(options),
    {
        AuthOptions::Itchio(options)
    }
}

impl vstd::std_specs::convert::FromSpecImpl<ItchioOptions> for AuthOptions {
    open spec fn obeys_from_spec() -> bool {
        true
    }

    open spec fn from_spec(options: ItchioOptions) -> AuthOptions {
        AuthOptions::Itchio(options)
    }
}

impl From<OculusOptions> for AuthOptions {
    fn from(options: OculusOptions) -> (r: AuthOptions)
        ensures
            r == AuthOptions::Oculus(options),
    {
        AuthOptions::Oculus(options)
    }
}

impl vstd::std_specs::convert::FromSpecImpl<OculusOptions> for AuthOptions {
    open spec fn obeys_from_spec() -> bool {
        true
    }

    open spec fn from_spec(options: OculusOptions) -> AuthOptions {
        AuthOptions::Oculus(options)
    }
}

impl From<SteamOptions> for AuthOptions {
    fn from(options: SteamOptions) -> (r: AuthOptions)
        ensures
            r == AuthOptions::Steam(options),
    {
        AuthOptions::Steam(options)
    }
}

impl vstd::std_specs::convert::FromSpecImpl<SteamOptions> for AuthOptions {
    open spec fn obeys_from_spec() -> bool {
        true
    }

    open spec fn from_spec(options: SteamOptions) -> AuthOptions {
        AuthOptions::Steam(options)
    }
}

} // verus!

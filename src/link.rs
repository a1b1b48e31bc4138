//! Options for linking an external account to the authenticated user.
use vstd::prelude::*;
use crate::encoding::{
    decimal, decimal_of, encode_query, form_component, is_unreserved, is_unreserved_char,
    pairs_view, push_field, query_of,
};

verus! {

/// The external service and the account id on it.
enum Service {
    Steam(u64),
    Gog(u64),
    Itchio(u64),
}

/// The fields of a link request.
pub open spec fn link_pairs(email: Seq<char>, service: Seq<char>, id: u64) -> Seq<
    (Seq<char>, Seq<char>),
> {
    seq![("email"@, email), ("service"@, service), ("service_id"@, decimal_of(id as nat))]
}

/// Options for connecting an external account with the authenticated user's
/// email address.
pub struct LinkOptions {
    email: String,
    service: Service,
}

impl View for LinkOptions {
    type V = Seq<(Seq<char>, Seq<char>)>;

    closed spec fn view(&self) -> Seq<(Seq<char>, Seq<char>)> {
        match self.service {
            Service::Steam(id) => link_pairs(self.email@, "steam"@, id),
            Service::Gog(id) => link_pairs(self.email@, "gog"@, id),
            Service::Itchio(id) => link_pairs(self.email@, "itch"@, id),
        }
    }
}

impl LinkOptions {
    pub fn steam(email: &str, steam_id: u64) -> (r: Self)
        ensures
            r@ == link_pairs(email@, "steam"@, steam_id),
    {
        LinkOptions { email: email.to_owned(), service: Service::Steam(steam_id) }
    }

    pub fn gog(email: &str, gog_id: u64) -> (r: Self)
        ensures
            r@ == link_pairs(email@, "gog"@, gog_id),
    {
        LinkOptions { email: email.to_owned(), service: Service::Gog(gog_id) }
    }

    pub fn itchio(email: &str, itchio_id: u64) -> (r: Self)
        ensures
            r@ == link_pairs(email@, "itch"@, itchio_id),
    {
        LinkOptions { email: email.to_owned(), service: Service::Itchio(itchio_id) }
    }

    /// The form-encoded request body.
    pub fn to_query_string(&self) -> (r: String)
        ensures
            r@ == query_of(self@),
    {
        let (service, id): (&'static str, u64) = match self.service {
            Service::Steam(id) => ("steam", id),
            Service::Gog(id) => ("gog", id),
            Service::Itchio(id) => ("itch", id),
        };
        let mut v: Vec<(&'static str, String)> = Vec::new();
        push_field(&mut v, "email", self.email.clone());
        push_field(&mut v, "service", service.to_owned());
        push_field(&mut v, "service_id", decimal(id));
        assert(pairs_view(v@) =~= self@);
        encode_query(&v)
    }
}

/// Decimal notation uses digits alone, which form encoding keeps.
pub proof fn lemma_decimal_unreserved(n: nat)
    ensures
        is_unreserved(decimal_of(n)),
    decreases n,
{
    if n >= 10 {
        lemma_decimal_unreserved(n / 10);
    }
    assert forall|i: int| 0 <= i < decimal_of(n).len() implies is_unreserved_char(
        #[trigger] decimal_of(n)[i],
    ) by {
        if n >= 10 && i < decimal_of(n).len() - 1 {
            assert(decimal_of(n)[i] == decimal_of(n / 10)[i]);
        }
    }
}

/// A Steam link request encodes to `email=<email>&service=steam&service_id=<id>`,
/// the email encoded and the id in decimal.
pub proof fn lemma_steam_link_query(email: Seq<char>, steam_id: u64)
    ensures
        query_of(link_pairs(email, "steam"@, steam_id)) == "email="@ + form_component(email)
            + "&service=steam&service_id="@ + decimal_of(steam_id as nat),
{
    reveal_strlit("email");
    reveal_strlit("service");
    reveal_strlit("service_id");
    reveal_strlit("steam");
    reveal_strlit("email=");
    reveal_strlit("&service=steam&service_id=");
    lemma_decimal_unreserved(steam_id as nat);
    let p = link_pairs(email, "steam"@, steam_id);
    assert(is_unreserved("email"@));
    assert(is_unreserved("service"@));
    assert(is_unreserved("service_id"@));
    assert(is_unreserved("steam"@));
    assert(p.drop_last().drop_last() =~= seq![p[0]]);
    reveal_with_fuel(query_of, 3);
    assert(query_of(p) =~= "email="@ + form_component(email) + "&service=steam&service_id="@
        + decimal_of(steam_id as nat));
}

} // verus!

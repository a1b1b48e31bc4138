use modio_auth::credentials::{Credentials, Error, Token};
use modio_auth::flow::{AccessToken, Auth, Route};
use modio_auth::link::LinkOptions;
use modio_auth::options::{AuthOptions, GalaxyOptions, ItchioOptions, OculusOptions, SteamOptions};

#[test]
fn mandatory_fields_only() {
    assert_eq!(GalaxyOptions::new("T1").to_query_string(), "appdata=T1");
    assert_eq!(SteamOptions::new("ticket").to_query_string(), "appdata=ticket");
    assert_eq!(ItchioOptions::new("jwt").to_query_string(), "itchio_token=jwt");
    assert_eq!(
        OculusOptions::new("n", 42, "tok").to_query_string(),
        "auth_token=tok&nonce=n&user_id=42"
    );
}

#[test]
fn galaxy_email_only() {
    let q = GalaxyOptions::new("T1").email("a@b.com").to_query_string();
    assert_eq!(q, "appdata=T1&email=a%40b.com");
    assert!(!q.contains("date_expires"));
}

#[test]
fn galaxy_optional_fields_in_either_order() {
    let a = GalaxyOptions::new("t").email("e").expired_at(7).to_query_string();
    let b = GalaxyOptions::new("t").expired_at(7).email("e").to_query_string();
    assert_eq!(a, "appdata=t&date_expires=7&email=e");
    assert_eq!(a, b);
}

#[test]
fn steam_optional_fields_in_either_order() {
    let a = SteamOptions::new("t").email("e").expired_at(31536000).to_query_string();
    let b = SteamOptions::new("t").expired_at(31536000).email("e").to_query_string();
    assert_eq!(a, "appdata=t&date_expires=31536000&email=e");
    assert_eq!(a, b);
}

#[test]
fn itchio_optional_fields_in_either_order() {
    let a = ItchioOptions::new("t").email("e").expired_at(604800).to_query_string();
    let b = ItchioOptions::new("t").expired_at(604800).email("e").to_query_string();
    assert_eq!(a, "date_expires=604800&email=e&itchio_token=t");
    assert_eq!(a, b);
    assert_eq!(ItchioOptions::new("t").expired_at(1).to_query_string(), "date_expires=1&itchio_token=t");
}

#[test]
fn oculus_without_optional_fields() {
    assert_eq!(
        OculusOptions::new("n", 42, "tok").to_query_string(),
        "auth_token=tok&nonce=n&user_id=42"
    );
}

#[test]
fn oculus_optional_fields_in_either_order() {
    let a = OculusOptions::new("n", 0, "tok").email("e").expired_at(9).to_query_string();
    let b = OculusOptions::new("n", 0, "tok").expired_at(9).email("e").to_query_string();
    assert_eq!(a, "auth_token=tok&date_expires=9&email=e&nonce=n&user_id=0");
    assert_eq!(a, b);
}

#[test]
fn optional_field_is_overwritten() {
    let q = GalaxyOptions::new("t").email("old").email("new").expired_at(1).expired_at(2);
    assert_eq!(q.to_query_string(), "appdata=t&date_expires=2&email=new");
}

#[test]
fn values_are_form_encoded() {
    let q = SteamOptions::new("a b&c=d").to_query_string();
    assert_eq!(q, "appdata=a+b%26c%3Dd");
    let q = ItchioOptions::new("é").to_query_string();
    assert_eq!(q, "itchio_token=%C3%A9");
    let q = GalaxyOptions::new("").to_query_string();
    assert_eq!(q, "appdata=");
}

#[test]
fn largest_user_id() {
    let q = OculusOptions::new("n", u64::MAX, "t").to_query_string();
    assert_eq!(q, "auth_token=t&nonce=n&user_id=18446744073709551615");
}

#[test]
fn credentials_new_has_no_token() {
    let c = Credentials::new("k");
    assert_eq!(c.api_key, "k");
    assert!(c.token.is_none());
}

#[test]
fn credentials_with_token() {
    let c = Credentials::with_token("k", "t");
    assert_eq!(c.api_key, "k");
    let t = c.token.clone().unwrap();
    assert_eq!(t.value, "t");
    assert_eq!(t.expired_at, None);
}

#[test]
fn credentials_equality() {
    assert!(Credentials::new("k") == Credentials::new("k"));
    assert!(Credentials::new("k") != Credentials::new("j"));
    assert!(Credentials::new("k") != Credentials::with_token("k", "t"));
    assert!(Credentials::with_token("k", "t") == Credentials::with_token("k", "t"));
    let a = Token { value: "t".to_string(), expired_at: Some(1) };
    let b = Token { value: "t".to_string(), expired_at: None };
    assert!(a != b);
}

#[test]
fn debug_rendering_hides_values() {
    let plain = Credentials::new("secretkey").to_debug_string();
    let full = Credentials::with_token("secretkey", "secrettoken").to_debug_string();
    assert_eq!(plain, "Credentials(apikey)");
    assert_eq!(full, "Credentials(apikey+token)");
    assert!(!plain.contains("secretkey"));
    assert!(!full.contains("secretkey"));
    assert!(!full.contains("secrettoken"));
}

#[test]
fn error_messages() {
    assert_eq!(Error::Unauthorized.message(), "Unauthorized");
    assert_eq!(Error::TokenRequired.message(), "Access token is required");
}

#[test]
fn link_steam() {
    let q = LinkOptions::steam("a@b.com", 42).to_query_string();
    assert_eq!(q, "email=a%40b.com&service=steam&service_id=42");
}

#[test]
fn link_gog_and_itchio() {
    assert_eq!(LinkOptions::gog("e", 7).to_query_string(), "email=e&service=gog&service_id=7");
    assert_eq!(LinkOptions::itchio("e", 0).to_query_string(), "email=e&service=itch&service_id=0");
}

#[test]
fn request_code_body() {
    let auth = Auth::new(Credentials::new("k"));
    let r = auth.request_code("a@b.com");
    assert_eq!(r.route, Route::AuthEmailRequest);
    assert_eq!(r.body, "email=a%40b.com");
}

#[test]
fn security_code_body() {
    let auth = Auth::new(Credentials::new("k"));
    let r = auth.security_code("XY 12");
    assert_eq!(r.route, Route::AuthEmailExchange);
    assert_eq!(r.body, "security_code=XY+12");
}

#[test]
fn security_code_exchange_keeps_api_key() {
    let auth = Auth::new(Credentials::with_token("k", "old"));
    let c = auth.exchange(AccessToken { value: "new".to_string(), expired_at: Some(99) });
    assert_eq!(c.api_key, "k");
    let t = c.token.unwrap();
    assert_eq!(t.value, "new");
    assert_eq!(t.expired_at, Some(99));
}

#[test]
fn external_routes() {
    let auth = Auth::new(Credentials::new("k"));
    let r = auth.external(&AuthOptions::from(GalaxyOptions::new("g")));
    assert_eq!((r.route, r.body.as_str()), (Route::AuthGog, "appdata=g"));
    let r = auth.external(&AuthOptions::from(ItchioOptions::new("i")));
    assert_eq!((r.route, r.body.as_str()), (Route::AuthItchio, "itchio_token=i"));
    let r = auth.external(&AuthOptions::from(OculusOptions::new("n", 1, "a")));
    assert_eq!((r.route, r.body.as_str()), (Route::AuthOculus, "auth_token=a&nonce=n&user_id=1"));
    let r = auth.external(&SteamOptions::new("s").into());
    assert_eq!((r.route, r.body.as_str()), (Route::AuthSteam, "appdata=s"));
}

#[test]
fn link_needs_token() {
    let auth = Auth::new(Credentials::new("k"));
    assert_eq!(auth.link(&LinkOptions::steam("e", 1)).err(), Some(Error::TokenRequired));
    let auth = Auth::new(Credentials::with_token("k", "t"));
    let r = auth.link(&LinkOptions::steam("e", 1)).ok().unwrap();
    assert_eq!(r.route, Route::LinkAccount);
    assert_eq!(r.body, "email=e&service=steam&service_id=1");
}

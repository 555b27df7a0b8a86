use biedbot::api::{AccountRecord, ApiError, AuthData, AuthenticatedUser};
use biedbot::error::ProvisionError;
use biedbot::login::{CookiePair, LoginReply, LoginResponse, SessionCookies};
use biedbot::protocol::BiedApi;

fn pair(name: &str, value: &str) -> Option<CookiePair> {
    Some(CookiePair { name: name.to_string(), value: value.to_string() })
}

fn body() -> Result<LoginReply, ApiError> {
    Ok(LoginReply {
        card_number: "9900".to_string(),
        external_customer_id: "cust-7".to_string(),
        auth_token: "auth-x".to_string(),
    })
}

fn response(headers: &[&str], body: Result<LoginReply, ApiError>) -> Result<LoginResponse, ApiError> {
    Ok(LoginResponse { set_cookies: headers.iter().map(|h| h.to_string()).collect(), body })
}

fn login(headers: &[&str], body: Result<LoginReply, ApiError>) -> Result<AccountRecord, ProvisionError> {
    BiedApi::read_login("store".to_string(), "+15551234".to_string(), response(headers, body))
}

fn missing(name: &str) -> ProvisionError {
    ProvisionError::MissingCookie(name.to_string())
}

#[test]
fn find_cookie_takes_first_of_name() {
    let cookies = vec![pair("a", "1"), None, pair("b", "2"), pair("a", "3")];
    assert_eq!(BiedApi::find_cookie(&cookies, "a"), Some(0));
    assert_eq!(BiedApi::find_cookie(&cookies, "b"), Some(2));
    assert_eq!(BiedApi::find_cookie(&cookies, "c"), None);
    assert_eq!(BiedApi::find_cookie(&Vec::new(), "a"), None);
    assert_eq!(BiedApi::find_cookie(&cookies, "A"), None);
}

#[test]
fn session_cookies_found_in_any_order() {
    let cookies = vec![pair("other", "x"), pair("nr2Users", "two"), None, pair("nr1Users", "one")];
    assert_eq!(
        BiedApi::session_cookies(&cookies),
        Ok(SessionCookies { users1: "one".to_string(), users2: "two".to_string(), second_at: 1 })
    );
}

#[test]
fn session_cookies_take_first_occurrence_of_each() {
    let cookies = vec![
        pair("nr1Users", "one"),
        pair("nr1Users", "later"),
        pair("nr2Users", "two"),
        pair("nr2Users", "later"),
    ];
    assert_eq!(
        BiedApi::session_cookies(&cookies),
        Ok(SessionCookies { users1: "one".to_string(), users2: "two".to_string(), second_at: 2 })
    );
}

#[test]
fn session_cookies_missing_names_the_cookie() {
    assert_eq!(BiedApi::session_cookies(&vec![pair("nr1Users", "one")]), Err(missing("nr2Users")));
    assert_eq!(BiedApi::session_cookies(&vec![pair("nr2Users", "two")]), Err(missing("nr1Users")));
    assert_eq!(BiedApi::session_cookies(&vec![None, pair("x", "y")]), Err(missing("nr1Users")));
    assert_eq!(BiedApi::session_cookies(&Vec::new()), Err(missing("nr1Users")));
}

fn found() -> SessionCookies {
    SessionCookies { users1: "one".to_string(), users2: "raw%3B".to_string(), second_at: 1 }
}

#[test]
fn finish_login_assembles_record() {
    let record = BiedApi::finish_login(
        "shop".to_string(),
        "+1".to_string(),
        found(),
        pair("nr2Users", "a=b;crf=T0K;z"),
        body(),
    );
    assert_eq!(
        record,
        Ok(AccountRecord {
            title: "shop".to_string(),
            phone_number: "+1".to_string(),
            card_number: "9900".to_string(),
            external_customer_id: "cust-7".to_string(),
            auth_token: "auth-x".to_string(),
            credentials: AuthData {
                users1: "one".to_string(),
                users2: "raw%3B".to_string(),
                csrf_token: "T0K".to_string(),
            },
        })
    );
}

#[test]
fn finish_login_without_token_fails_before_body_is_read() {
    let undecodable = BiedApi::finish_login("t".to_string(), "p".to_string(), found(), None, body());
    assert_eq!(undecodable, Err(ProvisionError::CsrfNotFound));
    let no_marker = BiedApi::finish_login(
        "t".to_string(),
        "p".to_string(),
        found(),
        pair("nr2Users", "nothing"),
        Err(ApiError("bad json".to_string())),
    );
    assert_eq!(no_marker, Err(ProvisionError::CsrfNotFound));
}

#[test]
fn finish_login_undecoded_body_is_transport_failure() {
    let outcome = BiedApi::finish_login(
        "t".to_string(),
        "p".to_string(),
        found(),
        pair("nr2Users", "crf=x"),
        Err(ApiError("bad json".to_string())),
    );
    assert_eq!(outcome, Err(ProvisionError::Transport(ApiError("bad json".to_string()))));
}

#[test]
fn login_with_both_cookies_yields_record() {
    let record = login(&["nr1Users=abc", "nr2Users=%3Bcrf%3Dtok42%3B"], body()).expect("record");
    assert_eq!(record.title, "store");
    assert_eq!(record.phone_number, "+15551234");
    assert_eq!(record.card_number, "9900");
    assert_eq!(record.external_customer_id, "cust-7");
    assert_eq!(record.auth_token, "auth-x");
    assert_eq!(record.credentials.users1, "abc");
    assert_eq!(record.credentials.users2, "%3Bcrf%3Dtok42%3B");
    assert_eq!(record.credentials.csrf_token, "tok42");
    assert!(record.credentials.is_authenticated());
}

#[test]
fn login_reads_cookies_with_attributes() {
    let record = login(
        &[
            "lang=pl; Path=/",
            "nr2Users=x%3D1%3Bcrf%3DZ9%3Bend; Path=/; Secure; HttpOnly",
            "nr1Users=first; Max-Age=3600; Path=/",
            "nr1Users=second",
        ],
        body(),
    )
    .expect("record");
    assert_eq!(record.credentials.users1, "first");
    assert_eq!(record.credentials.users2, "x%3D1%3Bcrf%3DZ9%3Bend");
    assert_eq!(record.credentials.csrf_token, "Z9");
}

#[test]
fn login_missing_second_cookie_fails_with_missing_cookie() {
    assert_eq!(login(&["nr1Users=abc"], body()), Err(missing("nr2Users")));
    assert_eq!(
        login(&["nr1Users=abc", "nr3Users=zzz"], Err(ApiError("bad body".to_string()))),
        Err(missing("nr2Users"))
    );
}

#[test]
fn login_missing_first_cookie_fails_with_missing_cookie() {
    assert_eq!(login(&["nr2Users=crf%3Dt"], body()), Err(missing("nr1Users")));
    assert_eq!(login(&[], body()), Err(missing("nr1Users")));
}

#[test]
fn login_skips_headers_that_set_no_cookie() {
    assert_eq!(login(&["garbage", "=novalue", "nr1Users=abc"], body()), Err(missing("nr2Users")));
    let record = login(&["garbage", "nr1Users=abc", "", "nr2Users=crf%3Dt"], body()).expect("record");
    assert_eq!(record.credentials.csrf_token, "t");
}

#[test]
fn login_without_token_in_second_cookie_fails() {
    assert_eq!(
        login(&["nr1Users=abc", "nr2Users=%3Bnothing%3B"], body()),
        Err(ProvisionError::CsrfNotFound)
    );
    assert_eq!(
        login(&["nr1Users=abc", "nr2Users=crf%3Dtok%FF"], body()),
        Err(ProvisionError::CsrfNotFound)
    );
}

#[test]
fn login_token_is_read_from_decoded_value_only() {
    assert_eq!(
        login(&["nr1Users=abc", "nr2Users=crf%3Da%3Bb"], body()).expect("record").credentials.csrf_token,
        "a"
    );
}

#[test]
fn login_with_undecoded_body_is_transport_failure() {
    assert_eq!(
        login(&["nr1Users=abc", "nr2Users=crf%3Dt"], Err(ApiError("eof".to_string()))),
        Err(ProvisionError::Transport(ApiError("eof".to_string())))
    );
}

#[test]
fn login_without_response_is_transport_failure() {
    assert_eq!(
        BiedApi::read_login("t".to_string(), "p".to_string(), Err(ApiError("dns".to_string()))),
        Err(ProvisionError::Transport(ApiError("dns".to_string())))
    );
}

#[test]
fn record_splits_into_key_and_stored_user() {
    let record = login(&["nr1Users=abc", "nr2Users=crf%3Dt"], body()).expect("record");
    let (title, user) = record.into_stored();
    assert_eq!(title, "store");
    assert_eq!(
        user,
        AuthenticatedUser {
            phone_number: "+15551234".to_string(),
            card_number: "9900".to_string(),
            auth: AuthData {
                users1: "abc".to_string(),
                users2: "crf%3Dt".to_string(),
                csrf_token: "t".to_string(),
            },
        }
    );
    assert_eq!(user.display(), "phone: `+15551234`; card: `9900`;");
}

//! Reading the answer to a login: the two session cookies, the token in
//! the second, and the identity in the body.

use vstd::prelude::*;
use vstd::string::*;
use crate::api::{AccountRecord, AccountView, ApiError, AuthData, Credentials};
use crate::csrf::{extract_spec, CsrfExtractor};
use crate::error::{Failure, ProvisionError};
use crate::outside::{cookie_pair, cookie_pair_decoded, parse_cookie, parse_cookie_decoded};
use crate::protocol::BiedApi;
use crate::search::{first, first_is_least, least_is_first};
use crate::text::{same_text, texts_view};

verus! {

/// Name of the first session cookie.
pub open spec fn first_cookie_name() -> Seq<char> {
    "nr1Users"@
}

/// Name of the second session cookie, the one that holds the token.
pub open spec fn second_cookie_name() -> Seq<char> {
    "nr2Users"@
}

/// What [`LoginReply`] stands for.
pub struct LoginReplyView {
    pub card_number: Seq<char>,
    pub external_customer_id: Seq<char>,
    pub auth_token: Seq<char>,
}

/// The identity that the body of a login response holds.
#[derive(Debug, Clone, PartialEq, Eq)]
pub struct LoginReply {
    pub card_number: String,
    pub external_customer_id: String,
    pub auth_token: String,
}

impl View for LoginReply {
    type V = LoginReplyView;

    open spec fn view(&self) -> LoginReplyView {
        LoginReplyView {
            card_number: self.card_number@,
            external_customer_id: self.external_customer_id@,
            auth_token: self.auth_token@,
        }
    }
}

/// What the decoding of a body stands for.
pub open spec fn body_view(body: Result<LoginReply, ApiError>) -> Result<
    LoginReplyView,
    Seq<char>,
> {
    match body {
        Ok(reply) => Ok(reply@),
        Err(e) => Err(e@),
    }
}

/// What [`LoginResponse`] stands for.
pub struct LoginResponseView {
    pub set_cookies: Seq<Seq<char>>,
    pub body: Result<LoginReplyView, Seq<char>>,
}

/// A login response that arrived: the values of its `set-cookie` headers,
/// in the order of the response, and its body, decoded or not.
#[derive(Debug, PartialEq, Eq)]
pub struct LoginResponse {
    pub set_cookies: Vec<String>,
    pub body: Result<LoginReply, ApiError>,
}

impl View for LoginResponse {
    type V = LoginResponseView;

    open spec fn view(&self) -> LoginResponseView {
        LoginResponseView { set_cookies: texts_view(self.set_cookies@), body: body_view(self.body) }
    }
}

/// Name and value of one cookie.
#[derive(Debug, Clone, PartialEq, Eq)]
pub struct CookiePair {
    pub name: String,
    pub value: String,
}

impl View for CookiePair {
    type V = (Seq<char>, Seq<char>);

    open spec fn view(&self) -> (Seq<char>, Seq<char>) {
        (self.name@, self.value@)
    }
}

/// What an optional cookie stands for.
pub open spec fn pair_view(pair: Option<CookiePair>) -> Option<(Seq<char>, Seq<char>)> {
    match pair {
        Some(p) => Some(p@),
        None => None,
    }
}

/// The cookies read from a response's headers, one place per header: what
/// a list of parse results stands for.
pub open spec fn cookies_view(cookies: Seq<Option<CookiePair>>) -> Seq<
    Option<(Seq<char>, Seq<char>)>,
> {
    cookies.map_values(|c: Option<CookiePair>| pair_view(c))
}

/// The cookie is there and has the name `name`.
pub open spec fn has_name(cookie: Option<(Seq<char>, Seq<char>)>, name: Seq<char>) -> bool {
    cookie matches Some(pair) && pair.0 == name
}

/// What is wanted of a cookie that is looked for by its name.
pub open spec fn named(name: Seq<char>) -> spec_fn(Option<(Seq<char>, Seq<char>)>) -> bool {
    |cookie: Option<(Seq<char>, Seq<char>)>| has_name(cookie, name)
}

/// The first place whose cookie has the name `name`.
pub open spec fn first_named(cookies: Seq<Option<(Seq<char>, Seq<char>)>>, name: Seq<char>) -> Option<
    int,
> {
    first(cookies, named(name))
}

/// What [`SessionCookies`] stands for.
pub struct SessionCookiesView {
    pub users1: Seq<char>,
    pub users2: Seq<char>,
    pub second_at: int,
}

/// The values of the two session cookies as the backend set them, and
/// the place of the header that set the second.
#[derive(Debug, Clone, PartialEq, Eq)]
pub struct SessionCookies {
    pub users1: String,
    pub users2: String,
    pub second_at: usize,
}

impl View for SessionCookies {
    type V = SessionCookiesView;

    open spec fn view(&self) -> SessionCookiesView {
        SessionCookiesView {
            users1: self.users1@,
            users2: self.users2@,
            second_at: self.second_at as int,
        }
    }
}

/// The session cookies among the cookies of a response: the first of each
/// name. Where one is absent, the failure names it, the first one first.
pub open spec fn session_cookies_of(cookies: Seq<Option<(Seq<char>, Seq<char>)>>) -> Result<
    SessionCookiesView,
    Failure,
> {
    match first_named(cookies, first_cookie_name()) {
        None => Err(Failure::MissingCookie(first_cookie_name())),
        Some(a) => match first_named(cookies, second_cookie_name()) {
            None => Err(Failure::MissingCookie(second_cookie_name())),
            Some(b) => Ok(
                SessionCookiesView {
                    users1: cookies[a].unwrap().1,
                    users2: cookies[b].unwrap().1,
                    second_at: b,
                },
            ),
        },
    }
}

/// The token in the second cookie, read decoded: none where the cookie
/// could not be decoded, or holds no token.
pub open spec fn decoded_token(decoded: Option<(Seq<char>, Seq<char>)>) -> Option<Seq<char>> {
    match decoded {
        Some(pair) => extract_spec(pair.1),
        None => None,
    }
}

/// What a login yields once the session cookies are found: without a
/// token, no record, whatever the body holds; with a token, the record if
/// the body was decoded, and else the transport's failure.
pub open spec fn login_record(
    title: Seq<char>,
    phone_number: Seq<char>,
    cookies: SessionCookiesView,
    decoded: Option<(Seq<char>, Seq<char>)>,
    body: Result<LoginReplyView, Seq<char>>,
) -> Result<AccountView, Failure> {
    match decoded_token(decoded) {
        None => Err(Failure::CsrfNotFound),
        Some(token) => match body {
            Err(e) => Err(Failure::Transport(e)),
            Ok(reply) => Ok(
                AccountView {
                    title,
                    phone_number,
                    card_number: reply.card_number,
                    external_customer_id: reply.external_customer_id,
                    auth_token: reply.auth_token,
                    credentials: Credentials {
                        users1: cookies.users1,
                        users2: cookies.users2,
                        csrf_token: token,
                    },
                },
            ),
        },
    }
}

/// Each header of a response as the cookie it sets, read undecoded.
pub open spec fn cookies_of(headers: Seq<Seq<char>>) -> Seq<Option<(Seq<char>, Seq<char>)>> {
    headers.map_values(|h: Seq<char>| cookie_pair(h))
}

/// What a login yields: the transport's failure where there is no
/// response; else a missing cookie, a missing token, an undecoded body, in
/// this order of precedence; else the account's record.
pub open spec fn login_outcome(
    title: Seq<char>,
    phone_number: Seq<char>,
    response: Result<LoginResponseView, Seq<char>>,
) -> Result<AccountView, Failure> {
    match response {
        Err(e) => Err(Failure::Transport(e)),
        Ok(r) => match session_cookies_of(cookies_of(r.set_cookies)) {
            Err(f) => Err(f),
            Ok(cookies) => login_record(
                title,
                phone_number,
                cookies,
                cookie_pair_decoded(r.set_cookies[cookies.second_at]),
                r.body,
            ),
        },
    }
}

/// What the outcome of a login stands for.
pub open spec fn record_view(outcome: Result<AccountRecord, ProvisionError>) -> Result<
    AccountView,
    Failure,
> {
    match outcome {
        Ok(record) => Ok(record@),
        Err(e) => Err(e@),
    }
}

/// What the outcome of the search for the session cookies stands for.
pub open spec fn session_view(outcome: Result<SessionCookies, ProvisionError>) -> Result<
    SessionCookiesView,
    Failure,
> {
    match outcome {
        Ok(cookies) => Ok(cookies@),
        Err(e) => Err(e@),
    }
}

/// What a login response, or the failure to get one, stands for.
pub open spec fn response_view(response: Result<LoginResponse, ApiError>) -> Result<
    LoginResponseView,
    Seq<char>,
> {
    match response {
        Ok(r) => Ok(r@),
        Err(e) => Err(e@),
    }
}

impl BiedApi {
    /// Finds the first cookie of the given name.
    pub fn find_cookie(cookies: &Vec<Option<CookiePair>>, name: &str) -> (place: Option<usize>)
        ensures
            match place {
                Some(i) => i < cookies.len() && first_named(cookies_view(cookies@), name@) == Some(
                    i as int,
                ),
                None => first_named(cookies_view(cookies@), name@) is None,
            },
    {
        let ghost view = cookies_view(cookies@);
        let mut i: usize = 0;
        while i < cookies.len()
            invariant
                i <= cookies.len(),
                view == cookies_view(cookies@),
                forall|k: int| 0 <= k < i ==> !has_name(#[trigger] view[k], name@),
            decreases cookies.len() - i,
        {
            let found: bool = match &cookies[i] {
                Some(pair) => same_text(pair.name.as_str(), name),
                None => false,
            };
            if found {
                proof {
                    least_is_first(view, named(name@), i as int);
                }
                return Some(i);
            }
            i = i + 1;
        }
        proof {
            first_is_least(view, named(name@));
        }
        None
    }

    /// Picks the two session cookies from the cookies of a response,
    /// taking the first of each name.
    pub fn session_cookies(cookies: &Vec<Option<CookiePair>>) -> (found: Result<
        SessionCookies,
        ProvisionError,
    >)
        ensures
            session_view(found) == session_cookies_of(cookies_view(cookies@)),
            found matches Ok(c) ==> c.second_at < cookies.len(),
    {
        proof {
            first_is_least(cookies_view(cookies@), named(first_cookie_name()));
            first_is_least(cookies_view(cookies@), named(second_cookie_name()));
        }
        let a: usize = match Self::find_cookie(cookies, "nr1Users") {
            Some(a) => a,
            None => {
                return Err(ProvisionError::MissingCookie("nr1Users".to_owned()));
            },
        };
        let b: usize = match Self::find_cookie(cookies, "nr2Users") {
            Some(b) => b,
            None => {
                return Err(ProvisionError::MissingCookie("nr2Users".to_owned()));
            },
        };
        let users1: String = match &cookies[a] {
            Some(pair) => pair.value.clone(),
            None => String::new(),
        };
        let users2: String = match &cookies[b] {
            Some(pair) => pair.value.clone(),
            None => String::new(),
        };
        Ok(SessionCookies { users1, users2, second_at: b })
    }

    /// Completes a login whose session cookies were found: takes the
    /// token from the second cookie, read decoded, and the identity from
    /// the body.
    pub fn finish_login(
        title: String,
        phone_number: String,
        cookies: SessionCookies,
        decoded: Option<CookiePair>,
        body: Result<LoginReply, ApiError>,
    ) -> (outcome: Result<AccountRecord, ProvisionError>)
        ensures
            record_view(outcome) == login_record(
                title@,
                phone_number@,
                cookies@,
                pair_view(decoded),
                body_view(body),
            ),
    {
        let token: Option<String> = match &decoded {
            Some(pair) => CsrfExtractor::extract(pair.value.as_str()),
            None => None,
        };
        let csrf_token: String = match token {
            Some(t) => t,
            None => {
                return Err(ProvisionError::CsrfNotFound);
            },
        };
        match body {
            Err(e) => Err(ProvisionError::Transport(e)),
            Ok(reply) => Ok(
                AccountRecord {
                    title,
                    phone_number,
                    card_number: reply.card_number,
                    external_customer_id: reply.external_customer_id,
                    auth_token: reply.auth_token,
                    credentials: AuthData {
                        users1: cookies.users1,
                        users2: cookies.users2,
                        csrf_token,
                    },
                },
            ),
        }
    }

    /// Reads the answer to a login. Scans the `set-cookie` headers for the
    /// two session cookies, then the second for the token, then takes the
    /// identity from the body; the record is made only when all are there.
    pub fn read_login(
        title: String,
        phone_number: String,
        response: Result<LoginResponse, ApiError>,
    ) -> (outcome: Result<AccountRecord, ProvisionError>)
        ensures
            record_view(outcome) == login_outcome(title@, phone_number@, response_view(response)),
    {
        let arrived: LoginResponse = match response {
            Ok(r) => r,
            Err(e) => {
                return Err(ProvisionError::Transport(e));
            },
        };
        let ghost headers = texts_view(arrived.set_cookies@);
        let mut cookies: Vec<Option<CookiePair>> = Vec::new();
        let mut i: usize = 0;
        while i < arrived.set_cookies.len()
            invariant
                i <= arrived.set_cookies.len(),
                headers == texts_view(arrived.set_cookies@),
                cookies@.len() == i,
                forall|k: int| 0 <= k < i ==> pair_view(#[trigger] cookies@[k]) == cookie_pair(headers[k]),
            decreases arrived.set_cookies.len() - i,
        {
            let pair: Option<CookiePair> = parse_cookie(arrived.set_cookies[i].as_str());
            cookies.push(pair);
            i = i + 1;
        }
        assert(cookies_view(cookies@) =~= cookies_of(headers));
        let found: SessionCookies = match Self::session_cookies(&cookies) {
            Ok(found) => found,
            Err(e) => {
                return Err(e);
            },
        };
        let decoded: Option<CookiePair> = parse_cookie_decoded(
            arrived.set_cookies[found.second_at].as_str(),
        );
        Self::finish_login(title, phone_number, found, decoded, arrived.body)
    }
}

/// A response that sets no second session cookie fails for the missing
/// cookie: not for the transport, and with no record, whatever its body
/// holds. The failure names the second cookie where the first is set.
pub proof fn missing_second_cookie_fails(
    title: Seq<char>,
    phone_number: Seq<char>,
    response: LoginResponseView,
)
    requires
        first_named(cookies_of(response.set_cookies), second_cookie_name()) is None,
    ensures
        login_outcome(title, phone_number, Ok(response)) matches Err(Failure::MissingCookie(_)),
        first_named(cookies_of(response.set_cookies), first_cookie_name()) is Some
            ==> login_outcome(title, phone_number, Ok(response)) == Err::<AccountView, Failure>(
            Failure::MissingCookie(second_cookie_name()),
        ),
{
}

/// A login yields a record only when both session cookies are set, the
/// second holds a token and the body was decoded; the record then holds
/// the cookies' values as they were set, and that token.
pub proof fn login_record_is_complete(
    title: Seq<char>,
    phone_number: Seq<char>,
    response: LoginResponseView,
)
    ensures
        login_outcome(title, phone_number, Ok(response)) matches Ok(record) ==> {
            &&& session_cookies_of(cookies_of(response.set_cookies)) matches Ok(cookies)
            &&& record.credentials.users1 == cookies.users1
            &&& record.credentials.users2 == cookies.users2
            &&& decoded_token(cookie_pair_decoded(response.set_cookies[cookies.second_at]))
                == Some(record.credentials.csrf_token)
            &&& response.body matches Ok(reply)
            &&& record.title == title
            &&& record.phone_number == phone_number
            &&& record.card_number == reply.card_number
        },
{
}

} // verus!

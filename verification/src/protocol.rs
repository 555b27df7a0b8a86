//! The client side of the backend's protocol: how a request is framed,
//! and what each of the backend's answers means.

use vstd::prelude::*;
use vstd::string::*;
use crate::api::{ApiError, AuthData, Credentials};
use crate::error::{BlockDuration, Failure, ProvisionError};
use crate::outside::{describe_json_error, json_string, json_text};
use crate::secrets::{ApiConfig, RegistrationDefaults};
use crate::text::{copy_texts, same_text, texts_view};

verus! {

/// What [`ApiRequest`] stands for.
pub struct RequestView {
    pub url: Seq<char>,
    pub body: Seq<char>,
    pub headers: Seq<(Seq<char>, Seq<char>)>,
}

/// A request ready to be posted: where to, with which body and headers.
#[derive(Debug, Clone, PartialEq, Eq)]
pub struct ApiRequest {
    pub url: String,
    pub body: String,
    pub headers: Vec<(String, String)>,
}

/// The headers of a request, each as name and value.
pub open spec fn headers_view(headers: Seq<(String, String)>) -> Seq<(Seq<char>, Seq<char>)> {
    headers.map_values(|h: (String, String)| (h.0@, h.1@))
}

impl View for ApiRequest {
    type V = RequestView;

    open spec fn view(&self) -> RequestView {
        RequestView { url: self.url@, body: self.body@, headers: headers_view(self.headers@) }
    }
}

/// The body of every request: the version block, the fixed view name, and
/// the operation's payload. The two versions and the payload are JSON
/// texts already.
pub open spec fn envelope(module_version: Seq<char>, api_version: Seq<char>, payload: Seq<char>) -> Seq<
    char,
> {
    "{\"versionInfo\":{\"moduleVersion\":"@ + module_version + ",\"apiVersion\":"@ + api_version
        + "},\"viewName\":\"RegistrationFlow.OnBoarding\",\"inputParameters\":"@ + payload + "}"@
}

/// The value of the `cookie` header: the two session cookies by name.
pub open spec fn cookie_header(auth: Credentials) -> Seq<char> {
    "nr1Users="@ + auth.users1 + "; nr2Users="@ + auth.users2 + ";"@
}

/// The three headers every request carries, in the order they are set.
pub open spec fn request_headers(auth: Credentials) -> Seq<(Seq<char>, Seq<char>)> {
    seq![
        ("content-type"@, "application/json; charset=UTF-8"@),
        ("x-csrftoken"@, auth.csrf_token),
        ("cookie"@, cookie_header(auth)),
    ]
}

/// The request that goes to `path` under `api_root`, given the two
/// versions as JSON texts.
pub open spec fn framed(
    api_root: Seq<char>,
    path: Seq<char>,
    module_version: Seq<char>,
    api_version: Seq<char>,
    auth: Credentials,
    payload: Seq<char>,
) -> RequestView {
    RequestView {
        url: api_root + path,
        body: envelope(module_version, api_version, payload),
        headers: request_headers(auth),
    }
}

/// The request of one call: framed with the two versions as the JSON
/// writer writes them, and none where the writer fails on either.
pub open spec fn planned(
    config: ApiConfig,
    path: Seq<char>,
    api_version: Seq<char>,
    auth: Credentials,
    payload: Seq<char>,
) -> Option<RequestView> {
    match (json_text(config.module_version@), json_text(api_version)) {
        (Some(module_version), Some(api_version)) => Some(
            framed(config.api_root@, path, module_version, api_version, auth, payload),
        ),
        _ => None,
    }
}

/// The request that was framed, if one was.
pub open spec fn request_view(request: Result<ApiRequest, ApiError>) -> Option<RequestView> {
    match request {
        Ok(r) => Some(r@),
        Err(_) => None,
    }
}

/// The protocol client: it knows the configuration, frames requests and
/// reads answers. It sends nothing itself and holds no state that changes.
pub struct BiedApi {
    pub config: ApiConfig,
}

impl BiedApi {
    /// A client for the backend that `config` describes.
    pub fn new(config: ApiConfig) -> (api: BiedApi)
        ensures
            api.config == config,
    {
        BiedApi { config }
    }

    /// Frames a request from parts that are JSON texts already.
    pub fn frame_request(
        &self,
        path: &str,
        module_version: &str,
        api_version: &str,
        auth: &AuthData,
        payload: &str,
    ) -> (request: ApiRequest)
        ensures
            request@ == framed(
                self.config.api_root@,
                path@,
                module_version@,
                api_version@,
                auth@,
                payload@,
            ),
    {
        let mut url: String = self.config.api_root.clone();
        url.append(path);

        let mut body: String = "{\"versionInfo\":{\"moduleVersion\":".to_owned();
        body.append(module_version);
        body.append(",\"apiVersion\":");
        body.append(api_version);
        body.append("},\"viewName\":\"RegistrationFlow.OnBoarding\",\"inputParameters\":");
        body.append(payload);
        body.append("}");

        let mut cookie: String = "nr1Users=".to_owned();
        cookie.append(auth.users1.as_str());
        cookie.append("; nr2Users=");
        cookie.append(auth.users2.as_str());
        cookie.append(";");

        let mut headers: Vec<(String, String)> = Vec::new();
        headers.push(("content-type".to_owned(), "application/json; charset=UTF-8".to_owned()));
        headers.push(("x-csrftoken".to_owned(), auth.csrf_token.clone()));
        headers.push(("cookie".to_owned(), cookie));
        assert(headers_view(headers@) =~= request_headers(auth@));
        ApiRequest { url, body, headers }
    }

    /// Frames the request for one call: the URL is `path` under the
    /// configured root, the body wraps `payload`, a JSON text, with the
    /// module version and `api_version`, and the headers carry `auth`.
    /// Fails where the JSON writer fails on one of the two versions, and
    /// only there; the error then holds the writer's words.
    pub fn api_rq(&self, path: &str, api_version: &str, auth: AuthData, payload: &str) -> (request:
        Result<ApiRequest, ApiError>)
        ensures
            request_view(request) == planned(self.config, path@, api_version@, auth@, payload@),
    {
        let module: String = match json_string(self.config.module_version.as_str()) {
            Ok(text) => text,
            Err(e) => {
                return Err(ApiError(describe_json_error(&e)));
            },
        };
        let api: String = match json_string(api_version) {
            Ok(text) => text,
            Err(e) => {
                return Err(ApiError(describe_json_error(&e)));
            },
        };
        Ok(self.frame_request(path, module.as_str(), api.as_str(), &auth, payload))
    }
}

/// The four calls that provisioning makes. All are made anonymously.
#[derive(Debug, Clone, Copy, PartialEq, Eq, Structural)]
pub enum Operation {
    RequestSmsCode,
    ComputeNextStep,
    Login,
    Register,
}

/// The API version that the configuration names for an operation.
pub open spec fn version_for(config: ApiConfig, operation: Operation) -> Seq<char> {
    match operation {
        Operation::RequestSmsCode => config.sms_api_version@,
        Operation::ComputeNextStep => config.next_step_version@,
        Operation::Login => config.login_api_version@,
        Operation::Register => config.create_account_version@,
    }
}

/// Path of the offer synchronisation under the root, for a brand.
pub open spec fn offers_path(brand_name: Seq<char>) -> Seq<char> {
    brand_name + "_Sync/ActionServerDataSync_2_J4y"@
}

/// Payload of the offer synchronisation: a refresh date far in the past.
pub open spec fn offers_payload() -> Seq<char> {
    "{\"J4yCacheRefresh\":\"2022-01-01T10:10:10.101Z\"}"@
}

impl BiedApi {
    /// Frames the request of one of the four provisioning calls: with the
    /// API version that the configuration names for it, no cookies, and the
    /// configured anonymous token.
    pub fn anonymous_request(&self, operation: Operation, path: &str, payload: &str) -> (request:
        Result<ApiRequest, ApiError>)
        ensures
            request_view(request) == planned(
                self.config,
                path@,
                version_for(self.config, operation),
                Credentials::anonymous(self.config.anonymous_csrf@),
                payload@,
            ),
    {
        let version: &String = match operation {
            Operation::RequestSmsCode => &self.config.sms_api_version,
            Operation::ComputeNextStep => &self.config.next_step_version,
            Operation::Login => &self.config.login_api_version,
            Operation::Register => &self.config.create_account_version,
        };
        let auth: AuthData = AuthData::anonymous(self.config.anonymous_csrf.as_str());
        self.api_rq(path, version.as_str(), auth, payload)
    }

    /// Frames the request that fetches the offers of the account that
    /// `auth` belongs to.
    pub fn offers_request(&self, auth: AuthData) -> (request: Result<ApiRequest, ApiError>)
        ensures
            request_view(request) == planned(
                self.config,
                offers_path(self.config.brand_name@),
                self.config.promo_sync_api_version@,
                auth@,
                offers_payload(),
            ),
    {
        let mut path: String = self.config.brand_name.clone();
        path.append("_Sync/ActionServerDataSync_2_J4y");
        self.api_rq(
            path.as_str(),
            self.config.promo_sync_api_version.as_str(),
            auth,
            "{\"J4yCacheRefresh\":\"2022-01-01T10:10:10.101Z\"}",
        )
    }
}

/// What [`RegistrationForm`] stands for.
pub struct FormView {
    pub phone_number: Seq<char>,
    pub sms_code: Seq<char>,
    pub display_name: Seq<char>,
    pub locale: Seq<char>,
    pub store_id: Seq<char>,
    pub email: Seq<char>,
    pub date_of_birth: Seq<char>,
    pub legal_ids: Seq<Seq<char>>,
}

/// What a registration carries: who registers, the default profile
/// fields, and the legal documents that are accepted.
#[derive(Debug, Clone, PartialEq, Eq)]
pub struct RegistrationForm {
    pub phone_number: String,
    pub sms_code: String,
    pub display_name: String,
    pub locale: String,
    pub store_id: String,
    pub email: String,
    pub date_of_birth: String,
    pub legal_ids: Vec<String>,
}

impl View for RegistrationForm {
    type V = FormView;

    open spec fn view(&self) -> FormView {
        FormView {
            phone_number: self.phone_number@,
            sms_code: self.sms_code@,
            display_name: self.display_name@,
            locale: self.locale@,
            store_id: self.store_id@,
            email: self.email@,
            date_of_birth: self.date_of_birth@,
            legal_ids: texts_view(self.legal_ids@),
        }
    }
}

/// The form of a registration: locale and store as the defaults have
/// them, e-mail and date of birth left empty, and the legal documents
/// that the configuration lists.
pub open spec fn registration_of(
    config: ApiConfig,
    defaults: RegistrationDefaults,
    phone_number: Seq<char>,
    sms_code: Seq<char>,
    display_name: Seq<char>,
) -> FormView {
    FormView {
        phone_number,
        sms_code,
        display_name,
        locale: defaults.locale@,
        store_id: defaults.store_id@,
        email: Seq::empty(),
        date_of_birth: Seq::empty(),
        legal_ids: texts_view(config.legal_ids@),
    }
}

impl BiedApi {
    /// Fills in the form of a registration.
    pub fn registration_form(
        &self,
        defaults: &RegistrationDefaults,
        phone_number: &str,
        sms_code: &str,
        display_name: &str,
    ) -> (form: RegistrationForm)
        ensures
            form@ == registration_of(
                self.config,
                *defaults,
                phone_number@,
                sms_code@,
                display_name@,
            ),
    {
        RegistrationForm {
            phone_number: phone_number.to_owned(),
            sms_code: sms_code.to_owned(),
            display_name: display_name.to_owned(),
            locale: defaults.locale.clone(),
            store_id: defaults.store_id.clone(),
            email: String::new(),
            date_of_birth: String::new(),
            legal_ids: copy_texts(&self.config.legal_ids),
        }
    }
}

/// What [`SmsCodeReply`] stands for.
pub struct SmsCodeReplyView {
    pub sms_sent: bool,
    pub is_blocked: bool,
    pub blocked_in_minutes: i32,
    pub reason: Seq<char>,
}

/// What the backend says when asked to send a code.
#[derive(Debug, Clone, PartialEq, Eq)]
pub struct SmsCodeReply {
    /// The backend confirms that the code was sent.
    pub sms_sent: bool,
    /// The backend's blocked flag.
    pub is_blocked: bool,
    /// Minutes for which no code will be sent; zero or less when the
    /// backend names no duration.
    pub blocked_in_minutes: i32,
    /// Why the code was not sent.
    pub reason: String,
}

impl View for SmsCodeReply {
    type V = SmsCodeReplyView;

    open spec fn view(&self) -> SmsCodeReplyView {
        SmsCodeReplyView {
            sms_sent: self.sms_sent,
            is_blocked: self.is_blocked,
            blocked_in_minutes: self.blocked_in_minutes,
            reason: self.reason@,
        }
    }
}

/// What a reply to the request for a code means. A positive duration
/// blocks for that long; failing that, the blocked flag blocks without
/// limit; failing that, a code that was not sent is a failure with the
/// backend's reason. Only a code that was sent, with no block, succeeds.
pub open spec fn sms_code_outcome(reply: SmsCodeReplyView) -> Result<(), Failure> {
    if reply.blocked_in_minutes > 0 {
        Err(Failure::Blocked(BlockDuration::Minutes(reply.blocked_in_minutes as u32)))
    } else if reply.is_blocked {
        Err(Failure::Blocked(BlockDuration::Indefinite))
    } else if !reply.sms_sent {
        Err(Failure::SendFailed(reply.reason))
    } else {
        Ok(())
    }
}

/// How provisioning goes on once the code is known.
#[derive(Debug, Clone, Copy, PartialEq, Eq, Structural)]
pub enum NextStep {
    /// The phone number has no account yet: register, then log in.
    NewAccount,
    /// The phone number has an account: log in.
    AccountExists,
}

/// What the backend's step name means: one of the two known steps, or a
/// failure that holds the name.
pub open spec fn next_step_outcome(step: Seq<char>) -> Result<NextStep, Failure> {
    if step == "NewAccount"@ {
        Ok(NextStep::NewAccount)
    } else if step == "AccountExists"@ {
        Ok(NextStep::AccountExists)
    } else {
        Err(Failure::UnrecognizedStep(step))
    }
}

/// What the outcome of a call stands for, where success carries plain data.
pub open spec fn outcome_view<T>(outcome: Result<T, ProvisionError>) -> Result<T, Failure> {
    match outcome {
        Ok(value) => Ok(value),
        Err(e) => Err(e@),
    }
}

impl BiedApi {
    /// Reads the answer to the request for a code. A failed transport is
    /// handed on; a reply means what [`sms_code_outcome`] says.
    pub fn read_sms_code(response: Result<SmsCodeReply, ApiError>) -> (outcome: Result<
        (),
        ProvisionError,
    >)
        ensures
            outcome_view(outcome) == (match response {
                Ok(reply) => sms_code_outcome(reply@),
                Err(e) => Err(Failure::Transport(e@)),
            }),
    {
        match response {
            Err(e) => Err(ProvisionError::Transport(e)),
            Ok(reply) => {
                if reply.blocked_in_minutes > 0 {
                    Err(
                        ProvisionError::Blocked(
                            BlockDuration::Minutes(reply.blocked_in_minutes as u32),
                        ),
                    )
                } else if reply.is_blocked {
                    Err(ProvisionError::Blocked(BlockDuration::Indefinite))
                } else if !reply.sms_sent {
                    Err(ProvisionError::SendFailed(reply.reason))
                } else {
                    Ok(())
                }
            },
        }
    }

    /// Reads the answer to the question how to go on. A failed transport
    /// is handed on; a step name means what [`next_step_outcome`] says.
    pub fn read_next_step(response: Result<String, ApiError>) -> (outcome: Result<
        NextStep,
        ProvisionError,
    >)
        ensures
            outcome_view(outcome) == (match response {
                Ok(step) => next_step_outcome(step@),
                Err(e) => Err(Failure::Transport(e@)),
            }),
    {
        match response {
            Err(e) => Err(ProvisionError::Transport(e)),
            Ok(step) => {
                if same_text(step.as_str(), "NewAccount") {
                    Ok(NextStep::NewAccount)
                } else if same_text(step.as_str(), "AccountExists") {
                    Ok(NextStep::AccountExists)
                } else {
                    Err(ProvisionError::UnrecognizedStep(step))
                }
            },
        }
    }

    /// Reads the answer to a registration: it succeeded when the transport
    /// did. Registration yields no credentials; a login has to follow.
    pub fn read_register(response: Result<(), ApiError>) -> (outcome: Result<(), ProvisionError>)
        ensures
            outcome_view(outcome) == (match response {
                Ok(_) => Ok::<(), Failure>(()),
                Err(e) => Err(Failure::Transport(e@)),
            }),
    {
        match response {
            Ok(_) => Ok(()),
            Err(e) => Err(ProvisionError::Transport(e)),
        }
    }
}

/// A step name means exactly one of three things: a new account, an
/// existing account, or a failure that holds the name itself. It is a
/// success only for the two known names.
pub proof fn next_step_is_one_of_three(step: Seq<char>)
    ensures
        next_step_outcome(step) == Ok::<NextStep, Failure>(NextStep::NewAccount)
            || next_step_outcome(step) == Ok::<NextStep, Failure>(NextStep::AccountExists)
            || next_step_outcome(step) == Err::<NextStep, Failure>(Failure::UnrecognizedStep(step)),
        next_step_outcome(step) is Ok <==> (step == "NewAccount"@ || step == "AccountExists"@),
{
}

/// Asking for a code succeeds only when the backend confirms that the
/// code was sent and sets no block; each failure is of one kind only, and
/// a block takes precedence over a code that was not sent.
pub proof fn sms_code_succeeds_only_when_sent(reply: SmsCodeReplyView)
    ensures
        sms_code_outcome(reply) is Ok <==> (reply.sms_sent && !reply.is_blocked
            && reply.blocked_in_minutes <= 0),
        sms_code_outcome(reply) matches Err(Failure::Blocked(BlockDuration::Minutes(m)))
            ==> m > 0 && m == reply.blocked_in_minutes,
        sms_code_outcome(reply) matches Err(Failure::SendFailed(_)) ==> !reply.is_blocked
            && reply.blocked_in_minutes <= 0,
        sms_code_outcome(reply) matches Err(f) ==> f is Blocked || f is SendFailed,
{
}

} // verus!

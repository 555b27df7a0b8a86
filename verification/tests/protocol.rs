use biedbot::api::{ApiError, AuthData};
use biedbot::db::StoreError;
use biedbot::error::{BlockDuration, ErrorKind, ProvisionError};
use biedbot::protocol::{BiedApi, NextStep, Operation, RegistrationForm, SmsCodeReply};
use biedbot::secrets::{ApiConfig, RegistrationDefaults};

fn config() -> ApiConfig {
    ApiConfig {
        api_root: "https://backend.example/".to_string(),
        brand_name: "Brand".to_string(),
        anonymous_csrf: "anon-token".to_string(),
        legal_ids: vec!["doc-1".to_string(), "doc-2".to_string()],
        module_version: "mod-1".to_string(),
        sms_api_version: "sms-2".to_string(),
        next_step_version: "next-3".to_string(),
        create_account_version: "create-4".to_string(),
        login_api_version: "login-5".to_string(),
        promo_sync_api_version: "promo-6".to_string(),
    }
}

fn header(name: &str, value: &str) -> (String, String) {
    (name.to_string(), value.to_string())
}

#[test]
fn frame_request_builds_envelope_and_headers() {
    let api = BiedApi::new(config());
    let auth = AuthData {
        users1: "A1".to_string(),
        users2: "B2".to_string(),
        csrf_token: "tok".to_string(),
    };
    let request = api.frame_request("path/op", "\"m\"", "\"v\"", &auth, "{\"k\":1}");
    assert_eq!(request.url, "https://backend.example/path/op");
    assert_eq!(
        request.body,
        "{\"versionInfo\":{\"moduleVersion\":\"m\",\"apiVersion\":\"v\"},\"viewName\":\"RegistrationFlow.OnBoarding\",\"inputParameters\":{\"k\":1}}"
    );
    assert_eq!(
        request.headers,
        vec![
            header("content-type", "application/json; charset=UTF-8"),
            header("x-csrftoken", "tok"),
            header("cookie", "nr1Users=A1; nr2Users=B2;"),
        ]
    );
}

#[test]
fn api_rq_writes_versions_as_json_strings() {
    let api = BiedApi::new(config());
    let auth = AuthData {
        users1: "A1".to_string(),
        users2: "B2".to_string(),
        csrf_token: "tok".to_string(),
    };
    let request = api.api_rq("x", "v\"9\\", auth, "null").expect("framed");
    assert_eq!(request.url, "https://backend.example/x");
    assert_eq!(
        request.body,
        "{\"versionInfo\":{\"moduleVersion\":\"mod-1\",\"apiVersion\":\"v\\\"9\\\\\"},\"viewName\":\"RegistrationFlow.OnBoarding\",\"inputParameters\":null}"
    );
    assert_eq!(request.headers[1], header("x-csrftoken", "tok"));
    assert_eq!(request.headers[2], header("cookie", "nr1Users=A1; nr2Users=B2;"));
}

#[test]
fn api_rq_body_is_valid_json() {
    let api = BiedApi::new(config());
    let request = api
        .api_rq("x", "line\nbreak", AuthData::anonymous("t"), "{\"phone\":\"+1555\"}")
        .expect("framed");
    let value: serde_json::Value = serde_json::from_str(&request.body).expect("json");
    assert_eq!(value["versionInfo"]["moduleVersion"].as_str(), Some("mod-1"));
    assert_eq!(value["versionInfo"]["apiVersion"].as_str(), Some("line\nbreak"));
    assert_eq!(value["viewName"].as_str(), Some("RegistrationFlow.OnBoarding"));
    assert_eq!(value["inputParameters"]["phone"].as_str(), Some("+1555"));
}

#[test]
fn anonymous_request_uses_configured_token_and_no_cookies() {
    let api = BiedApi::new(config());
    let request = api
        .anonymous_request(Operation::RequestSmsCode, "sms", "{}")
        .expect("framed");
    assert_eq!(request.url, "https://backend.example/sms");
    assert_eq!(
        request.headers,
        vec![
            header("content-type", "application/json; charset=UTF-8"),
            header("x-csrftoken", "anon-token"),
            header("cookie", "nr1Users=; nr2Users=;"),
        ]
    );
}

#[test]
fn anonymous_request_picks_version_of_operation() {
    let api = BiedApi::new(config());
    let cases = [
        (Operation::RequestSmsCode, "sms-2"),
        (Operation::ComputeNextStep, "next-3"),
        (Operation::Register, "create-4"),
        (Operation::Login, "login-5"),
    ];
    for (operation, version) in cases {
        let request = api.anonymous_request(operation, "p", "{}").expect("framed");
        let expected = format!(
            "{{\"versionInfo\":{{\"moduleVersion\":\"mod-1\",\"apiVersion\":\"{}\"}},\"viewName\":\"RegistrationFlow.OnBoarding\",\"inputParameters\":{{}}}}",
            version
        );
        assert_eq!(request.body, expected);
    }
}

#[test]
fn offers_request_goes_to_brand_sync() {
    let api = BiedApi::new(config());
    let auth = AuthData {
        users1: "A1".to_string(),
        users2: "B2".to_string(),
        csrf_token: "tok".to_string(),
    };
    let request = api.offers_request(auth).expect("framed");
    assert_eq!(
        request.url,
        "https://backend.example/Brand_Sync/ActionServerDataSync_2_J4y"
    );
    assert_eq!(
        request.body,
        "{\"versionInfo\":{\"moduleVersion\":\"mod-1\",\"apiVersion\":\"promo-6\"},\"viewName\":\"RegistrationFlow.OnBoarding\",\"inputParameters\":{\"J4yCacheRefresh\":\"2022-01-01T10:10:10.101Z\"}}"
    );
    assert_eq!(request.headers[1], header("x-csrftoken", "tok"));
}

#[test]
fn anonymous_credentials_are_not_authenticated() {
    let anonymous = AuthData::anonymous("fixed");
    assert_eq!(anonymous.users1, "");
    assert_eq!(anonymous.users2, "");
    assert_eq!(anonymous.csrf_token, "fixed");
    assert!(!anonymous.is_authenticated());
}

#[test]
fn credentials_are_authenticated_when_all_three_are_set() {
    let full = AuthData {
        users1: "a".to_string(),
        users2: "b".to_string(),
        csrf_token: "c".to_string(),
    };
    assert!(full.is_authenticated());
    for missing in 0..3 {
        let mut partial = full.clone();
        match missing {
            0 => partial.users1.clear(),
            1 => partial.users2.clear(),
            _ => partial.csrf_token.clear(),
        }
        assert!(!partial.is_authenticated());
    }
}

fn reply(sms_sent: bool, is_blocked: bool, blocked_in_minutes: i32) -> SmsCodeReply {
    SmsCodeReply { sms_sent, is_blocked, blocked_in_minutes, reason: "why".to_string() }
}

#[test]
fn sms_code_sent_and_not_blocked_succeeds() {
    assert_eq!(BiedApi::read_sms_code(Ok(reply(true, false, 0))), Ok(()));
    assert_eq!(BiedApi::read_sms_code(Ok(reply(true, false, -3))), Ok(()));
}

#[test]
fn sms_code_blocked_for_minutes() {
    assert_eq!(
        BiedApi::read_sms_code(Ok(reply(false, true, 5))),
        Err(ProvisionError::Blocked(BlockDuration::Minutes(5)))
    );
    assert_eq!(
        BiedApi::read_sms_code(Ok(reply(true, false, 7))),
        Err(ProvisionError::Blocked(BlockDuration::Minutes(7)))
    );
    assert_eq!(
        BiedApi::read_sms_code(Ok(reply(true, true, i32::MAX))),
        Err(ProvisionError::Blocked(BlockDuration::Minutes(2147483647)))
    );
}

#[test]
fn sms_code_blocked_without_duration() {
    assert_eq!(
        BiedApi::read_sms_code(Ok(reply(true, true, 0))),
        Err(ProvisionError::Blocked(BlockDuration::Indefinite))
    );
    assert_eq!(
        BiedApi::read_sms_code(Ok(reply(false, true, -1))),
        Err(ProvisionError::Blocked(BlockDuration::Indefinite))
    );
}

#[test]
fn sms_code_not_sent_fails_with_reason() {
    assert_eq!(
        BiedApi::read_sms_code(Ok(reply(false, false, 0))),
        Err(ProvisionError::SendFailed("why".to_string()))
    );
}

#[test]
fn sms_code_transport_failure_is_handed_on() {
    assert_eq!(
        BiedApi::read_sms_code(Err(ApiError::new("timeout".to_string()))),
        Err(ProvisionError::Transport(ApiError("timeout".to_string())))
    );
}

#[test]
fn next_step_new_account() {
    assert_eq!(BiedApi::read_next_step(Ok("NewAccount".to_string())), Ok(NextStep::NewAccount));
}

#[test]
fn next_step_account_exists() {
    assert_eq!(
        BiedApi::read_next_step(Ok("AccountExists".to_string())),
        Ok(NextStep::AccountExists)
    );
}

#[test]
fn next_step_unrecognized_holds_value() {
    for value in ["", "newaccount", "NewAccount ", "Maintenance"] {
        assert_eq!(
            BiedApi::read_next_step(Ok(value.to_string())),
            Err(ProvisionError::UnrecognizedStep(value.to_string()))
        );
    }
}

#[test]
fn next_step_transport_failure_is_handed_on() {
    assert_eq!(
        BiedApi::read_next_step(Err(ApiError("500".to_string()))),
        Err(ProvisionError::Transport(ApiError("500".to_string())))
    );
}

#[test]
fn register_succeeds_when_transport_does() {
    assert_eq!(BiedApi::read_register(Ok(())), Ok(()));
    assert_eq!(
        BiedApi::read_register(Err(ApiError("refused".to_string()))),
        Err(ProvisionError::Transport(ApiError("refused".to_string())))
    );
}

#[test]
fn error_kinds_tell_failures_apart() {
    assert_eq!(ProvisionError::Transport(ApiError("x".to_string())).kind(), ErrorKind::Transport);
    assert_eq!(ProvisionError::Blocked(BlockDuration::Minutes(1)).kind(), ErrorKind::SmsGate);
    assert_eq!(ProvisionError::Blocked(BlockDuration::Indefinite).kind(), ErrorKind::SmsGate);
    assert_eq!(ProvisionError::SendFailed("r".to_string()).kind(), ErrorKind::SmsGate);
    assert_eq!(
        ProvisionError::UnrecognizedStep("s".to_string()).kind(),
        ErrorKind::Inconsistency
    );
    assert_eq!(
        ProvisionError::MissingCookie("n".to_string()).kind(),
        ErrorKind::Authentication
    );
    assert_eq!(ProvisionError::CsrfNotFound.kind(), ErrorKind::Authentication);
    assert_eq!(ProvisionError::Store(StoreError("s".to_string())).kind(), ErrorKind::Store);
}

#[test]
fn error_descriptions_are_kept() {
    assert_eq!(ApiError::new("a".to_string()).description(), "a");
    assert_eq!(StoreError::new("b".to_string()).description(), "b");
    assert_eq!(StoreError::missing_account(), StoreError("no account with that name".to_string()));
}

#[test]
fn registration_form_carries_defaults_and_legal_documents() {
    let api = BiedApi::new(config());
    let defaults = RegistrationDefaults { locale: "pl".to_string(), store_id: "0042".to_string() };
    assert_eq!(
        api.registration_form(&defaults, "+1555", "1234", "Jan Kowalski"),
        RegistrationForm {
            phone_number: "+1555".to_string(),
            sms_code: "1234".to_string(),
            display_name: "Jan Kowalski".to_string(),
            locale: "pl".to_string(),
            store_id: "0042".to_string(),
            email: String::new(),
            date_of_birth: String::new(),
            legal_ids: vec!["doc-1".to_string(), "doc-2".to_string()],
        }
    );
}

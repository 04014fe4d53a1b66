use fastly_creds_pusher::config::{build_config, parse_log_level, LogLevel};
use fastly_creds_pusher::creds::{Creds, RoleFields, DEFAULT_SESSION_TIME};
use fastly_creds_pusher::dict::{DictModel, FastlyDict};
use fastly_creds_pusher::errors::{
    ConfigError, PublishError, RunError, SSMError, STSError, StartupError,
};
use fastly_creds_pusher::pipeline::{Orchestrator, RunState, StepAction, StepEvent};
use fastly_creds_pusher::secret::SecretParameter;

fn full_config() -> fastly_creds_pusher::config::Config {
    build_config(
        Some("arn:aws:iam::123456789012:role/edge".to_string()),
        Some("/edge/fastly-token".to_string()),
        Some("svc1".to_string()),
        Some("dict1".to_string()),
        None,
    )
    .expect("all required values present")
}

fn orchestrator() -> Orchestrator {
    Orchestrator::new(full_config(), Ok(Some(Some("tok-123".to_string()))))
        .expect("token fetch succeeded")
}

fn complete_fields() -> RoleFields {
    RoleFields {
        access_key_id: Some("AKIA1".to_string()),
        secret_access_key: Some("SECRET1".to_string()),
        session_token: Some("TOKEN1".to_string()),
    }
}

#[test]
fn successful_run_publishes_three_entries_in_order() {
    let orch = orchestrator();
    let mut dict = DictModel::new();
    let mut recorded: Vec<(String, String)> = Vec::new();

    let mut state = orch.begin();
    let first = orch.next_action(&state).expect("an action is pending at start");
    match first {
        StepAction::AssumeRole(req) => {
            assert_eq!(req.role_arn, "arn:aws:iam::123456789012:role/edge");
            assert_eq!(req.session_name, "fastlycredspusher");
            assert_eq!(req.duration_seconds, DEFAULT_SESSION_TIME);
            assert_eq!(req.duration_seconds, 14400);
        }
        StepAction::Upsert(_) => panic!("the first action must assume the role"),
    }
    state = state.step(StepEvent::RoleAssumed(Ok(Some(complete_fields()))));

    loop {
        match orch.next_action(&state) {
            None => break,
            Some(StepAction::AssumeRole(_)) => panic!("the role is assumed once"),
            Some(StepAction::Upsert(req)) => {
                assert_eq!(req.service_id, "svc1");
                assert_eq!(req.dictionary_id, "dict1");
                assert_eq!(req.api_token, "tok-123");
                recorded.push((req.key.clone(), req.value.clone()));
                dict.upsert(req.key, req.value);
                state = state.step(StepEvent::UpsertDone(Ok(())));
            }
        }
    }

    assert!(matches!(state, RunState::Done));
    assert_eq!(
        recorded,
        vec![
            ("aws_access_key_id".to_string(), "AKIA1".to_string()),
            ("aws_secret_access_key".to_string(), "SECRET1".to_string()),
            ("aws_session_token".to_string(), "TOKEN1".to_string()),
        ]
    );
    assert_eq!(
        dict.get(&"aws_access_key_id".to_string()).map(String::as_str),
        Some("AKIA1")
    );
    assert_eq!(
        dict.get(&"aws_secret_access_key".to_string()).map(String::as_str),
        Some("SECRET1")
    );
    assert_eq!(
        dict.get(&"aws_session_token".to_string()).map(String::as_str),
        Some("TOKEN1")
    );
}

#[test]
fn missing_session_token_fails_without_any_upsert() {
    let orch = orchestrator();
    let state = orch.begin();
    let fields = RoleFields {
        access_key_id: Some("AKIA1".to_string()),
        secret_access_key: Some("SECRET1".to_string()),
        session_token: None,
    };
    let state = state.step(StepEvent::RoleAssumed(Ok(Some(fields))));
    assert!(matches!(
        state,
        RunState::Failed(RunError::AssumeRole(STSError::InvalidResponse))
    ));
    assert!(orch.next_action(&state).is_none(), "no upsert may be attempted");
}

#[test]
fn response_without_credentials_is_invalid() {
    let state = RunState::Start.step(StepEvent::RoleAssumed(Ok(None)));
    assert!(matches!(
        state,
        RunState::Failed(RunError::AssumeRole(STSError::InvalidResponse))
    ));
}

#[test]
fn empty_credential_field_is_invalid() {
    let fields = RoleFields {
        access_key_id: Some(String::new()),
        secret_access_key: Some("SECRET1".to_string()),
        session_token: Some("TOKEN1".to_string()),
    };
    let r = Creds::from_response(Some(fields));
    assert!(matches!(r, Err(STSError::InvalidResponse)));
}

#[test]
fn provider_failure_during_assume_role() {
    let state = RunState::Start.step(StepEvent::RoleAssumed(Err("throttled".to_string())));
    match state {
        RunState::Failed(RunError::AssumeRole(STSError::Provider(m))) => {
            assert_eq!(m, "throttled");
        }
        other => panic!("expected a provider failure, got {:?}", other),
    }
}

#[test]
fn empty_secret_is_fatal_at_startup() {
    let r = Orchestrator::new(full_config(), Ok(Some(None)));
    assert!(matches!(
        r,
        Err(StartupError::SecretFetch(SSMError::EmptyParameter))
    ));
}

#[test]
fn empty_string_secret_is_fatal_at_startup() {
    let r = Orchestrator::new(full_config(), Ok(Some(Some(String::new()))));
    assert!(matches!(
        r,
        Err(StartupError::SecretFetch(SSMError::EmptyParameter))
    ));
}

#[test]
fn missing_parameter_is_fatal_at_startup() {
    let r = Orchestrator::new(full_config(), Ok(None));
    assert!(matches!(
        r,
        Err(StartupError::SecretFetch(SSMError::ParameterNotExist))
    ));
}

#[test]
fn provider_failure_during_secret_fetch() {
    let r = SecretParameter::from_fetch(
        "/edge/fastly-token".to_string(),
        Err("access denied".to_string()),
    );
    match r {
        Err(SSMError::Provider(m)) => assert_eq!(m, "access denied"),
        other => panic!("expected a provider failure, got {:?}", other),
    }
}

#[test]
fn fetched_secret_carries_name_and_value() {
    let p = SecretParameter::from_fetch(
        "/edge/fastly-token".to_string(),
        Ok(Some(Some("tok-123".to_string()))),
    )
    .expect("a present non-empty value is usable");
    assert_eq!(p.name(), "/edge/fastly-token");
    assert_eq!(p.value(), "tok-123");
}

#[test]
fn upsert_twice_same_value_is_idempotent() {
    let mut once = DictModel::new();
    once.upsert("k".to_string(), "v".to_string());
    let mut twice = DictModel::new();
    twice.upsert("k".to_string(), "v".to_string());
    twice.upsert("k".to_string(), "v".to_string());
    assert_eq!(once.get(&"k".to_string()), twice.get(&"k".to_string()));
    assert_eq!(once.get(&"other".to_string()), None);
    assert_eq!(twice.get(&"other".to_string()), None);
}

#[test]
fn upsert_same_key_last_write_wins() {
    let mut dict = DictModel::new();
    dict.upsert("k".to_string(), "v1".to_string());
    dict.upsert("k".to_string(), "v2".to_string());
    assert_eq!(dict.get(&"k".to_string()).map(String::as_str), Some("v2"));
}

#[test]
fn third_upsert_failure_leaves_stale_session_token() {
    let orch = orchestrator();
    let mut dict = DictModel::new();
    dict.upsert("aws_access_key_id".to_string(), "OLDKEY".to_string());
    dict.upsert("aws_secret_access_key".to_string(), "OLDSECRET".to_string());
    dict.upsert("aws_session_token".to_string(), "OLDTOKEN".to_string());

    let mut state = orch.begin();
    state = state.step(StepEvent::RoleAssumed(Ok(Some(complete_fields()))));
    let mut upserts_done: u8 = 0;
    loop {
        match orch.next_action(&state) {
            None => break,
            Some(StepAction::AssumeRole(_)) => panic!("the role is assumed once"),
            Some(StepAction::Upsert(req)) => {
                if upserts_done < 2 {
                    dict.upsert(req.key, req.value);
                    upserts_done += 1;
                    state = state.step(StepEvent::UpsertDone(Ok(())));
                } else {
                    state = state.step(StepEvent::UpsertDone(Err("bad gateway".to_string())));
                }
            }
        }
    }

    match &state {
        RunState::Failed(RunError::Publish(PublishError::Provider(m))) => {
            assert_eq!(m, "bad gateway");
        }
        other => panic!("the run must report a publish failure, got {:?}", other),
    }
    assert_eq!(
        dict.get(&"aws_access_key_id".to_string()).map(String::as_str),
        Some("AKIA1")
    );
    assert_eq!(
        dict.get(&"aws_secret_access_key".to_string()).map(String::as_str),
        Some("SECRET1")
    );
    assert_eq!(
        dict.get(&"aws_session_token".to_string()).map(String::as_str),
        Some("OLDTOKEN")
    );
}

#[test]
fn missing_required_configuration_is_reported_in_order() {
    let r = build_config(None, None, None, None, None);
    assert_eq!(r.unwrap_err(), ConfigError::MissingRoleArn);

    let r = build_config(Some("arn".to_string()), None, None, None, None);
    assert_eq!(r.unwrap_err(), ConfigError::MissingTokenName);

    let r = build_config(
        Some("arn".to_string()),
        Some("name".to_string()),
        None,
        None,
        None,
    );
    assert_eq!(r.unwrap_err(), ConfigError::MissingServiceId);

    let r = build_config(
        Some("arn".to_string()),
        Some("name".to_string()),
        Some("svc".to_string()),
        None,
        None,
    );
    assert_eq!(r.unwrap_err(), ConfigError::MissingDictionaryId);
}

#[test]
fn unset_configuration_prevents_startup() {
    match build_config(None, None, None, None, None) {
        Err(e) => {
            // Without a configuration there is no orchestrator, so no
            // invocation can ever run.
            assert_eq!(e, ConfigError::MissingRoleArn);
        }
        Ok(_) => panic!("a missing required value must fail construction"),
    }
}

#[test]
fn configuration_carries_the_given_values() {
    let c = full_config();
    assert_eq!(c.role_arn, "arn:aws:iam::123456789012:role/edge");
    assert_eq!(c.token_ssm_name, "/edge/fastly-token");
    assert_eq!(c.service_id, "svc1");
    assert_eq!(c.dictionary_id, "dict1");
    assert_eq!(c.log_level, LogLevel::Info);
}

#[test]
fn log_level_spellings() {
    assert_eq!(parse_log_level(&None), LogLevel::Info);
    assert_eq!(parse_log_level(&Some("TRACE".to_string())), LogLevel::Trace);
    assert_eq!(parse_log_level(&Some("DEBUG".to_string())), LogLevel::Debug);
    assert_eq!(parse_log_level(&Some("WARN".to_string())), LogLevel::Debug);
    assert_eq!(parse_log_level(&Some("ERROR".to_string())), LogLevel::Error);
    assert_eq!(parse_log_level(&Some("verbose".to_string())), LogLevel::Info);
}

#[test]
fn upsert_request_is_fully_addressed() {
    let dict = FastlyDict::new("svc9".to_string(), "dict9".to_string(), "tok9".to_string());
    let req = dict.upsert_request("some_key", "some_value");
    assert_eq!(req.service_id, "svc9");
    assert_eq!(req.dictionary_id, "dict9");
    assert_eq!(req.key, "some_key");
    assert_eq!(req.value, "some_value");
    assert_eq!(req.api_token, "tok9");
}

#[test]
fn validated_creds_carry_the_response_fields() {
    let c = Creds::from_response(Some(complete_fields())).expect("a complete response is valid");
    assert_eq!(c.aws_access_key_id, "AKIA1");
    assert_eq!(c.aws_secret_access_key, "SECRET1");
    assert_eq!(c.aws_session_token, "TOKEN1");
}

//! Tests of configuration loading: assembling the run's values from raw
//! lookups, and validating them against the gateway.

use twitter_privacy::api::{APIError, ApiCall, TestAPI};
use twitter_privacy::config::{Config, EnvError, EnvLookup, EnvValues, EnvVar, RawEnvValues};

fn sample_env_values() -> EnvValues {
    EnvValues {
        consumer_key: String::from("ck"),
        consumer_secret: String::from("cs"),
        access_key: String::from("ak"),
        access_secret: String::from("as"),
        user_handle: String::from("uh"),
        preserve_days: 1,
    }
}

fn sample_raw(preserve_days: &str) -> RawEnvValues {
    RawEnvValues {
        consumer_key: EnvLookup::Found(String::from("ck")),
        consumer_secret: EnvLookup::Found(String::from("cs")),
        access_key: EnvLookup::Found(String::from("ak")),
        access_secret: EnvLookup::Found(String::from("as")),
        user_handle: EnvLookup::Found(String::from("uh")),
        preserve_days: EnvLookup::Found(String::from(preserve_days)),
    }
}

#[test]
fn error_if_invalid_token() {
    let err = APIError::InvalidToken;
    let mut api = TestAPI {
        validate_token_answer: Err(err.clone()),
        ..Default::default()
    };

    match Config::load(sample_env_values(), &mut api) {
        Ok(_) => panic!("It should return an error"),
        Err(e) => assert_eq!(e, err),
    }
    assert_eq!(api.methods_called_in_order, vec![ApiCall::ValidateToken]);
}

#[test]
fn error_if_api_user_id_fails() {
    let err = APIError::UserDetailsError(String::from("api error"));
    let mut api = TestAPI {
        get_user_id_answer: Err(err.clone()),
        ..Default::default()
    };

    match Config::load(sample_env_values(), &mut api) {
        Ok(_) => panic!("It should return an error"),
        Err(e) => assert_eq!(e, err),
    }
    assert_eq!(
        api.methods_called_in_order,
        vec![ApiCall::ValidateToken, ApiCall::GetUserId]
    );
}

#[test]
fn config_has_expected_values() {
    let mut api = TestAPI {
        get_user_id_answer: Ok(42),
        ..Default::default()
    };

    let config = Config::load(sample_env_values(), &mut api).unwrap();

    assert_eq!(config.user_id, 42);
    assert_eq!(config.screen_name, "uh");
    assert_eq!(config.preserve_days, 1);
    assert_eq!(config.token.consumer_key, "ck");
    assert_eq!(config.token.consumer_secret, "cs");
    assert_eq!(config.token.access_key, "ak");
    assert_eq!(config.token.access_secret, "as");
}

#[test]
fn env_load_returns_values() {
    let values = EnvValues::load(sample_raw("17")).unwrap();

    assert_eq!(values.consumer_key, "ck");
    assert_eq!(values.consumer_secret, "cs");
    assert_eq!(values.access_key, "ak");
    assert_eq!(values.access_secret, "as");
    assert_eq!(values.user_handle, "uh");
    assert_eq!(values.preserve_days, 17);
}

#[test]
fn env_load_accepts_signed_numbers() {
    assert_eq!(EnvValues::load(sample_raw("-3")).unwrap().preserve_days, -3);
    assert_eq!(EnvValues::load(sample_raw("+8")).unwrap().preserve_days, 8);
}

#[test]
fn env_load_rejects_missing_variable() {
    let mut raw = sample_raw("1");
    raw.consumer_secret = EnvLookup::Missing;

    assert_eq!(
        EnvValues::load(raw),
        Err(EnvError::NotPresent(EnvVar::ConsumerSecret))
    );
}

#[test]
fn env_load_rejects_non_unicode_variable() {
    let mut raw = sample_raw("1");
    raw.access_key = EnvLookup::NotUnicode;

    assert_eq!(
        EnvValues::load(raw),
        Err(EnvError::NotUnicode(EnvVar::AccessKey))
    );
}

#[test]
fn env_load_reports_first_failure_in_reading_order() {
    let mut raw = sample_raw("1");
    raw.consumer_key = EnvLookup::Missing;
    raw.user_handle = EnvLookup::NotUnicode;

    assert_eq!(
        EnvValues::load(raw),
        Err(EnvError::NotPresent(EnvVar::ConsumerKey))
    );
}

#[test]
fn env_load_rejects_bad_number() {
    for text in ["", "one", "7 ", " 7", "7.5", "++4", "--4", "99999999999999999999"] {
        assert_eq!(
            EnvValues::load(sample_raw(text)),
            Err(EnvError::NotAnInteger(EnvVar::PreserveDays)),
            "input {:?} should be rejected",
            text
        );
    }
}

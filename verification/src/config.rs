//! Run configuration: the values the engine needs for one cleanup pass.
//!
//! [`EnvValues`] carries the raw configuration values of one run — the four
//! credential strings, the account handle, and the retention window in
//! days.  [`EnvValues::load`] assembles it from the plain lookup results
//! the caller took out of its key/value source (the process environment,
//! in the shipped binary), rejecting the first value that is missing,
//! unreadable or, for the retention window, not an integer.
//! [`Config::load`] then turns it into a validated [`Config`] by checking
//! the credential against the gateway and resolving the account's numeric
//! identifier.

use vstd::prelude::*;

verus! {

use crate::api::{APIError, ApiCall, Token, TwitterAPI};

/// The configuration values one run needs, before any remote validation.
#[derive(PartialEq, Eq, Debug)]
pub struct EnvValues {
    pub consumer_key: String,
    pub consumer_secret: String,
    pub access_key: String,
    pub access_secret: String,
    pub user_handle: String,
    pub preserve_days: i64,
}

impl Clone for EnvValues {
    fn clone(&self) -> (r: Self)
        ensures
            r == *self,
    {
        EnvValues {
            consumer_key: self.consumer_key.clone(),
            consumer_secret: self.consumer_secret.clone(),
            access_key: self.access_key.clone(),
            access_secret: self.access_secret.clone(),
            user_handle: self.user_handle.clone(),
            preserve_days: self.preserve_days,
        }
    }
}

/// What looking one configuration variable up in the key/value source
/// found: its text, nothing, or a value that was not valid text.
#[derive(PartialEq, Eq, Debug)]
pub enum EnvLookup {
    Found(String),
    Missing,
    NotUnicode,
}

/// The configuration variables a run reads, by role.
#[derive(Clone, Copy, PartialEq, Eq, Debug, Structural)]
pub enum EnvVar {
    ConsumerKey,
    ConsumerSecret,
    AccessKey,
    AccessSecret,
    UserHandle,
    PreserveDays,
}

/// Why a configuration variable was rejected: it was absent, its value was
/// not valid text, or it had to be an integer and was not.
#[derive(Clone, Copy, PartialEq, Eq, Debug, Structural)]
pub enum EnvError {
    NotPresent(EnvVar),
    NotUnicode(EnvVar),
    NotAnInteger(EnvVar),
}

/// The raw lookup results for the six configuration variables of a run.
#[derive(PartialEq, Eq, Debug)]
pub struct RawEnvValues {
    pub consumer_key: EnvLookup,
    pub consumer_secret: EnvLookup,
    pub access_key: EnvLookup,
    pub access_secret: EnvLookup,
    pub user_handle: EnvLookup,
    pub preserve_days: EnvLookup,
}

/// True when every character is a decimal digit.
pub open spec fn all_decimal_digits(s: Seq<char>) -> bool {
    forall|i: int| 0 <= i < s.len() ==> '0' <= #[trigger] s[i] && s[i] <= '9'
}

/// The integer a sequence of decimal digits denotes.
pub open spec fn decimal_value(s: Seq<char>) -> int
    decreases s.len(),
{
    if s.len() == 0 {
        0
    } else {
        decimal_value(s.drop_last()) * 10 + (s.last() as int - '0' as int)
    }
}

/// The signed 64-bit integer the text denotes, if any: an optional leading
/// `+` or `-`, then one or more decimal digits and nothing else, with a
/// value that fits in 64 signed bits.  This is exactly what parsing the
/// text as an `i64` accepts.
pub open spec fn parsed_i64(s: Seq<char>) -> Option<int> {
    if s.len() > 0 && (s[0] == '+' || s[0] == '-') {
        parsed_magnitude(s.skip(1), s[0] == '-')
    } else {
        parsed_magnitude(s, false)
    }
}

/// The value of the digit part of a signed decimal, if it is well formed
/// and in the range of `i64`.
pub open spec fn parsed_magnitude(digits: Seq<char>, negative: bool) -> Option<int> {
    if digits.len() > 0 && all_decimal_digits(digits) {
        let v = if negative {
            -decimal_value(digits)
        } else {
            decimal_value(digits)
        };
        if i64::MIN <= v <= i64::MAX {
            Some(v)
        } else {
            None
        }
    } else {
        None
    }
}

/// Relies on `str::parse::<i64>`: it accepts exactly an optional sign
/// followed by one or more decimal digits whose value fits in an `i64`,
/// and returns that value.
#[verifier::external_body]
fn parse_i64(s: &str) -> (r: Option<i64>)
    ensures
        r matches Some(v) ==> parsed_i64(s@) == Some(v as int),
        r is None ==> parsed_i64(s@) is None,
{
    s.parse::<i64>().ok()
}

/// The text a lookup found, or the rejection naming the variable.
pub open spec fn lookup_outcome(lookup: EnvLookup, name: EnvVar) -> Result<String, EnvError> {
    match lookup {
        EnvLookup::Found(s) => Ok(s),
        EnvLookup::Missing => Err(EnvError::NotPresent(name)),
        EnvLookup::NotUnicode => Err(EnvError::NotUnicode(name)),
    }
}

/// What loading the configuration from the given lookups returns: the
/// first rejected variable in reading order, or the assembled values with
/// the retention window parsed as an integer.
pub open spec fn env_load_outcome(raw: RawEnvValues) -> Result<EnvValues, EnvError> {
    match lookup_outcome(raw.consumer_key, EnvVar::ConsumerKey) {
        Err(e) => Err(e),
        Ok(consumer_key) => match lookup_outcome(raw.consumer_secret, EnvVar::ConsumerSecret) {
            Err(e) => Err(e),
            Ok(consumer_secret) => match lookup_outcome(raw.access_key, EnvVar::AccessKey) {
                Err(e) => Err(e),
                Ok(access_key) => match lookup_outcome(raw.access_secret, EnvVar::AccessSecret) {
                    Err(e) => Err(e),
                    Ok(access_secret) => match lookup_outcome(
                        raw.user_handle,
                        EnvVar::UserHandle,
                    ) {
                        Err(e) => Err(e),
                        Ok(user_handle) => match lookup_outcome(
                            raw.preserve_days,
                            EnvVar::PreserveDays,
                        ) {
                            Err(e) => Err(e),
                            Ok(preserve_days_text) => match parsed_i64(preserve_days_text@) {
                                None => Err(EnvError::NotAnInteger(EnvVar::PreserveDays)),
                                Some(v) => Ok(
                                    EnvValues {
                                        consumer_key,
                                        consumer_secret,
                                        access_key,
                                        access_secret,
                                        user_handle,
                                        preserve_days: v as i64,
                                    },
                                ),
                            },
                        },
                    },
                },
            },
        },
    }
}

/// Takes the text out of one lookup result, or rejects it naming the
/// variable it stands for.
pub fn get_env_var(lookup: EnvLookup, name: EnvVar) -> (r: Result<String, EnvError>)
    ensures
        r == lookup_outcome(lookup, name),
{
    match lookup {
        EnvLookup::Found(s) => Ok(s),
        EnvLookup::Missing => Err(EnvError::NotPresent(name)),
        EnvLookup::NotUnicode => Err(EnvError::NotUnicode(name)),
    }
}

impl EnvValues {
    /// Assembles the configuration values of one run from the given
    /// lookup results.  The variables are checked in reading order —
    /// consumer key, consumer secret, access key, access secret, user
    /// handle, retention window — and the first missing, unreadable or
    /// non-integer value is rejected, naming the variable.
    pub fn load(raw: RawEnvValues) -> (r: Result<EnvValues, EnvError>)
        ensures
            r == env_load_outcome(raw),
    {
        let RawEnvValues {
            consumer_key,
            consumer_secret,
            access_key,
            access_secret,
            user_handle,
            preserve_days,
        } = raw;
        let consumer_key = match get_env_var(consumer_key, EnvVar::ConsumerKey) {
            Ok(s) => s,
            Err(e) => {
                return Err(e);
            }
        };
        let consumer_secret = match get_env_var(consumer_secret, EnvVar::ConsumerSecret) {
            Ok(s) => s,
            Err(e) => {
                return Err(e);
            }
        };
        let access_key = match get_env_var(access_key, EnvVar::AccessKey) {
            Ok(s) => s,
            Err(e) => {
                return Err(e);
            }
        };
        let access_secret = match get_env_var(access_secret, EnvVar::AccessSecret) {
            Ok(s) => s,
            Err(e) => {
                return Err(e);
            }
        };
        let user_handle = match get_env_var(user_handle, EnvVar::UserHandle) {
            Ok(s) => s,
            Err(e) => {
                return Err(e);
            }
        };
        let preserve_days_text = match get_env_var(preserve_days, EnvVar::PreserveDays) {
            Ok(s) => s,
            Err(e) => {
                return Err(e);
            }
        };
        let preserve_days = match parse_i64(preserve_days_text.as_str()) {
            Some(v) => v,
            None => {
                return Err(EnvError::NotAnInteger(EnvVar::PreserveDays));
            }
        };
        Ok(
            EnvValues {
                consumer_key,
                consumer_secret,
                access_key,
                access_secret,
                user_handle,
                preserve_days,
            },
        )
    }
}

/// The validated configuration of one run: the credential, the account's
/// handle and resolved numeric identifier, and the retention window.
#[derive(PartialEq, Eq, Debug)]
pub struct Config {
    pub token: Token,
    pub screen_name: String,
    pub user_id: u64,
    pub preserve_days: i64,
}

/// The credential assembled from the configuration values.
pub open spec fn token_of(env: EnvValues) -> Token {
    Token {
        consumer_key: env.consumer_key,
        consumer_secret: env.consumer_secret,
        access_key: env.access_key,
        access_secret: env.access_secret,
    }
}

/// The gateway operations loading a configuration performs: the credential
/// check, then — only when the credential is accepted — the account
/// lookup.
pub open spec fn config_calls(validate: Result<(), APIError>) -> Seq<ApiCall> {
    if validate is Err {
        seq![ApiCall::ValidateToken]
    } else {
        seq![ApiCall::ValidateToken, ApiCall::GetUserId]
    }
}

/// What loading a configuration returns, given the gateway's answers: the
/// credential failure, or the lookup failure, or the validated
/// configuration carrying the resolved identifier.
pub open spec fn config_outcome(
    env: EnvValues,
    validate: Result<(), APIError>,
    user_id: Result<u64, APIError>,
) -> Result<Config, APIError> {
    match validate {
        Err(e) => Err(e),
        Ok(u) => match user_id {
            Err(e) => Err(e),
            Ok(id) => Ok(
                Config {
                    token: token_of(env),
                    screen_name: env.user_handle,
                    user_id: id,
                    preserve_days: env.preserve_days,
                },
            ),
        },
    }
}

impl Config {
    /// Validates the credential built from the configuration values
    /// against the gateway, resolves the account's numeric identifier,
    /// and returns the configuration of the run.  Both failures are
    /// returned unchanged; the lookup is not attempted when the
    /// credential is rejected.
    pub fn load<API: TwitterAPI>(env: EnvValues, api: &mut API) -> (r: Result<Config, APIError>)
        ensures
            crate::api::scripts_preserved(*old(api), *final(api)),
            crate::api::fixed_answers_preserved(*old(api), *final(api)),
            final(api).calls() == old(api).calls() + config_calls(old(api).validate_answer()),
            r == config_outcome(env, old(api).validate_answer(), old(api).user_id_answer()),
    {
        let EnvValues {
            consumer_key,
            consumer_secret,
            access_key,
            access_secret,
            user_handle,
            preserve_days,
        } = env;
        let token = Token { consumer_key, consumer_secret, access_key, access_secret };
        match api.validate_token(&token) {
            Ok(_) => {}
            Err(e) => {
                proof {
                    assert(api.calls() =~= old(api).calls() + config_calls(
                        old(api).validate_answer(),
                    ));
                }
                return Err(e);
            }
        }
        let user_id = match api.get_user_id(user_handle.as_str(), &token) {
            Ok(id) => id,
            Err(e) => {
                proof {
                    assert(api.calls() =~= old(api).calls() + config_calls(
                        old(api).validate_answer(),
                    ));
                }
                return Err(e);
            }
        };
        proof {
            assert(api.calls() =~= old(api).calls() + config_calls(old(api).validate_answer()));
        }
        Ok(Config { token, screen_name: user_handle, user_id, preserve_days })
    }
}

} // verus!

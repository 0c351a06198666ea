//! Secret lookup order, configuration checks and the allow-list of model-driven actions.
use vstd::prelude::*;

use crate::config::{SecretConfig, ServiceConfig};
use crate::error::InternalVoiceError;
use crate::text::{all_ws, is_blank, push_str};

verus! {

/// Actions the model may trigger.
#[derive(Debug, Clone, Copy, PartialEq, Eq, Structural)]
pub enum AllowedAction {
    Announce,
    QuerySystemState,
    SummarizeTopProcesses,
}

/// Whether the allow-list admits `action`: every listed action is admitted.
pub fn validate_action(action: &AllowedAction) -> (b: bool)
    ensures
        b,
{
    match action {
        AllowedAction::Announce | AllowedAction::QuerySystemState | AllowedAction::SummarizeTopProcesses => true,
    }
}

/// Rejects a configuration that allows no request per minute or names no model.
pub fn validate_config(requests_per_minute: u32, service: &ServiceConfig) -> (r: Result<(), InternalVoiceError>)
    ensures
        requests_per_minute == 0 ==> (r matches Err(InternalVoiceError::Config(m)) && m@
            == "limits.requests_per_minute must be > 0"@),
        requests_per_minute != 0 && all_ws(service.gemini_model@) ==> (r matches Err(InternalVoiceError::Config(m))
            && m@ == "service.gemini_model cannot be empty"@),
        requests_per_minute != 0 && !all_ws(service.gemini_model@) ==> r is Ok,
{
    if requests_per_minute == 0 {
        return Err(InternalVoiceError::Config(String::from_str("limits.requests_per_minute must be > 0")));
    }
    if is_blank(service.gemini_model.as_str()) {
        return Err(InternalVoiceError::Config(String::from_str("service.gemini_model cannot be empty")));
    }
    Ok(())
}

/// Where the Gemini API key is looked up, in order: the environment variable, the
/// `service.gemini_api_key` field, then the OS keyring.
pub struct SecretProvider<'a> {
    pub secrets: &'a SecretConfig,
    pub service: &'a ServiceConfig,
}

/// The key found before the keyring is asked: the environment value when it is not
/// blank, else the configured key when it is not blank.
pub open spec fn key_before_keyring(env_value: Option<String>, configured: Seq<char>) -> Option<Seq<char>> {
    match env_value {
        Some(v) if !all_ws(v@) => Some(v@),
        _ => if !all_ws(configured) {
            Some(configured)
        } else {
            None
        },
    }
}

/// The message of a failed key lookup.
pub open spec fn lookup_failure_spec(secrets: SecretConfig, keyring_error: Option<String>) -> Seq<char> {
    "Gemini API key not found. Tried env var `"@ + secrets.env_var@
        + "`, config field `service.gemini_api_key`, and keyring service `"@ + secrets.keyring_service@
        + "` account `"@ + secrets.keyring_account@ + "`"@ + match keyring_error {
        Some(e) => "; keyring error: "@ + e@,
        None => seq![],
    }
}

impl<'a> SecretProvider<'a> {
    /// A provider reading the given configuration sections.
    pub fn new(secrets: &'a SecretConfig, service: &'a ServiceConfig) -> (p: SecretProvider<'a>)
        ensures
            p.secrets == secrets,
            p.service == service,
    {
        SecretProvider { secrets, service }
    }

    /// The key from the environment value (the variable's content, if set) or the
    /// configuration; `None` when the keyring must be asked.
    pub fn key_without_keyring(&self, env_value: Option<String>) -> (r: Option<String>)
        ensures
            r matches Some(k) ==> key_before_keyring(env_value, self.service.gemini_api_key@) == Some(k@),
            r is None ==> key_before_keyring(env_value, self.service.gemini_api_key@) is None,
    {
        if let Some(v) = env_value {
            if !is_blank(v.as_str()) {
                return Some(v);
            }
        }
        if !is_blank(self.service.gemini_api_key.as_str()) {
            return Some(self.service.gemini_api_key.clone());
        }
        None
    }

    /// The outcome of the keyring lookup: its password, or a secret error naming every
    /// place that was tried and the keyring's own message.
    pub fn key_from_keyring(&self, keyring: Result<String, String>) -> (r: Result<String, InternalVoiceError>)
        ensures
            keyring matches Ok(k) ==> r == Ok::<String, InternalVoiceError>(k),
            keyring matches Err(e) ==> (r matches Err(InternalVoiceError::Secret(m)) && m@ == lookup_failure_spec(
                *self.secrets,
                Some(e),
            )),
    {
        match keyring {
            Ok(k) => Ok(k),
            Err(e) => Err(InternalVoiceError::Secret(self.gemini_lookup_failure(Some(e)))),
        }
    }

    /// The message of a failed key lookup, with the keyring's error when there is one.
    pub fn gemini_lookup_failure(&self, keyring_error: Option<String>) -> (m: String)
        ensures
            m@ == lookup_failure_spec(*self.secrets, keyring_error),
    {
        let mut m = String::from_str("Gemini API key not found. Tried env var `");
        push_str(&mut m, self.secrets.env_var.as_str());
        push_str(&mut m, "`, config field `service.gemini_api_key`, and keyring service `");
        push_str(&mut m, self.secrets.keyring_service.as_str());
        push_str(&mut m, "` account `");
        push_str(&mut m, self.secrets.keyring_account.as_str());
        push_str(&mut m, "`");
        if let Some(e) = keyring_error {
            push_str(&mut m, "; keyring error: ");
            push_str(&mut m, e.as_str());
        }
        assert(m@ =~= lookup_failure_spec(*self.secrets, keyring_error));
        m
    }
}

/// The environment is asked first, then the configuration, then the keyring: a
/// non-blank environment value always wins, and the keyring is asked only when both
/// are blank.
pub proof fn law_secret_lookup_order(env_value: Option<String>, configured: Seq<char>)
    ensures
        (env_value matches Some(v) && !all_ws(v@)) ==> key_before_keyring(env_value, configured) == Some(env_value->0@),
        !(env_value matches Some(v) && !all_ws(v@)) && !all_ws(configured) ==> key_before_keyring(env_value, configured)
            == Some(configured),
        key_before_keyring(env_value, configured) is None <==> (!(env_value matches Some(v) && !all_ws(v@)) && all_ws(
            configured,
        )),
{
}

} // verus!

use vstd::prelude::*;
use crate::text::{lemma_trim_idempotent, lemma_trim_end_matches_strips, has_prefix, trim, trim_end_matches, trimmed, trimmed_then_end_matches, starts_with};

verus! {

/// The stored configuration: where and how to reach the translation API, the
/// languages, and whether to launch at login.
pub struct Settings {
    pub endpoint: String,
    pub api_key: String,
    pub model: String,
    pub source_language: String,
    pub target_language: String,
    pub launch_at_login: bool,
}

/// The contents of a `Settings` value.
pub struct SettingsView {
    pub endpoint: Seq<char>,
    pub api_key: Seq<char>,
    pub model: Seq<char>,
    pub source_language: Seq<char>,
    pub target_language: Seq<char>,
    pub launch_at_login: bool,
}

impl View for Settings {
    type V = SettingsView;

    open spec fn view(&self) -> SettingsView {
        SettingsView {
            endpoint: self.endpoint@,
            api_key: self.api_key@,
            model: self.model@,
            source_language: self.source_language@,
            target_language: self.target_language@,
            launch_at_login: self.launch_at_login,
        }
    }
}

/// The source language value that asks the model to detect the language.
pub open spec fn auto_detect_language() -> Seq<char> {
    "自动检测"@
}

/// The settings used when none were saved yet.
pub open spec fn default_settings() -> SettingsView {
    SettingsView {
        endpoint: "https://api.openai.com/v1"@,
        api_key: Seq::empty(),
        model: "gpt-4.1-mini"@,
        source_language: auto_detect_language(),
        target_language: "简体中文"@,
        launch_at_login: false,
    }
}

impl Default for Settings {
    fn default() -> (s: Self)
        ensures
            s@ == default_settings(),
    {
        Settings {
            endpoint: "https://api.openai.com/v1".to_owned(),
            api_key: String::new(),
            model: "gpt-4.1-mini".to_owned(),
            source_language: "自动检测".to_owned(),
            target_language: "简体中文".to_owned(),
            launch_at_login: false,
        }
    }
}

/// The settings as shown to the settings window: everything but the API key,
/// of which only its presence is shown.
pub struct PublicSettings {
    pub endpoint: String,
    pub model: String,
    pub source_language: String,
    pub target_language: String,
    pub launch_at_login: bool,
    pub has_api_key: bool,
}

impl From<Settings> for PublicSettings {
    fn from(value: Settings) -> (res: Self) {
        let has_api_key = !value.api_key.as_str().is_empty();
        PublicSettings {
            endpoint: value.endpoint,
            model: value.model,
            source_language: value.source_language,
            target_language: value.target_language,
            launch_at_login: value.launch_at_login,
            has_api_key,
        }
    }
}

impl vstd::std_specs::convert::FromSpecImpl<Settings> for PublicSettings {
    open spec fn obeys_from_spec() -> bool {
        true
    }

    open spec fn from_spec(value: Settings) -> PublicSettings {
        PublicSettings {
            endpoint: value.endpoint,
            model: value.model,
            source_language: value.source_language,
            target_language: value.target_language,
            launch_at_login: value.launch_at_login,
            has_api_key: value.api_key@.len() > 0,
        }
    }
}

/// What the settings window submits.
pub struct SettingsInput {
    pub endpoint: String,
    pub api_key: String,
    pub model: String,
    pub source_language: String,
    pub target_language: String,
    pub launch_at_login: bool,
}

/// The contents of a `SettingsInput` value.
pub struct SettingsInputView {
    pub endpoint: Seq<char>,
    pub api_key: Seq<char>,
    pub model: Seq<char>,
    pub source_language: Seq<char>,
    pub target_language: Seq<char>,
    pub launch_at_login: bool,
}

impl View for SettingsInput {
    type V = SettingsInputView;

    open spec fn view(&self) -> SettingsInputView {
        SettingsInputView {
            endpoint: self.endpoint@,
            api_key: self.api_key@,
            model: self.model@,
            source_language: self.source_language@,
            target_language: self.target_language@,
            launch_at_login: self.launch_at_login,
        }
    }
}

/// Why settings could not be read or saved.
pub enum SettingsError {
    /// The configuration directory could not be determined.
    MissingConfigDir,
    /// Reading or writing the settings file failed, with the reason.
    Io(String),
    /// The settings file does not hold valid settings, with the reason.
    Json(String),
    /// The API endpoint does not start with `http://` or `https://`.
    InvalidEndpoint,
    /// The model name is blank.
    EmptyModel,
    /// The target language is blank.
    EmptyTarget,
}

/// The user-facing text of each settings error.
pub open spec fn settings_error_text(e: SettingsError) -> Seq<char> {
    match e {
        SettingsError::MissingConfigDir => "无法确定配置目录"@,
        SettingsError::Io(reason) => "无法读写设置："@ + reason@,
        SettingsError::Json(reason) => "设置格式无效："@ + reason@,
        SettingsError::InvalidEndpoint => "API 地址必须以 http:// 或 https:// 开头"@,
        SettingsError::EmptyModel => "模型名称不能为空"@,
        SettingsError::EmptyTarget => "目标语言不能为空"@,
    }
}

impl SettingsError {
    /// The user-facing text of the error.
    pub fn message(&self) -> (res: String)
        ensures
            res@ == settings_error_text(*self),
    {
        match self {
            SettingsError::MissingConfigDir => "无法确定配置目录".to_owned(),
            SettingsError::Io(reason) => {
                let mut s = "无法读写设置：".to_owned();
                s.append(reason.as_str());
                s
            },
            SettingsError::Json(reason) => {
                let mut s = "设置格式无效：".to_owned();
                s.append(reason.as_str());
                s
            },
            SettingsError::InvalidEndpoint => "API 地址必须以 http:// 或 https:// 开头".to_owned(),
            SettingsError::EmptyModel => "模型名称不能为空".to_owned(),
            SettingsError::EmptyTarget => "目标语言不能为空".to_owned(),
        }
    }
}

/// The endpoint as saved: trimmed, without trailing slashes.
pub open spec fn normalized_endpoint(endpoint: Seq<char>) -> Seq<char> {
    trim_end_matches(trim(endpoint), '/')
}

/// The endpoint names an HTTP or HTTPS URL.
pub open spec fn is_http_endpoint(endpoint: Seq<char>) -> bool {
    has_prefix(endpoint, "https://"@) || has_prefix(endpoint, "http://"@)
}

/// The settings after `input` is submitted over `current`: the endpoint must
/// start with `http://` or `https://` once trimmed and stripped of trailing
/// slashes, the model and the target language must not be blank; every text
/// field is stored trimmed, and a blank API key keeps the stored one.
pub open spec fn apply_input(current: SettingsView, input: SettingsInputView) -> Result<SettingsView, SettingsError> {
    let endpoint = normalized_endpoint(input.endpoint);
    if !is_http_endpoint(endpoint) {
        Err(SettingsError::InvalidEndpoint)
    } else if trim(input.model).len() == 0 {
        Err(SettingsError::EmptyModel)
    } else if trim(input.target_language).len() == 0 {
        Err(SettingsError::EmptyTarget)
    } else {
        Ok(SettingsView {
            endpoint,
            api_key: if trim(input.api_key).len() == 0 { current.api_key } else { trim(input.api_key) },
            model: trim(input.model),
            source_language: trim(input.source_language),
            target_language: trim(input.target_language),
            launch_at_login: input.launch_at_login,
        })
    }
}

/// Validates `input` and merges it into `current` (see `apply_input`); the
/// settings that `save_settings` stores.
pub fn merge_settings_input(current: Settings, input: SettingsInput) -> (res: Result<Settings, SettingsError>)
    ensures
        match res {
            Ok(s) => apply_input(current@, input@) == Ok::<SettingsView, SettingsError>(s@),
            Err(e) => apply_input(current@, input@) == Err::<SettingsView, SettingsError>(e),
        },
{
    let endpoint = trimmed_then_end_matches(input.endpoint.as_str(), '/');
    if !(starts_with(endpoint.as_str(), "https://") || starts_with(endpoint.as_str(), "http://")) {
        return Err(SettingsError::InvalidEndpoint);
    }
    let model = trimmed(input.model.as_str());
    if model.as_str().is_empty() {
        return Err(SettingsError::EmptyModel);
    }
    let target_language = trimmed(input.target_language.as_str());
    if target_language.as_str().is_empty() {
        return Err(SettingsError::EmptyTarget);
    }
    let source_language = trimmed(input.source_language.as_str());
    let key = trimmed(input.api_key.as_str());
    let api_key = if key.as_str().is_empty() {
        current.api_key
    } else {
        key
    };
    Ok(Settings {
        endpoint,
        api_key,
        model,
        source_language,
        target_language,
        launch_at_login: input.launch_at_login,
    })
}

/// Saved settings are usable: the endpoint is an HTTP or HTTPS URL without a
/// trailing slash, and the model and the target language are not blank.
pub open spec fn valid_settings(s: SettingsView) -> bool {
    &&& is_http_endpoint(s.endpoint)
    &&& s.endpoint.len() > 0 && s.endpoint.last() != '/'
    &&& s.model.len() > 0
    &&& s.target_language.len() > 0
}

/// Whatever was stored before, settings accepted from the settings window are
/// valid, their model and languages carry no surrounding whitespace, and a
/// blank API key never erases the stored key.
pub proof fn lemma_saved_settings_are_valid(current: SettingsView, input: SettingsInputView)
    ensures
        apply_input(current, input) matches Ok(s) ==> valid_settings(s),
        apply_input(current, input) matches Ok(s) ==> {
            &&& trim(s.model) == s.model
            &&& trim(s.source_language) == s.source_language
            &&& trim(s.target_language) == s.target_language
        },
        apply_input(current, input) matches Ok(s) ==> (trim(input.api_key).len() == 0 ==> s.api_key
            == current.api_key),
{
    lemma_trim_idempotent(input.model);
    lemma_trim_idempotent(input.source_language);
    lemma_trim_idempotent(input.target_language);
    let e = normalized_endpoint(input.endpoint);
    lemma_trim_end_matches_strips(trim(input.endpoint), '/');
    if is_http_endpoint(e) {
        assert(e.len() >= 7) by {
            reveal_strlit("https://");
            reveal_strlit("http://");
        }
    }
}

/// Submitting the same input twice stores the same settings as submitting it
/// once.
pub proof fn lemma_save_is_idempotent(current: SettingsView, input: SettingsInputView)
    ensures
        apply_input(current, input) matches Ok(s) ==> apply_input(s, input) == Ok::<SettingsView, SettingsError>(s),
{
}

/// Whether an input is rejected, and with which error, depends on the input
/// alone, not on the stored settings.
pub proof fn lemma_rejection_ignores_current(a: SettingsView, b: SettingsView, input: SettingsInputView)
    ensures
        apply_input(a, input) is Err <==> apply_input(b, input) is Err,
        apply_input(a, input) is Err ==> apply_input(a, input) == apply_input(b, input),
{
}

/// A non-blank API key in accepted input is saved, trimmed, whatever key was
/// stored before; and then the saved settings do not depend on the stored
/// ones at all.
pub proof fn lemma_new_api_key_is_saved(a: SettingsView, b: SettingsView, input: SettingsInputView)
    requires
        trim(input.api_key).len() > 0,
    ensures
        apply_input(a, input) matches Ok(s) ==> s.api_key == trim(input.api_key),
        apply_input(a, input) == apply_input(b, input),
{
}

} // verus!

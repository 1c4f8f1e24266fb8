use vstd::prelude::*;
use vstd::string::StrSliceExecFns;
use crate::settings::{auto_detect_language, settings_error_text, Settings, SettingsError};
use crate::text::{lemma_trim_idempotent, append_decimal, decimal, str_equal, trim, trimmed};

verus! {

/// Why a translation failed.
pub enum TranslationError {
    /// The settings could not be read.
    Settings(SettingsError),
    /// No API key is configured.
    MissingApiKey,
    /// The request could not be sent or its reply could not be read, with
    /// the reason.
    Request(String),
    /// The API answered with a non-success HTTP status.
    Api { status: u16, message: String },
    /// The API answered without any translated text.
    EmptyResponse,
}

/// The user-facing text of each translation error.
pub open spec fn translation_error_text(e: TranslationError) -> Seq<char> {
    match e {
        TranslationError::Settings(inner) => settings_error_text(inner),
        TranslationError::MissingApiKey => "请先在设置中填写 API Key"@,
        TranslationError::Request(reason) => "网络请求失败："@ + reason@,
        TranslationError::Api { status, message } => "API 请求失败（HTTP "@ + decimal(status as nat)
            + "）："@ + message@,
        TranslationError::EmptyResponse => "LLM 返回了空的翻译结果"@,
    }
}

impl TranslationError {
    /// The user-facing text of the error.
    pub fn message(&self) -> (res: String)
        ensures
            res@ == translation_error_text(*self),
    {
        match self {
            TranslationError::Settings(inner) => inner.message(),
            TranslationError::MissingApiKey => "请先在设置中填写 API Key".to_owned(),
            TranslationError::Request(reason) => {
                let mut s = "网络请求失败：".to_owned();
                s.append(reason.as_str());
                s
            },
            TranslationError::Api { status, message } => {
                let mut s = "API 请求失败（HTTP ".to_owned();
                append_decimal(&mut s, *status as u64);
                s.append("）：");
                s.append(message.as_str());
                s
            },
            TranslationError::EmptyResponse => "LLM 返回了空的翻译结果".to_owned(),
        }
    }
}

/// The sentence of the prompt about the source language.
pub open spec fn source_instruction(source_language: Seq<char>) -> Seq<char> {
    if source_language == auto_detect_language() {
        "自动识别源语言。"@
    } else {
        "源语言是"@ + source_language + "。"@
    }
}

/// The system prompt that asks the model to render the user's text in
/// `target_language`, with `source_language` as its language.
pub open spec fn prompt_text(source_language: Seq<char>, target_language: Seq<char>) -> Seq<char> {
    "你是一名专业、克制的翻译助手。\n将用户提供的内容翻译为"@ + target_language + "。\n"@
        + source_instruction(source_language)
        + "\n保留段落、列表、数字、专有名词和语气。只输出译文，不要解释，不要添加任何前缀。"@
}

/// The opening of every system prompt: who the model is and the target
/// language.
pub open spec fn prompt_head(target_language: Seq<char>) -> Seq<char> {
    "你是一名专业、克制的翻译助手。\n将用户提供的内容翻译为"@ + target_language + "。\n"@
}

/// The closing of every system prompt: keep the form, output only the
/// translation.
pub open spec fn prompt_tail() -> Seq<char> {
    "\n保留段落、列表、数字、专有名词和语气。只输出译文，不要解释，不要添加任何前缀。"@
}

/// For every source and target language, the system prompt opens with the
/// fixed preamble naming the target language and ends with the instruction
/// to keep the form and output only the translation; between them stands the
/// sentence on the source language: asking to detect it for `自动检测`,
/// naming it otherwise.
pub proof fn lemma_prompt_layout(source_language: Seq<char>, target_language: Seq<char>)
    ensures
        ({
            let p = prompt_text(source_language, target_language);
            let head = prompt_head(target_language);
            let tail = prompt_tail();
            &&& p.len() >= head.len() + tail.len()
            &&& p.subrange(0, head.len() as int) == head
            &&& p.subrange(p.len() - tail.len(), p.len() as int) == tail
            &&& p.subrange(head.len() as int, p.len() - tail.len()) == if source_language == auto_detect_language() {
                "自动识别源语言。"@
            } else {
                "源语言是"@ + source_language + "。"@
            }
        }),
{
    let p = prompt_text(source_language, target_language);
    let head = prompt_head(target_language);
    let tail = prompt_tail();
    let mid = source_instruction(source_language);
    assert(p == head + mid + tail);
    assert(p.subrange(0, head.len() as int) =~= head);
    assert(p.subrange(p.len() - tail.len(), p.len() as int) =~= tail);
    assert(p.subrange(head.len() as int, p.len() - tail.len()) =~= mid);
}

/// Builds the system prompt: render the user's text in `target_language`,
/// naming the source language or asking to detect it when the source is
/// `自动检测`, and output nothing but the result.
pub fn build_prompt(source_language: &str, target_language: &str) -> (res: String)
    ensures
        res@ == prompt_text(source_language@, target_language@),
{
    let source = if str_equal(source_language, "自动检测") {
        "自动识别源语言。".to_owned()
    } else {
        let mut s = "源语言是".to_owned();
        s.append(source_language);
        s.append("。");
        s
    };
    let mut prompt = "你是一名专业、克制的翻译助手。\n将用户提供的内容翻译为".to_owned();
    prompt.append(target_language);
    prompt.append("。\n");
    prompt.append(source.as_str());
    prompt.append("\n保留段落、列表、数字、专有名词和语气。只输出译文，不要解释，不要添加任何前缀。");
    prompt
}

/// The target language of a translation: the requested one once trimmed,
/// unless it is blank or absent, and the configured one otherwise.
pub open spec fn resolved_target(requested: Option<Seq<char>>, configured: Seq<char>) -> Seq<char> {
    match requested {
        Some(t) => if trim(t).len() > 0 { trim(t) } else { configured },
        None => configured,
    }
}

/// The view of an optional text.
pub open spec fn opt_view(o: Option<&str>) -> Option<Seq<char>> {
    match o {
        Some(s) => Some(s@),
        None => None,
    }
}

/// A chat-completion request, as the HTTP client is to send it: posted to
/// `url` with the API key as bearer token, asking `model` to answer the
/// user's `user_text` under `system_prompt`.
pub struct ChatRequest {
    pub url: String,
    pub api_key: String,
    pub model: String,
    pub system_prompt: String,
    pub user_text: String,
}

/// Prepares the request that translates `text` with `settings`, into the
/// requested target language if one is given and not blank, else into the
/// configured one. Fails exactly when no API key is configured.
pub fn prepare_translation(settings: &Settings, text: &str, target_language: Option<&str>) -> (res: Result<ChatRequest, TranslationError>)
    ensures
        res is Err <==> settings.api_key@.len() == 0,
        res matches Err(e) ==> e is MissingApiKey,
        res matches Ok(r) ==> {
            &&& r.url@ == settings.endpoint@ + "/chat/completions"@
            &&& r.api_key@ == settings.api_key@
            &&& r.model@ == settings.model@
            &&& r.system_prompt@ == prompt_text(
                settings.source_language@,
                resolved_target(opt_view(target_language), settings.target_language@),
            )
            &&& r.user_text@ == text@
        },
{
    if settings.api_key.as_str().is_empty() {
        return Err(TranslationError::MissingApiKey);
    }
    let prompt = match target_language {
        Some(requested) => {
            let t = trimmed(requested);
            if t.as_str().is_empty() {
                build_prompt(settings.source_language.as_str(), settings.target_language.as_str())
            } else {
                build_prompt(settings.source_language.as_str(), t.as_str())
            }
        },
        None => build_prompt(settings.source_language.as_str(), settings.target_language.as_str()),
    };
    let mut url = settings.endpoint.clone();
    url.append("/chat/completions");
    Ok(ChatRequest {
        url,
        api_key: settings.api_key.clone(),
        model: settings.model.clone(),
        system_prompt: prompt,
        user_text: text.to_owned(),
    })
}

/// An HTTP status of the 2xx class, as `StatusCode::is_success`.
pub open spec fn is_success(status: u16) -> bool {
    200 <= status <= 299
}

/// Whether the API answered with a success status.
pub fn is_success_status(status: u16) -> (res: bool)
    ensures
        res == is_success(status),
{
    200 <= status && status <= 299
}

/// The message shown when a failing API reply carries no error message.
pub open spec fn missing_error_detail() -> Seq<char> {
    "服务未返回错误详情"@
}

/// The error for a reply with a non-success `status`, whose body held the
/// error message `reported`, if any.
pub fn api_failure(status: u16, reported: Option<String>) -> (res: TranslationError)
    ensures
        res matches TranslationError::Api { status: s, message } && s == status && message@ == match reported {
            Some(m) => m@,
            None => missing_error_detail(),
        },
{
    let message = match reported {
        Some(m) => m,
        None => "服务未返回错误详情".to_owned(),
    };
    TranslationError::Api { status, message }
}

/// The translation in a successful reply whose first choice held
/// `first_content`, if any: that content trimmed, unless it is absent or
/// blank.
pub fn extract_translation(first_content: Option<String>) -> (res: Result<String, TranslationError>)
    ensures
        match first_content {
            Some(c) => if trim(c@).len() > 0 {
                res matches Ok(t) && t@ == trim(c@)
            } else {
                res matches Err(e) && e is EmptyResponse
            },
            None => res matches Err(e) && e is EmptyResponse,
        },
{
    match first_content {
        Some(c) => {
            let t = trimmed(c.as_str());
            if t.as_str().is_empty() {
                Err(TranslationError::EmptyResponse)
            } else {
                Ok(t)
            }
        },
        None => Err(TranslationError::EmptyResponse),
    }
}

/// The longest text, in characters, that the manual translation window sends.
pub open spec fn max_manual_text_chars() -> nat {
    50000
}

/// The longest target language name, in characters.
pub open spec fn max_target_language_chars() -> nat {
    64
}

/// The outcome of checking a manual translation request: the trimmed text
/// and target language, or the message shown to the user.
pub open spec fn manual_request_outcome(text: Seq<char>, target_language: Seq<char>) -> Result<(Seq<char>, Seq<char>), Seq<char>> {
    let t = trim(text);
    let l = trim(target_language);
    if t.len() == 0 {
        Err("请输入需要翻译的文本"@)
    } else if t.len() > max_manual_text_chars() {
        Err("输入文本过长，请控制在 50000 个字符以内"@)
    } else if l.len() == 0 || l.len() > max_target_language_chars() {
        Err("请选择有效的目标语言"@)
    } else {
        Ok((t, l))
    }
}

/// Checks a request from the manual translation window: the trimmed text
/// must be non-empty and at most 50000 characters, the trimmed target
/// language non-empty and at most 64 characters.
pub fn check_manual_request(text: &str, target_language: &str) -> (res: Result<(String, String), String>)
    ensures
        match res {
            Ok((t, l)) => manual_request_outcome(text@, target_language@) == Ok::<(Seq<char>, Seq<char>), Seq<char>>((t@, l@)),
            Err(m) => manual_request_outcome(text@, target_language@) == Err::<(Seq<char>, Seq<char>), Seq<char>>(m@),
        },
{
    let t = trimmed(text);
    let l = trimmed(target_language);
    if t.as_str().is_empty() {
        return Err("请输入需要翻译的文本".to_owned());
    }
    if t.as_str().unicode_len() > 50000 {
        return Err("输入文本过长，请控制在 50000 个字符以内".to_owned());
    }
    if l.as_str().is_empty() || l.as_str().unicode_len() > 64 {
        return Err("请选择有效的目标语言".to_owned());
    }
    Ok((t, l))
}

/// The message shown when the translate button is used without a selection.
pub open spec fn no_selection_message() -> Seq<char> {
    "没有检测到选中的文字"@
}

/// Checks that there is a selection to translate.
pub fn check_selected_text(text: &str) -> (res: Result<(), String>)
    ensures
        res is Ok <==> text@.len() > 0,
        res matches Err(m) ==> m@ == no_selection_message(),
{
    if text.is_empty() {
        return Err("没有检测到选中的文字".to_owned());
    }
    Ok(())
}

/// A request accepted by the manual translation window is sent with its
/// checked target language as is: preparing the request trims it again
/// without change and never falls back to the configured language.
pub proof fn lemma_checked_target_is_kept(text: Seq<char>, target_language: Seq<char>, configured: Seq<char>)
    ensures
        manual_request_outcome(text, target_language) matches Ok((_, l)) ==> resolved_target(Some(l), configured) == l,
{
    lemma_trim_idempotent(target_language);
}

} // verus!

use luma_translate::settings::Settings;
use luma_translate::translator::{
    api_failure, build_prompt, check_manual_request, check_selected_text, extract_translation,
    is_success_status, prepare_translation, TranslationError,
};

#[test]
fn prompt_uses_manual_target_language() {
    let prompt = build_prompt("自动检测", "日语");
    assert!(prompt.contains("翻译为日语"));
    assert!(prompt.contains("自动识别源语言"));
}

#[test]
fn prompt_keeps_configured_source_language() {
    let prompt = build_prompt("英语", "法语");
    assert!(prompt.contains("源语言是英语"));
    assert!(prompt.contains("翻译为法语"));
}

#[test]
fn prompt_text_is_exact() {
    assert_eq!(
        build_prompt("英语", "法语"),
        "你是一名专业、克制的翻译助手。\n将用户提供的内容翻译为法语。\n源语言是英语。\n保留段落、列表、数字、专有名词和语气。只输出译文，不要解释，不要添加任何前缀。"
    );
}

fn settings_with_key(key: &str) -> Settings {
    let mut s = Settings::default();
    s.api_key = key.to_string();
    s
}

#[test]
fn missing_key_refuses_to_translate() {
    let s = settings_with_key("");
    assert!(matches!(prepare_translation(&s, "hi", None), Err(TranslationError::MissingApiKey)));
}

#[test]
fn request_targets_the_chat_completions_endpoint() {
    let s = settings_with_key("sk-1");
    let r = prepare_translation(&s, "hello", None).ok().unwrap();
    assert_eq!(r.url, "https://api.openai.com/v1/chat/completions");
    assert_eq!(r.api_key, "sk-1");
    assert_eq!(r.model, "gpt-4.1-mini");
    assert_eq!(r.user_text, "hello");
    assert_eq!(r.system_prompt, build_prompt("自动检测", "简体中文"));
}

#[test]
fn requested_target_language_overrides_unless_blank() {
    let s = settings_with_key("sk-1");
    let r = prepare_translation(&s, "x", Some("  日语 ")).ok().unwrap();
    assert!(r.system_prompt.contains("翻译为日语。"));
    let r = prepare_translation(&s, "x", Some("   ")).ok().unwrap();
    assert!(r.system_prompt.contains("翻译为简体中文。"));
}

#[test]
fn success_statuses_are_2xx() {
    assert!(is_success_status(200));
    assert!(is_success_status(299));
    assert!(!is_success_status(199));
    assert!(!is_success_status(300));
    assert!(!is_success_status(401));
}

#[test]
fn api_errors_carry_status_and_message() {
    let e = api_failure(401, Some("bad key".to_string()));
    assert_eq!(e.message(), "API 请求失败（HTTP 401）：bad key");
    let e = api_failure(500, None);
    assert_eq!(e.message(), "API 请求失败（HTTP 500）：服务未返回错误详情");
    assert_eq!(api_failure(0, None).message(), "API 请求失败（HTTP 0）：服务未返回错误详情");
}

#[test]
fn other_error_messages() {
    assert_eq!(TranslationError::MissingApiKey.message(), "请先在设置中填写 API Key");
    assert_eq!(TranslationError::EmptyResponse.message(), "LLM 返回了空的翻译结果");
    assert_eq!(TranslationError::Request("timeout".to_string()).message(), "网络请求失败：timeout");
}

#[test]
fn translations_are_trimmed_and_never_empty() {
    assert_eq!(extract_translation(Some("  bonjour \n".to_string())).ok().unwrap(), "bonjour");
    assert!(matches!(extract_translation(Some(" \n ".to_string())), Err(TranslationError::EmptyResponse)));
    assert!(matches!(extract_translation(None), Err(TranslationError::EmptyResponse)));
}

#[test]
fn manual_requests_are_checked() {
    assert_eq!(check_manual_request("  hi ", " 日语 "), Ok(("hi".to_string(), "日语".to_string())));
    assert_eq!(check_manual_request("   ", "日语"), Err("请输入需要翻译的文本".to_string()));
    assert_eq!(
        check_manual_request(&"a".repeat(50001), "日语"),
        Err("输入文本过长，请控制在 50000 个字符以内".to_string())
    );
    assert!(check_manual_request(&"字".repeat(50000), "日语").is_ok());
    assert_eq!(check_manual_request("hi", " "), Err("请选择有效的目标语言".to_string()));
    assert_eq!(check_manual_request("hi", &"x".repeat(65)), Err("请选择有效的目标语言".to_string()));
}

#[test]
fn translating_needs_a_selection() {
    assert_eq!(check_selected_text(""), Err("没有检测到选中的文字".to_string()));
    assert_eq!(check_selected_text("x"), Ok(()));
}

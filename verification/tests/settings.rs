use luma_translate::commands::{autostart_change, hides_on_close, rotates_log, tray_command, AutostartChange, TrayCommand};
use luma_translate::settings::{merge_settings_input, PublicSettings, Settings, SettingsError, SettingsInput};

fn input(endpoint: &str, key: &str, model: &str, source: &str, target: &str) -> SettingsInput {
    SettingsInput {
        endpoint: endpoint.to_string(),
        api_key: key.to_string(),
        model: model.to_string(),
        source_language: source.to_string(),
        target_language: target.to_string(),
        launch_at_login: true,
    }
}

#[test]
fn defaults() {
    let s = Settings::default();
    assert_eq!(s.endpoint, "https://api.openai.com/v1");
    assert_eq!(s.api_key, "");
    assert_eq!(s.model, "gpt-4.1-mini");
    assert_eq!(s.source_language, "自动检测");
    assert_eq!(s.target_language, "简体中文");
    assert!(!s.launch_at_login);
}

#[test]
fn public_settings_hide_the_key() {
    let mut s = Settings::default();
    let p = PublicSettings::from(Settings::default());
    assert!(!p.has_api_key);
    s.api_key = "sk".to_string();
    let p = PublicSettings::from(s);
    assert!(p.has_api_key);
    assert_eq!(p.model, "gpt-4.1-mini");
}

#[test]
fn saving_normalizes_fields() {
    let s = merge_settings_input(
        Settings::default(),
        input("  https://example.com/v1/// ", " sk-new ", " m1 ", " 英语 ", " 法语 "),
    )
    .ok()
    .unwrap();
    assert_eq!(s.endpoint, "https://example.com/v1");
    assert_eq!(s.api_key, "sk-new");
    assert_eq!(s.model, "m1");
    assert_eq!(s.source_language, "英语");
    assert_eq!(s.target_language, "法语");
    assert!(s.launch_at_login);
}

#[test]
fn blank_key_keeps_the_stored_key() {
    let mut current = Settings::default();
    current.api_key = "sk-old".to_string();
    let s = merge_settings_input(current, input("http://localhost:8080", "  ", "m", "", "x")).ok().unwrap();
    assert_eq!(s.api_key, "sk-old");
    assert_eq!(s.source_language, "");
}

#[test]
fn saving_rejects_invalid_input() {
    assert!(matches!(
        merge_settings_input(Settings::default(), input("ftp://x", "", "m", "", "t")),
        Err(SettingsError::InvalidEndpoint)
    ));
    assert!(matches!(
        merge_settings_input(Settings::default(), input("", "", "m", "", "t")),
        Err(SettingsError::InvalidEndpoint)
    ));
    assert!(matches!(
        merge_settings_input(Settings::default(), input("https://x", "", "  ", "", "t")),
        Err(SettingsError::EmptyModel)
    ));
    assert!(matches!(
        merge_settings_input(Settings::default(), input("https://x", "", "m", "", "\t")),
        Err(SettingsError::EmptyTarget)
    ));
}

#[test]
fn saving_twice_gives_the_same_settings() {
    let once = merge_settings_input(Settings::default(), input(" https://a/ ", "", " m ", "s", "t")).ok().unwrap();
    let (e, k, m) = (once.endpoint.clone(), once.api_key.clone(), once.model.clone());
    let twice = merge_settings_input(once, input(" https://a/ ", "", " m ", "s", "t")).ok().unwrap();
    assert_eq!((twice.endpoint, twice.api_key, twice.model), (e, k, m));
}

#[test]
fn settings_error_messages() {
    assert_eq!(SettingsError::InvalidEndpoint.message(), "API 地址必须以 http:// 或 https:// 开头");
    assert_eq!(SettingsError::EmptyModel.message(), "模型名称不能为空");
    assert_eq!(SettingsError::EmptyTarget.message(), "目标语言不能为空");
    assert_eq!(SettingsError::MissingConfigDir.message(), "无法确定配置目录");
    assert_eq!(SettingsError::Io("denied".to_string()).message(), "无法读写设置：denied");
    assert_eq!(SettingsError::Json("eof".to_string()).message(), "设置格式无效：eof");
}

#[test]
fn autostart_follows_the_setting() {
    assert!(autostart_change(true, false) == AutostartChange::Enable);
    assert!(autostart_change(true, true) == AutostartChange::Enable);
    assert!(autostart_change(false, true) == AutostartChange::Disable);
    assert!(autostart_change(false, false) == AutostartChange::Keep);
}

#[test]
fn tray_and_window_commands() {
    assert!(tray_command("manual") == Some(TrayCommand::ShowManual));
    assert!(tray_command("settings") == Some(TrayCommand::ShowSettings));
    assert!(tray_command("quit") == Some(TrayCommand::Quit));
    assert!(tray_command("other").is_none());
    assert!(hides_on_close("settings"));
    assert!(hides_on_close("manual"));
    assert!(!hides_on_close("panel"));
    assert!(!rotates_log(262144));
    assert!(rotates_log(262145));
}

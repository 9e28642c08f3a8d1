use nut_monitor_web::config::{
    fcm_config_from_env, monitor_interval_secs, setting_or, unescape_newlines_of,
};

#[test]
fn unescaping_newlines() {
    assert_eq!(unescape_newlines_of("a\\nb"), "a\nb");
    assert_eq!(unescape_newlines_of("\\\\n"), "\\\n");
    assert_eq!(unescape_newlines_of("\\"), "\\");
    assert_eq!(unescape_newlines_of("no escapes"), "no escapes");
    assert!(!unescape_newlines_of("x\\\\nn\\n").contains("\\n"));
}

#[test]
fn fcm_config_needs_all_three() {
    assert!(fcm_config_from_env(Some("p".into()), Some("e".into()), None).is_none());
    assert!(fcm_config_from_env(None, Some("e".into()), Some("k".into())).is_none());
    assert!(fcm_config_from_env(Some("".into()), Some("e".into()), Some("k".into())).is_none());
    assert!(fcm_config_from_env(Some("p".into()), Some("e".into()), Some("".into())).is_none());
    let c = fcm_config_from_env(Some("p".into()), Some("e".into()), Some("k1\\nk2".into())).unwrap();
    assert_eq!(c.project_id, "p");
    assert_eq!(c.client_email, "e");
    assert_eq!(c.private_key, "k1\nk2");
}

#[test]
fn interval_parsing() {
    assert_eq!(monitor_interval_secs(None), 10);
    assert_eq!(monitor_interval_secs(Some("30".into())), 30);
    assert_eq!(monitor_interval_secs(Some("abc".into())), 10);
    assert_eq!(monitor_interval_secs(Some("-5".into())), 10);
    assert_eq!(monitor_interval_secs(Some("18446744073709551615".into())), u64::MAX);
    assert_eq!(monitor_interval_secs(Some("18446744073709551616".into())), 10);
}

#[test]
fn settings_default() {
    assert_eq!(setting_or(None, "ups"), "ups");
    assert_eq!(setting_or(Some("eaton".into()), "ups"), "eaton");
}

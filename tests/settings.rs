use store_scp::settings::{load_settings, RawSettings, UserSettings, Verbosity};

fn unset() -> RawSettings {
    RawSettings {
        log_level: None,
        ae_title: None,
        enforce_max_pdu_length: None,
        uncompressed_only: None,
        max_pdu_length: None,
        out_dir: None,
        port: None,
    }
}

#[test]
fn default_settings() {
    let s = UserSettings::new();
    assert_eq!(s.log_level, Verbosity::Warn);
    assert_eq!(s.calling_ae_title, "PACS");
    assert!(!s.strict);
    assert!(!s.uncompressed_only);
    assert_eq!(s.max_pdu_length, 16352);
    assert_eq!(s.out_dir, ".");
    assert_eq!(s.port, 11112);
}

#[test]
fn unset_values_give_defaults() {
    let s = load_settings(&unset());
    assert_eq!(s.log_level, Verbosity::Warn);
    assert_eq!(s.calling_ae_title, "PACS");
    assert_eq!(s.max_pdu_length, 16352);
    assert_eq!(s.out_dir, ".");
    assert_eq!(s.port, 11112);
}

#[test]
fn set_values_replace_defaults() {
    let raw = RawSettings {
        log_level: Some("DEBUG".to_string()),
        ae_title: Some("STORE".to_string()),
        enforce_max_pdu_length: Some("true".to_string()),
        uncompressed_only: Some("true".to_string()),
        max_pdu_length: Some("+32768".to_string()),
        out_dir: Some("/tmp/incoming".to_string()),
        port: Some("104".to_string()),
    };
    let s = load_settings(&raw);
    assert_eq!(s.log_level, Verbosity::Debug);
    assert_eq!(s.calling_ae_title, "STORE");
    assert!(s.strict);
    assert!(s.uncompressed_only);
    assert_eq!(s.max_pdu_length, 32768);
    assert_eq!(s.out_dir, "/tmp/incoming");
    assert_eq!(s.port, 104);
}

#[test]
fn unparsable_values_fall_back_to_defaults() {
    let raw = RawSettings {
        log_level: Some("loud".to_string()),
        ae_title: None,
        enforce_max_pdu_length: Some("TRUE".to_string()),
        uncompressed_only: Some("yes".to_string()),
        max_pdu_length: Some("4294967296".to_string()),
        out_dir: None,
        port: Some("65536".to_string()),
    };
    let s = load_settings(&raw);
    assert_eq!(s.log_level, Verbosity::Warn);
    assert!(!s.strict);
    assert!(!s.uncompressed_only);
    assert_eq!(s.max_pdu_length, 16352);
    assert_eq!(s.port, 11112);
}

#[test]
fn levels_by_number_and_by_name() {
    let cases = [
        ("1", Verbosity::Error),
        ("2", Verbosity::Warn),
        ("3", Verbosity::Info),
        ("4", Verbosity::Debug),
        ("5", Verbosity::Trace),
        ("error", Verbosity::Error),
        ("Info", Verbosity::Info),
        ("TRACE", Verbosity::Trace),
    ];
    for (text, level) in cases {
        let mut raw = unset();
        raw.log_level = Some(text.to_string());
        assert_eq!(load_settings(&raw).log_level, level, "{}", text);
    }
    let mut raw = unset();
    raw.log_level = Some("6".to_string());
    assert_eq!(load_settings(&raw).log_level, Verbosity::Warn);
}

#[test]
fn port_bounds() {
    let mut raw = unset();
    raw.port = Some("65535".to_string());
    assert_eq!(load_settings(&raw).port, 65535);
    raw.port = Some("-1".to_string());
    assert_eq!(load_settings(&raw).port, 11112);
    raw.port = Some("".to_string());
    assert_eq!(load_settings(&raw).port, 11112);
    raw.port = Some("+".to_string());
    assert_eq!(load_settings(&raw).port, 11112);
}

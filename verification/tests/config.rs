use hipfire_arwaky::config::{
    config_get, config_set, config_set_float, display_value, key_kind, key_name,
    parse_config_key, set_confirmation, ConfigKey, ConfigValue, HipfireArwakyConfig, KeyKind,
    SetError,
};

const ALL_KEYS: [ConfigKey; 14] = [
    ConfigKey::KvCache,
    ConfigKey::KvAdaptive,
    ConfigKey::FlashMode,
    ConfigKey::DefaultModel,
    ConfigKey::Temperature,
    ConfigKey::TopP,
    ConfigKey::RepeatPenalty,
    ConfigKey::MaxTokens,
    ConfigKey::MaxSeq,
    ConfigKey::Thinking,
    ConfigKey::MaxThinkTokens,
    ConfigKey::Host,
    ConfigKey::Port,
    ConfigKey::DflashMode,
];

fn text_of(v: Option<ConfigValue>) -> Option<String> {
    match v {
        Some(ConfigValue::Text(s)) => Some(s),
        Some(ConfigValue::Float(b)) => Some(format!("bits:{}", b)),
        None => None,
    }
}

#[test]
fn default_config_has_nothing_set() {
    let cfg = HipfireArwakyConfig::default();
    for k in ALL_KEYS {
        assert!(config_get(&cfg, k).is_none());
    }
}

#[test]
fn key_names_round_trip() {
    for k in ALL_KEYS {
        assert_eq!(parse_config_key(key_name(k)), Some(k));
    }
    assert_eq!(parse_config_key("temperature"), Some(ConfigKey::Temperature));
    assert_eq!(parse_config_key("Temperature"), None);
    assert_eq!(parse_config_key("nope"), None);
    assert_eq!(parse_config_key(""), None);
}

#[test]
fn key_kinds() {
    assert_eq!(key_kind(ConfigKey::KvCache), KeyKind::Text);
    assert_eq!(key_kind(ConfigKey::TopP), KeyKind::Float);
    assert_eq!(key_kind(ConfigKey::Port), KeyKind::Integer);
    assert_eq!(key_kind(ConfigKey::MaxSeq), KeyKind::Integer);
}

#[test]
fn get_after_set_text() {
    let mut cfg = HipfireArwakyConfig::default();
    assert_eq!(config_set(&mut cfg, ConfigKey::KvCache, "q8"), Ok(()));
    assert_eq!(text_of(config_get(&cfg, ConfigKey::KvCache)), Some("q8".to_string()));
    assert_eq!(config_set(&mut cfg, ConfigKey::Host, "0.0.0.0"), Ok(()));
    assert_eq!(text_of(config_get(&cfg, ConfigKey::Host)), Some("0.0.0.0".to_string()));
    assert_eq!(text_of(config_get(&cfg, ConfigKey::KvCache)), Some("q8".to_string()));
}

#[test]
fn get_after_set_integer_is_decimal() {
    let mut cfg = HipfireArwakyConfig::default();
    assert_eq!(config_set(&mut cfg, ConfigKey::MaxTokens, "+0512"), Ok(()));
    assert_eq!(cfg.max_tokens, Some(512));
    assert_eq!(text_of(config_get(&cfg, ConfigKey::MaxTokens)), Some("512".to_string()));
    assert_eq!(config_set(&mut cfg, ConfigKey::Port, "11435"), Ok(()));
    assert_eq!(cfg.port, Some(11435));
    assert_eq!(config_set(&mut cfg, ConfigKey::MaxSeq, "8192"), Ok(()));
    assert_eq!(text_of(config_get(&cfg, ConfigKey::MaxSeq)), Some("8192".to_string()));
}

#[test]
fn set_integer_errors_leave_config_unchanged() {
    let mut cfg = HipfireArwakyConfig::default();
    assert_eq!(config_set(&mut cfg, ConfigKey::Port, "8080"), Ok(()));
    assert_eq!(config_set(&mut cfg, ConfigKey::Port, "65536"), Err(SetError::NotAnInteger));
    assert_eq!(config_set(&mut cfg, ConfigKey::Port, "eighty"), Err(SetError::NotAnInteger));
    assert_eq!(config_set(&mut cfg, ConfigKey::MaxTokens, "4294967296"), Err(SetError::NotAnInteger));
    assert_eq!(config_set(&mut cfg, ConfigKey::MaxThinkTokens, "-3"), Err(SetError::NotAnInteger));
    assert_eq!(cfg.port, Some(8080));
    assert_eq!(cfg.max_tokens, None);
    assert_eq!(cfg.max_think_tokens, None);
}

#[test]
fn float_keys_take_no_text() {
    let mut cfg = HipfireArwakyConfig::default();
    assert_eq!(config_set(&mut cfg, ConfigKey::Temperature, "0.7"), Err(SetError::FloatKey));
    assert_eq!(cfg.temperature, None);
}

#[test]
fn get_after_set_float() {
    let mut cfg = HipfireArwakyConfig::default();
    let bits = 0.7f32.to_bits();
    assert_eq!(config_set_float(&mut cfg, ConfigKey::Temperature, bits), Ok(()));
    match config_get(&cfg, ConfigKey::Temperature) {
        Some(ConfigValue::Float(b)) => assert_eq!(f32::from_bits(b), 0.7f32),
        _ => panic!("temperature not set"),
    }
    assert!(config_get(&cfg, ConfigKey::TopP).is_none());
}

#[test]
fn set_float_rejects_other_keys() {
    let mut cfg = HipfireArwakyConfig::default();
    assert_eq!(config_set_float(&mut cfg, ConfigKey::Port, 1), Err(SetError::NotAFloatKey));
    assert_eq!(cfg.port, None);
}

#[test]
fn set_leaves_other_keys() {
    let mut cfg = HipfireArwakyConfig::default();
    assert_eq!(config_set(&mut cfg, ConfigKey::Thinking, "on"), Ok(()));
    assert_eq!(config_set_float(&mut cfg, ConfigKey::TopP, 0.9f32.to_bits()), Ok(()));
    assert_eq!(config_set(&mut cfg, ConfigKey::DflashMode, "auto"), Ok(()));
    assert_eq!(text_of(config_get(&cfg, ConfigKey::Thinking)), Some("on".to_string()));
    assert_eq!(cfg.top_p, Some(0.9f32.to_bits()));
    assert!(config_get(&cfg, ConfigKey::FlashMode).is_none());
}

#[test]
fn display_and_confirmation_lines() {
    assert_eq!(display_value(None), "<not set>");
    assert_eq!(display_value(Some("q8".to_string())), "q8");
    assert_eq!(set_confirmation("port", "11435"), "Set port = 11435");
}

use gemtts::cli::AudioFormat;
use gemtts::config::{
    api_key, api_key_from_env_values, cache_dir_from, config_dir_from, config_path, get_value,
    init_if_missing, join_path, mask_secret, parse_audio_format, parse_config_key, public_config,
    require_api_key, set_value, state_dir_from, AppConfig, ConfigKey, ENV_PREFIX,
};
use gemtts::error::AppError;
use gemtts::json::JsonValue;

fn text_of(v: &JsonValue) -> String {
    match v {
        JsonValue::Str(s) => s.clone(),
        other => panic!("not a string: {:?}", other),
    }
}

#[test]
fn defaults_match_the_documented_values() {
    let c = AppConfig::default();
    assert_eq!(c.keys.api_key, "");
    assert_eq!(c.defaults.model, "gemini-3.1-flash-tts-preview");
    assert_eq!(c.defaults.voice, "Kore");
    assert_eq!(c.defaults.audio_format, AudioFormat::Wav);
    assert_eq!(c.defaults.sample_rate, 24000);
    assert_eq!(c.defaults.channels, 1);
    assert_eq!(c.defaults.timeout_seconds, 90);
    assert_eq!(c.prompt.profile, "Clear, useful narrator");
    assert!(c.update.enabled);
    assert_eq!(c.update.owner, "paperfoot");
    assert_eq!(c.update.repo, "gemini-tts-cli");
    assert_eq!(ENV_PREFIX, "GEMINI_TTS_");
}

#[test]
fn masks_secrets() {
    assert_eq!(mask_secret(""), "not_set");
    assert_eq!(mask_secret("   "), "not_set");
    assert_eq!(mask_secret("abc"), "***");
    assert_eq!(mask_secret(" abcdefgh "), "********");
    assert_eq!(mask_secret("abcdefghi"), "abcd...fghi");
    assert_eq!(mask_secret("AIzaSyExampleKey1234"), "AIza...1234");
}

#[test]
fn directories_follow_overrides_then_home() {
    assert_eq!(config_dir_from(Some("/tmp/cfg"), Some("/home/me")), "/tmp/cfg");
    assert_eq!(config_dir_from(None, Some("/home/me")), "/home/me/.config/gemtts");
    assert_eq!(config_dir_from(None, None), "./.config/gemtts");
    assert_eq!(state_dir_from(None, Some("/home/me/")), "/home/me/.local/share/gemtts");
    assert_eq!(cache_dir_from(None, Some("/home/me")), "/home/me/.cache/gemtts");
    assert_eq!(config_path("/tmp/cfg"), "/tmp/cfg/config.toml");
    assert_eq!(join_path("", "a"), "a");
    assert_eq!(join_path("x/", "a"), "x/a");
}

#[test]
fn init_writes_defaults_only_when_missing() {
    assert!(init_if_missing(true).is_none());
    let c = init_if_missing(false).expect("a default configuration");
    assert_eq!(c.defaults.voice, "Kore");
}

#[test]
fn env_keys_are_taken_in_order_and_trimmed() {
    assert_eq!(
        api_key_from_env_values(Some("  k1  "), Some("k2"), None),
        Some(("GEMINI_API_KEY", "k1".to_string()))
    );
    assert_eq!(
        api_key_from_env_values(Some("   "), None, Some("k3")),
        Some(("GOOGLE_AI_API_KEY", "k3".to_string()))
    );
    assert_eq!(api_key_from_env_values(None, Some(""), None), None);
}

#[test]
fn environment_key_beats_configured_key() {
    let mut c = AppConfig::default();
    c.keys.api_key = "  configured-key  ".to_string();
    assert_eq!(
        api_key(&c, Some(("GOOGLE_API_KEY", "envkey".to_string()))),
        Some(("GOOGLE_API_KEY".to_string(), "envkey".to_string()))
    );
    assert_eq!(api_key(&c, None), Some(("config".to_string(), "configured-key".to_string())));
    assert_eq!(api_key(&AppConfig::default(), None), None);
}

#[test]
fn missing_key_is_a_config_error() {
    match require_api_key(&AppConfig::default(), None) {
        Err(AppError::Config(m)) => assert_eq!(
            m,
            "missing Gemini API key. Set GEMINI_API_KEY or run gemtts auth set --api-key <key>"
        ),
        other => panic!("unexpected {:?}", other.map(|_| ())),
    }
    let ok = require_api_key(&AppConfig::default(), Some(("GEMINI_API_KEY", "k".to_string())));
    assert_eq!(ok.unwrap(), ("GEMINI_API_KEY".to_string(), "k".to_string()));
}

#[test]
fn public_config_masks_the_key() {
    let mut c = AppConfig::default();
    c.keys.api_key = "abcdefghijklmnop".to_string();
    let p = public_config(&c, None, "/tmp/cfg/config.toml");
    assert_eq!(p.keys.api_key, "abcd...mnop");
    assert_eq!(p.keys.api_key_source, "config");
    assert_eq!(p.config_path, "/tmp/cfg/config.toml");
    assert_eq!(p.env_prefix, "GEMINI_TTS_");
    assert_eq!(p.defaults.voice, "Kore");
    let none = public_config(&AppConfig::default(), None, "p");
    assert_eq!(none.keys.api_key, "not_set");
    assert_eq!(none.keys.api_key_source, "none");
}

#[test]
fn parses_audio_formats_case_insensitively() {
    assert_eq!(parse_audio_format("MP3").unwrap(), AudioFormat::Mp3);
    assert_eq!(parse_audio_format("aac").unwrap(), AudioFormat::M4a);
    assert_eq!(parse_audio_format("auto").unwrap(), AudioFormat::Auto);
    match parse_audio_format("ogg") {
        Err(AppError::InvalidInput(m)) => {
            assert_eq!(m, "unsupported audio format: ogg. Valid: auto, wav, pcm, mp3, m4a, flac")
        }
        other => panic!("unexpected {:?}", other),
    }
}

#[test]
fn config_keys_have_aliases() {
    assert_eq!(parse_config_key("keys.api_key"), Some(ConfigKey::ApiKey));
    assert_eq!(parse_config_key("api_key"), Some(ConfigKey::ApiKey));
    assert_eq!(parse_config_key("format"), Some(ConfigKey::Format));
    assert_eq!(parse_config_key("update.enabled"), Some(ConfigKey::UpdateEnabled));
    assert_eq!(parse_config_key("enabled"), None);
    assert_eq!(parse_config_key("nope"), None);
}

#[test]
fn set_then_get_reads_back() {
    let c = set_value(AppConfig::default(), "voice", "  puck ").unwrap();
    assert_eq!(c.defaults.voice, "Puck");
    assert_eq!(text_of(&get_value(&c, None, "defaults.voice").unwrap()), "Puck");

    let c = set_value(c, "defaults.sample_rate", "48000").unwrap();
    assert_eq!(c.defaults.sample_rate, 48000);
    assert!(matches!(get_value(&c, None, "sample_rate").unwrap(), JsonValue::Number(48000)));
    // Other settings are left alone.
    assert_eq!(c.defaults.voice, "Puck");

    let c = set_value(c, "update.enabled", "false").unwrap();
    assert!(!c.update.enabled);
    assert!(matches!(get_value(&c, None, "update.enabled").unwrap(), JsonValue::Bool(false)));

    let c = set_value(c, "format", "FLAC").unwrap();
    assert_eq!(text_of(&get_value(&c, None, "audio_format").unwrap()), "flac");

    let c = set_value(c, "api_key", "  abcdefghijklmnop ").unwrap();
    assert_eq!(c.keys.api_key, "abcdefghijklmnop");
    assert_eq!(text_of(&get_value(&c, None, "api_key").unwrap()), "abcd...mnop");
    assert_eq!(
        text_of(&get_value(&c, Some(("GEMINI_API_KEY", "xyz".to_string())), "keys.api_key").unwrap()),
        "***"
    );
}

#[test]
fn set_rejects_bad_values() {
    let err = |r: Result<AppConfig, AppError>| match r {
        Err(AppError::InvalidInput(m)) => m,
        Err(other) => panic!("unexpected {:?}", other),
        Ok(_) => panic!("expected an error"),
    };
    assert_eq!(err(set_value(AppConfig::default(), "channels", "two")), "channels must be an integer");
    assert_eq!(
        err(set_value(AppConfig::default(), "timeout_seconds", "-1")),
        "timeout_seconds must be an integer"
    );
    assert_eq!(err(set_value(AppConfig::default(), "sample_rate", "99999999999")), "sample_rate must be an integer");
    assert_eq!(
        err(set_value(AppConfig::default(), "update.enabled", "yes")),
        "update.enabled must be true or false"
    );
    assert_eq!(err(set_value(AppConfig::default(), "colour", "red")), "unsupported config key: colour");
    assert!(err(set_value(AppConfig::default(), "voice", "Bob")).starts_with("unsupported Gemini TTS voice \"Bob\""));
}

#[test]
fn get_rejects_unknown_keys() {
    match get_value(&AppConfig::default(), None, "colour") {
        Err(AppError::InvalidInput(m)) => assert_eq!(m, "unsupported config key: colour"),
        other => panic!("unexpected {:?}", other),
    }
    assert_eq!(
        text_of(&get_value(&AppConfig::default(), None, "prompt.language").unwrap()),
        "Use the transcript language unless specified otherwise."
    );
}

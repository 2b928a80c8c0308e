use gemtts::auth::{auth_result, key_to_import, validate_key};
use gemtts::cli::{AudioFormat, TagCategory};
use gemtts::config::AppConfig;
use gemtts::doctor::{
    api_key_check, config_file_check, doctor_exit_code, empty_audio_check, error_check, ffmpeg_check, lint_summary,
    live_audio_checks,
    live_audio_check, live_model_check, summarize_checks, usage_ledger_check,
};
use gemtts::error::AppError;
use gemtts::json::JsonValue;
use gemtts::prompt::lint_prompt;
use gemtts::tts::{lock_conflict, lock_is_stale, requested_format, resolve_voice};

#[test]
fn errors_map_to_exit_codes() {
    let all = vec![
        (AppError::InvalidInput("x".into()), 3, "invalid_input"),
        (AppError::Config("x".into()), 2, "config_error"),
        (AppError::Transient("x".into()), 1, "transient_error"),
        (AppError::RateLimited("x".into()), 4, "rate_limited"),
        (AppError::Io("x".into()), 1, "io_error"),
        (AppError::Http("x".into()), 1, "http_error"),
        (AppError::Audio("x".into()), 1, "audio_error"),
        (AppError::Update("x".into()), 1, "update_error"),
    ];
    for (e, code, name) in all {
        assert_eq!(e.exit_code(), code);
        assert_eq!(e.error_code(), name);
    }
}

#[test]
fn error_messages_and_suggestions() {
    assert_eq!(AppError::InvalidInput("bad".into()).message(), "Invalid input: bad");
    assert_eq!(AppError::Config("c".into()).message(), "Configuration error: c");
    assert_eq!(AppError::Transient("t".into()).message(), "t");
    assert_eq!(AppError::RateLimited("r".into()).message(), "Rate limited: r");
    assert_eq!(AppError::Io("i".into()).message(), "IO error: i");
    assert_eq!(AppError::Audio("a".into()).message(), "Audio error: a");
    assert_eq!(AppError::InvalidInput("".into()).suggestion(), "Check arguments with: gemtts --help");
    assert_eq!(
        AppError::Config("".into()).suggestion(),
        "Run: gemtts doctor --live, or set the key with gemtts auth import-env"
    );
    assert_eq!(AppError::Http("".into()).suggestion(), "Retry the command");
    assert_eq!(AppError::Audio("".into()).suggestion(), "Run doctor --require-ffmpeg, or use --format wav");
    assert_eq!(AppError::RateLimited("".into()).suggestion(), "Wait a moment and retry");
}

#[test]
fn validates_api_keys() {
    assert!(validate_key("  AIzaSyA1234567890abcdefghij  ").is_ok());
    match validate_key("short") {
        Err(AppError::InvalidInput(m)) => assert_eq!(m, "Gemini API key looks too short"),
        other => panic!("unexpected {:?}", other),
    }
    match validate_key("AIzaSyA12345 67890abcdefghij") {
        Err(AppError::InvalidInput(m)) => assert_eq!(m, "Gemini API key must not contain whitespace"),
        other => panic!("unexpected {:?}", other),
    }
    // Length counts bytes: eleven two-byte characters are 22 bytes.
    assert!(validate_key("ééééééééééé").is_ok());
}

#[test]
fn auth_status_report() {
    let mut c = AppConfig::default();
    let r = auth_result(&c, None, "/p/config.toml");
    assert!(!r.configured);
    assert_eq!(r.source, "none");
    assert_eq!(r.api_key, "not_set");
    assert_eq!(r.path, "/p/config.toml");
    c.keys.api_key = "abcdefghijklmnopqrstuvwxyz".into();
    let r = auth_result(&c, None, "p");
    assert!(r.configured);
    assert_eq!(r.source, "config");
    assert_eq!(r.api_key, "abcd...wxyz");
    let r = auth_result(&c, Some(("GOOGLE_API_KEY", "0123456789".into())), "p");
    assert_eq!(r.source, "GOOGLE_API_KEY");
    assert_eq!(r.api_key, "0123...6789");
}

#[test]
fn doctor_checks() {
    let c = config_file_check("/p/config.toml", None);
    assert_eq!(c.status, "warn");
    assert_eq!(c.message, "/p/config.toml does not exist; defaults/env will be used");
    assert_eq!(c.suggestion.as_deref(), Some("Run gemtts config init"));
    let c = config_file_check("/p/config.toml", Some("/p/config.toml"));
    assert_eq!(c.status, "pass");
    assert!(c.suggestion.is_none());

    let k = api_key_check(&Some(("config".into(), "abcdefghijkl".into())));
    assert_eq!(k.status, "pass");
    assert_eq!(k.message, "abcd...ijkl (config)");
    let k = api_key_check(&None);
    assert_eq!(k.status, "fail");
    assert_eq!(k.message, "not configured");
    assert_eq!(k.suggestion.as_deref(), Some("Set GEMINI_API_KEY or run gemtts auth set --api-key <key>"));

    assert_eq!(ffmpeg_check(true, true).status, "pass");
    assert_eq!(ffmpeg_check(false, true).status, "fail");
    assert_eq!(ffmpeg_check(false, false).status, "warn");

    assert_eq!(live_model_check("models/x".into()).message, "models/x");
    assert_eq!(live_audio_check(48000, "audio/l16", true).message, "48000 bytes, audio/l16; usage logged");
    assert_eq!(live_audio_check(2, "m", false).message, "2 bytes, m; usage logging failed");
    assert_eq!(empty_audio_check().status, "fail");
    assert_eq!(usage_ledger_check("disk full".into()).name, "usage_ledger");

    let e = error_check("live_audio", &AppError::RateLimited("slow".into()), "Wait".into(), Some(JsonValue::Null));
    assert_eq!(e.status, "warn");
    assert_eq!(e.message, "Rate limited: slow");
    assert!(e.details.is_some());
    let e = error_check("live_model", &AppError::Config("bad key".into()), "Fix".into(), None);
    assert_eq!(e.status, "fail");
    assert_eq!(e.message, "Configuration error: bad key");
    assert_eq!(e.suggestion.as_deref(), Some("Fix"));
}

#[test]
fn doctor_summary_counts_each_status() {
    let checks = vec![
        config_file_check("p", None),
        api_key_check(&None),
        ffmpeg_check(true, false),
        live_model_check("m".into()),
    ];
    let s = summarize_checks(&checks);
    assert_eq!((s.pass, s.warn, s.fail), (2, 1, 1));
    let s = summarize_checks(&Vec::new());
    assert_eq!((s.pass, s.warn, s.fail), (0, 0, 0));
}

#[test]
fn lint_summary_counts_findings() {
    let f = lint_prompt("[a][b] one [c]. two", &vec!["Host".to_string()]);
    let s = lint_summary(&f);
    // length_ok and tag_boundary inform; tag_inflation, adjacent_tags and
    // missing_speaker_line warn.
    assert_eq!((s.ok, s.warn, s.info), (false, 3, 2));
    let s = lint_summary(&lint_prompt("Hello.", &Vec::new()));
    assert_eq!((s.ok, s.warn, s.info), (true, 0, 1));
}

#[test]
fn voice_resolution() {
    assert_eq!(resolve_voice(Some("puck"), "Kore").unwrap(), "Puck");
    assert_eq!(resolve_voice(None, "zephyr").unwrap(), "Zephyr");
    match resolve_voice(Some("Nobody"), "Kore") {
        Err(AppError::InvalidInput(m)) => assert!(m.starts_with("unsupported Gemini TTS voice \"Nobody\"")),
        other => panic!("unexpected {:?}", other),
    }
}

#[test]
fn requested_format_and_lock() {
    assert_eq!(requested_format(AudioFormat::Auto, AudioFormat::Mp3, "out"), AudioFormat::Mp3);
    assert_eq!(requested_format(AudioFormat::Auto, AudioFormat::Wav, "dialogue.mp3"), AudioFormat::Mp3);
    assert_eq!(requested_format(AudioFormat::Auto, AudioFormat::Mp3, "take.WAV"), AudioFormat::Wav);
    assert_eq!(requested_format(AudioFormat::Auto, AudioFormat::Flac, "notes.txt"), AudioFormat::Flac);
    assert_eq!(requested_format(AudioFormat::Pcm, AudioFormat::Mp3, "a.wav"), AudioFormat::Pcm);
    assert!(lock_is_stale(None));
    assert!(lock_is_stale(Some(1200)));
    assert!(!lock_is_stale(Some(1199)));
    match lock_conflict("/s/generation.lock") {
        AppError::Transient(m) => assert_eq!(m, "a recent generation lock exists at /s/generation.lock"),
        other => panic!("unexpected {:?}", other),
    }
}

#[test]
fn cli_names() {
    assert_eq!(AudioFormat::M4a.as_str(), "m4a");
    assert_eq!(TagCategory::Nonverbal.as_str(), "nonverbal");
    assert_eq!(TagCategory::Nonverbal.variant_name(), "Nonverbal");
}

#[test]
fn json_lookup() {
    let j = JsonValue::Object(vec![
        ("a".to_string(), JsonValue::Number(1)),
        ("a".to_string(), JsonValue::Number(2)),
        ("b".to_string(), JsonValue::Str("x".to_string())),
    ]);
    assert!(matches!(j.get("a"), Some(JsonValue::Number(1))));
    assert_eq!(j.get("b").and_then(|v| v.as_str()), Some("x"));
    assert_eq!(j.get("a").and_then(|v| v.as_u64()), Some(1));
    assert!(j.get("c").is_none());
    assert!(JsonValue::Null.get("a").is_none());
}

#[test]
fn contract_codes_trigger_matching_exit_codes() {
    assert!(gemtts::error::contract_error(0).is_none());
    for code in 1..=4 {
        assert_eq!(gemtts::error::contract_error(code).unwrap().exit_code(), code);
    }
    match gemtts::error::contract_error(9) {
        Some(AppError::InvalidInput(m)) => assert_eq!(m, "contract code must be between 0 and 4"),
        other => panic!("unexpected {:?}", other),
    }
}

#[test]
fn importing_needs_a_valid_environment_key() {
    match key_to_import(None) {
        Err(AppError::Config(m)) => {
            assert_eq!(m, "no key found in GEMINI_API_KEY, GOOGLE_API_KEY, or GOOGLE_AI_API_KEY")
        }
        other => panic!("unexpected {:?}", other),
    }
    match key_to_import(Some(("GOOGLE_API_KEY", "short".to_string()))) {
        Err(AppError::InvalidInput(m)) => assert_eq!(m, "Gemini API key looks too short"),
        other => panic!("unexpected {:?}", other),
    }
    let ok = key_to_import(Some(("GEMINI_API_KEY", "AIzaSyA1234567890abcdefghij".to_string()))).unwrap();
    assert_eq!(ok, ("GEMINI_API_KEY", "AIzaSyA1234567890abcdefghij".to_string()));
}

#[test]
fn live_audio_outcomes() {
    let c = live_audio_checks(0, "m", None);
    assert_eq!(c.len(), 1);
    assert_eq!((c[0].name.as_str(), c[0].status.as_str()), ("live_audio", "fail"));
    let c = live_audio_checks(10, "audio/l16", None);
    assert_eq!(c.len(), 1);
    assert_eq!(c[0].message, "10 bytes, audio/l16; usage logged");
    let c = live_audio_checks(10, "audio/l16", Some("IO error: denied".to_string()));
    assert_eq!(c.len(), 2);
    assert_eq!((c[0].name.as_str(), c[0].status.as_str(), c[0].message.as_str()), ("usage_ledger", "fail", "IO error: denied"));
    assert_eq!(c[1].message, "10 bytes, audio/l16; usage logging failed");
    assert_eq!(doctor_exit_code(&summarize_checks(&c)), 2);
    assert_eq!(doctor_exit_code(&summarize_checks(&live_audio_checks(1, "m", None))), 0);
}

#[test]
fn doctor_lists_checks_in_order() {
    let names = |c: &Vec<gemtts::doctor::DoctorCheck>| c.iter().map(|c| c.name.clone()).collect::<Vec<_>>();
    let c = gemtts::doctor::doctor_checks("p", None, &None, true, false, true, None);
    assert_eq!(names(&c), vec!["config_file", "api_key", "ffmpeg"]);
    assert_eq!(c[1].status, "fail");
    let live = (live_model_check("m".into()), live_audio_checks(4, "a", None));
    let key = Some(("config".to_string(), "abcdefghijkl".to_string()));
    let c = gemtts::doctor::doctor_checks("p", Some("p"), &key, false, true, true, Some(live));
    assert_eq!(names(&c), vec!["config_file", "api_key", "ffmpeg", "live_model", "live_audio"]);
    assert_eq!(c[2].status, "fail");
    let s = summarize_checks(&c);
    assert_eq!((s.pass, s.warn, s.fail), (4, 0, 1));
    assert_eq!(doctor_exit_code(&s), 2);
}

use gemtts::cli::{AudioFormat, ScriptArgs, SpeakArgs};
use gemtts::config::AppConfig;
use gemtts::error::AppError;
use gemtts::prompt::{build_for_script, build_for_speak, inline_text, lint_prompt, parse_speakers, LintFinding};
use gemtts::tts::plan_speak;

fn speak_args(text: &str) -> SpeakArgs {
    SpeakArgs {
        text: text.to_string(),
        text_file: false,
        out: "speech.wav".to_string(),
        format: AudioFormat::Auto,
        model: None,
        voice: None,
        speaker: Vec::new(),
        profile: None,
        scene: None,
        style: None,
        pace: None,
        accent: None,
        language: None,
        tag: Vec::new(),
        raw: false,
        play: false,
        force: false,
    }
}

fn script_args(text: &str) -> ScriptArgs {
    ScriptArgs {
        text: text.to_string(),
        text_file: false,
        out: None,
        profile: None,
        scene: None,
        style: None,
        pace: None,
        accent: None,
        language: None,
        tag: Vec::new(),
        speaker: Vec::new(),
    }
}

fn strings(v: &[&str]) -> Vec<String> {
    v.iter().map(|s| s.to_string()).collect()
}

fn invalid(r: Result<impl Sized, AppError>) -> String {
    match r {
        Err(AppError::InvalidInput(m)) => m,
        Err(other) => panic!("unexpected {:?}", other),
        Ok(_) => panic!("expected an error"),
    }
}

fn codes(f: &[LintFinding]) -> Vec<&'static str> {
    f.iter().map(|f| f.code).collect()
}

#[test]
fn parses_two_speakers_with_canonical_voices() {
    let c = AppConfig::default();
    let s = parse_speakers(&strings(&[" Joe = kore", "Jane=PUCK"]), &c).unwrap();
    assert_eq!(s.len(), 2);
    assert_eq!(s[0].speaker, "Joe");
    assert_eq!(s[0].voice, "Kore");
    assert_eq!(s[1].speaker, "Jane");
    assert_eq!(s[1].voice, "Puck");
    assert!(parse_speakers(&Vec::new(), &c).unwrap().is_empty());
}

#[test]
fn rejects_bad_speaker_mappings() {
    let c = AppConfig::default();
    assert_eq!(
        invalid(parse_speakers(&strings(&["a=Kore", "b=Puck", "c=Zephyr"]), &c)),
        "Gemini TTS multi-speaker config supports at most 2 speakers"
    );
    assert_eq!(invalid(parse_speakers(&strings(&["JoeKore", "a=b"]), &c)), "speaker must be NAME=VOICE, got JoeKore");
    assert_eq!(invalid(parse_speakers(&strings(&["Joe= ", "a=b"]), &c)), "speaker must be NAME=VOICE, got Joe= ");
    assert_eq!(
        invalid(parse_speakers(&strings(&["Joe=Kore"]), &c)),
        "multi-speaker TTS requires exactly 2 --speaker NAME=VOICE mappings; use --voice for one speaker"
    );
    assert!(invalid(parse_speakers(&strings(&["Joe=Kore", "Jane=Bob"]), &c))
        .starts_with("unsupported Gemini TTS voice \"Bob\". Valid voices: Achernar"));
}

#[test]
fn only_the_first_equals_sign_splits() {
    let c = AppConfig::default();
    assert_eq!(
        invalid(parse_speakers(&strings(&["A=Kore=x", "B=Puck"]), &c)),
        "unsupported Gemini TTS voice \"Kore=x\". Valid voices: Achernar, Achird, Algenib, Algieba, Alnilam, Aoede, Autonoe, Callirrhoe, Charon, Despina, Enceladus, Erinome, Fenrir, Gacrux, Iapetus, Kore, Laomedeia, Leda, Orus, Puck, Pulcherrima, Rasalgethi, Sadachbia, Sadaltager, Schedar, Sulafat, Umbriel, Vindemiatrix, Zephyr, Zubenelgenubi"
    );
}

#[test]
fn lint_reports_reasonable_length() {
    let f = lint_prompt("Hello there, friend.", &Vec::new());
    assert_eq!(codes(&f), vec!["length_ok"]);
    assert_eq!(f[0].severity, "info");
    assert_eq!(f[0].message, "Length looks reasonable: 3 words, 20 characters.");
}

#[test]
fn lint_flags_long_scripts() {
    let long = "word ".repeat(451);
    let f = lint_prompt(&long, &Vec::new());
    assert_eq!(codes(&f), vec!["long_take"]);
    assert_eq!(f[0].message, "Script is about 451 words; short takes are more reliable for preview TTS.");
    let huge = "x".repeat(6001);
    let f = lint_prompt(&huge, &Vec::new());
    assert_eq!(codes(&f), vec!["long_prompt"]);
    assert_eq!(
        f[0].message,
        "Prompt is 6001 characters; long Gemini TTS generations can drift or degrade."
    );
}

#[test]
fn lint_flags_tag_problems() {
    let f = lint_prompt("[a] one [b] two [c] three", &Vec::new());
    assert_eq!(codes(&f), vec!["length_ok", "tag_inflation"]);
    assert_eq!(f[1].message, "3 inline tags across 6 words is dense.");
    let f = lint_prompt("[softly][slowly] hi.", &Vec::new());
    assert!(codes(&f).contains(&"adjacent_tags"));
    let f = lint_prompt("Hi [pause]. there", &Vec::new());
    assert!(codes(&f).contains(&"tag_boundary"));
    let f = lint_prompt("[[tts voice]] hello", &Vec::new());
    assert!(codes(&f).contains(&"foreign_tts_directive"));
}

#[test]
fn tag_density_threshold_is_strict() {
    // 4 tags in 50 words is exactly 0.08: not dense.
    let mut text = String::from("[a] [b] [c] [d]");
    for _ in 0..46 {
        text.push_str(" w");
    }
    let f = lint_prompt(&text, &Vec::new());
    assert!(!codes(&f).contains(&"tag_inflation"));
}

#[test]
fn lint_checks_speaker_prefixes() {
    let f = lint_prompt("Joe: hi\nJane: hello", &strings(&["Joe", "Bob"]));
    assert_eq!(codes(&f), vec!["length_ok", "missing_speaker_line"]);
    assert_eq!(f[1].message, "No transcript line starts with expected speaker prefix \"Bob:\".");
}

#[test]
fn speak_without_direction_uses_raw_text() {
    let c = AppConfig::default();
    let b = build_for_speak("Say warmly: hello", &speak_args("Say warmly: hello"), &c).unwrap();
    assert!(!b.structured);
    assert_eq!(b.prompt, "Say warmly: hello");
    assert_eq!(b.prompt_chars, 17);
    assert_eq!(b.transcript_chars, 17);
    assert!(b.warnings.is_empty());
}

#[test]
fn speak_with_direction_builds_structured_prompt() {
    let c = AppConfig::default();
    let mut a = speak_args("Hello");
    a.style = Some("warm".to_string());
    let b = build_for_speak("  Hello  ", &a, &c).unwrap();
    assert!(b.structured);
    assert!(b.prompt.starts_with("Synthesize speech for the performance defined below."));
    assert!(b.prompt.contains("# AUDIO PROFILE: Clear, useful narrator\n\n## THE SCENE\n"));
    assert!(b.prompt.contains("\nStyle: warm\nPacing: Medium pace"));
    assert!(b.prompt.ends_with("\n\n#### TRANSCRIPT\nHello"));
    assert_eq!(b.transcript_chars, 9);
    assert_eq!(b.prompt_chars, b.prompt.chars().count());

    a.raw = true;
    let b = build_for_speak("Hello", &a, &c).unwrap();
    assert!(!b.structured);
}

#[test]
fn already_structured_text_is_kept() {
    let c = AppConfig::default();
    let mut a = speak_args("x");
    a.pace = Some("fast".to_string());
    let text = "# Audio Profile: me\n#### Transcript\nHi";
    let b = build_for_speak(text, &a, &c).unwrap();
    assert!(!b.structured);
    assert_eq!(b.prompt, text);
}

#[test]
fn script_lists_tags_and_cast() {
    let c = AppConfig::default();
    let mut a = script_args("Joe: hi\nJane: yo");
    a.tag = strings(&["[warmly]", "[laughs]"]);
    a.speaker = strings(&["Joe=kore", "Jane=puck"]);
    let b = build_for_script("Joe: hi\nJane: yo", &a, &c).unwrap();
    assert!(b.structured);
    assert!(b.prompt.contains("\nUseful inline tags for this script: [warmly] [laughs]"));
    assert!(b.prompt.contains(
        "\n\n### CAST\n- Joe: use voice Kore. Transcript lines must start with exactly this speaker name.\n- Jane: use voice Puck. Transcript lines must start with exactly this speaker name.\n"
    ));
    assert!(b.prompt.ends_with("#### TRANSCRIPT\nJoe: hi\nJane: yo"));
    assert_eq!(b.speakers.len(), 2);
    assert_eq!(b.speakers[1].voice, "Puck");
}

#[test]
fn script_reports_speaker_errors() {
    let c = AppConfig::default();
    let mut a = script_args("hi");
    a.speaker = strings(&["Joe=Kore"]);
    assert!(invalid(build_for_script("hi", &a, &c)).starts_with("multi-speaker TTS requires exactly 2"));
}

#[test]
fn inline_text_is_trimmed_and_not_empty() {
    assert_eq!(inline_text("  hi  ").unwrap(), "hi");
    assert_eq!(invalid(inline_text(" \n ")), "text cannot be empty");
}

#[test]
fn speak_plan_checks_cast_then_voice_then_key() {

    let c = AppConfig::default();
    let key = || Some(("GEMINI_API_KEY", "k".to_string()));

    let mut a = speak_args("hi");
    a.speaker = strings(&["Joe=Kore"]);
    a.voice = Some("Nobody".to_string());
    assert!(invalid(plan_speak("hi", &a, &c, None)).starts_with("multi-speaker TTS requires exactly 2"));

    let mut a = speak_args("hi");
    a.voice = Some("Nobody".to_string());
    assert!(invalid(plan_speak("hi", &a, &c, None)).starts_with("unsupported Gemini TTS voice \"Nobody\""));

    let a = speak_args("hi");
    match plan_speak("hi", &a, &c, None) {
        Err(AppError::Config(m)) => assert!(m.starts_with("missing Gemini API key")),
        Err(other) => panic!("unexpected {:?}", other),
        Ok(_) => panic!("expected an error"),
    }

    let mut a = speak_args("hi");
    a.voice = Some("puck".to_string());
    a.model = Some("m2".to_string());
    a.format = AudioFormat::Flac;
    let p = plan_speak("hi", &a, &c, key()).unwrap();
    assert_eq!(p.voice, "Puck");
    assert_eq!(p.model, "m2");
    assert_eq!(p.api_key, "k");
    assert_eq!(p.format, AudioFormat::Flac);
    assert_eq!(p.build.prompt, "hi");

    let mut a = speak_args("hi");
    a.out = "dialogue.mp3".to_string();
    assert_eq!(plan_speak("hi", &a, &c, key()).unwrap().format, AudioFormat::Mp3);

    let p = plan_speak("hi", &speak_args("hi"), &c, key()).unwrap();
    assert_eq!(p.voice, "Kore");
    assert_eq!(p.model, "gemini-3.1-flash-tts-preview");
    assert_eq!(p.format, AudioFormat::Wav);
}

#[test]
fn speaker_prefix_must_start_a_line() {
    let f = lint_prompt("Guest: I met Host: yesterday", &strings(&["Host", "Guest"]));
    let missing: Vec<&LintFinding> = f.iter().filter(|f| f.code == "missing_speaker_line").collect();
    assert_eq!(missing.len(), 1);
    assert_eq!(missing[0].severity, "warn");
    assert_eq!(missing[0].message, "No transcript line starts with expected speaker prefix \"Host:\".");
    let f = lint_prompt("Guest: hi\nHost: hello", &strings(&["Host", "Guest"]));
    assert!(!codes(&f).contains(&"missing_speaker_line"));
}

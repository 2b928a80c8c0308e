use gemtts::error::AppError;
use gemtts::gemini::{
    extract_audio, extract_error_message, generate_outcome, interpret_generate_response, interpret_model_response, model_check_outcome,
    request_payload, GenerateRequest,
};
use gemtts::json::JsonValue;
use gemtts::prompt::SpeakerVoice;

fn s(v: &str) -> JsonValue {
    JsonValue::Str(v.to_string())
}

fn obj(entries: Vec<(&str, JsonValue)>) -> JsonValue {
    JsonValue::Object(entries.into_iter().map(|(k, v)| (k.to_string(), v)).collect())
}

fn request(speakers: Vec<SpeakerVoice>) -> GenerateRequest {
    GenerateRequest {
        model: "gemini-3.1-flash-tts-preview".to_string(),
        prompt: "Say hi".to_string(),
        voice: "Kore".to_string(),
        speakers,
        timeout_seconds: 90,
    }
}

fn audio_response(data: &str, mime: Option<&str>) -> JsonValue {
    let mut inline = vec![("data", s(data))];
    if let Some(m) = mime {
        inline.push(("mimeType", s(m)));
    }
    obj(vec![(
        "candidates",
        JsonValue::Array(vec![obj(vec![(
            "content",
            obj(vec![("parts", JsonValue::Array(vec![obj(vec![("inlineData", obj(inline))])]))]),
        )])]),
    )])
}

fn render(v: &JsonValue) -> String {
    match v {
        JsonValue::Null => "null".to_string(),
        JsonValue::Bool(b) => b.to_string(),
        JsonValue::Number(n) => n.to_string(),
        JsonValue::OtherNumber(t) => t.clone(),
        JsonValue::Str(t) => format!("{:?}", t),
        JsonValue::Array(a) => format!("[{}]", a.iter().map(render).collect::<Vec<_>>().join(",")),
        JsonValue::Object(e) => format!(
            "{{{}}}",
            e.iter().map(|(k, v)| format!("{:?}:{}", k, render(v))).collect::<Vec<_>>().join(",")
        ),
    }
}

fn transient(r: Result<impl Sized, AppError>) -> String {
    match r {
        Err(AppError::Transient(m)) => m,
        Err(other) => panic!("unexpected {:?}", other),
        Ok(_) => panic!("expected an error"),
    }
}

#[test]
fn single_voice_payload() {
    let p = request_payload(&request(Vec::new()));
    assert_eq!(
        render(&p),
        r#"{"contents":[{"parts":[{"text":"Say hi"}]}],"generationConfig":{"responseModalities":["AUDIO"],"speechConfig":{"voiceConfig":{"prebuiltVoiceConfig":{"voiceName":"Kore"}}}},"model":"gemini-3.1-flash-tts-preview"}"#
    );
}

#[test]
fn multi_speaker_payload() {
    let speakers = vec![
        SpeakerVoice { speaker: "Joe".to_string(), voice: "Kore".to_string() },
        SpeakerVoice { speaker: "Jane".to_string(), voice: "Puck".to_string() },
    ];
    let p = request_payload(&request(speakers));
    assert_eq!(
        render(&p),
        r#"{"contents":[{"parts":[{"text":"Say hi"}]}],"generationConfig":{"responseModalities":["AUDIO"],"speechConfig":{"multiSpeakerVoiceConfig":{"speakerVoiceConfigs":[{"speaker":"Joe","voiceConfig":{"prebuiltVoiceConfig":{"voiceName":"Kore"}}},{"speaker":"Jane","voiceConfig":{"prebuiltVoiceConfig":{"voiceName":"Puck"}}}]}}},"model":"gemini-3.1-flash-tts-preview"}"#
    );
}

#[test]
fn decodes_audio_from_a_successful_response() {
    let mut body = audio_response("AAEC", Some("audio/L16;codec=pcm;rate=24000"));
    if let JsonValue::Object(e) = &mut body {
        e.push((
            "usageMetadata".to_string(),
            obj(vec![("promptTokenCount", JsonValue::Number(7)), ("candidatesTokenCount", JsonValue::Number(50))]),
        ));
    }
    let g = interpret_generate_response(200, "200 OK", "{}", Ok(body), &request(Vec::new())).unwrap();
    assert_eq!(g.pcm, vec![0u8, 1, 2]);
    assert_eq!(g.mime_type, "audio/L16;codec=pcm;rate=24000");
    assert_eq!(g.model, "gemini-3.1-flash-tts-preview");
    assert_eq!(g.prompt_chars, 6);
    assert_eq!(g.usage.prompt_token_count, Some(7));
    assert_eq!(g.usage.candidates_token_count, Some(50));
    assert_eq!(g.usage.total_token_count, None);
}

#[test]
fn missing_mime_type_defaults_to_l16() {
    let g = interpret_generate_response(200, "200 OK", "", Ok(audio_response("AAAA", None)), &request(Vec::new()))
        .unwrap();
    assert_eq!(g.pcm, vec![0u8, 0, 0]);
    assert_eq!(g.mime_type, "audio/l16; rate=24000; channels=1");
}

#[test]
fn snake_case_inline_data_is_found() {
    let body = obj(vec![(
        "candidates",
        JsonValue::Array(vec![
            obj(vec![("content", obj(vec![("parts", s("not an array"))]))]),
            obj(vec![(
                "content",
                obj(vec![(
                    "parts",
                    JsonValue::Array(vec![
                        obj(vec![("text", s("hello"))]),
                        obj(vec![("inline_data", obj(vec![("data", s("QQ==")), ("mime_type", s("audio/wav"))]))]),
                    ]),
                )]),
            )]),
        ]),
    )]);
    let (data, mime) = extract_audio(&body).unwrap();
    assert_eq!(data, "QQ==");
    assert_eq!(mime, Some("audio/wav".to_string()));
}

#[test]
fn malformed_success_bodies_are_transient() {
    let r = request(Vec::new());
    assert_eq!(
        transient(interpret_generate_response(200, "200 OK", "x", Err("expected value".to_string()), &r)),
        "Gemini returned invalid JSON: expected value"
    );
    assert_eq!(
        transient(interpret_generate_response(200, "200 OK", "{}", Ok(obj(vec![])), &r)),
        "Gemini response had no candidates array"
    );
    assert_eq!(
        transient(interpret_generate_response(200, "200 OK", "{}", Ok(obj(vec![("candidates", JsonValue::Array(vec![]))])), &r)),
        "Gemini response did not contain inline audio data"
    );
    let no_data = obj(vec![(
        "candidates",
        JsonValue::Array(vec![obj(vec![(
            "content",
            obj(vec![("parts", JsonValue::Array(vec![obj(vec![("inlineData", obj(vec![("data", JsonValue::Number(1))]))])]))]),
        )])]),
    )]);
    assert_eq!(
        transient(interpret_generate_response(200, "200 OK", "{}", Ok(no_data), &r)),
        "Gemini inline audio missing data"
    );
    assert!(transient(interpret_generate_response(200, "200 OK", "{}", Ok(audio_response("!!!", None)), &r))
        .starts_with("Gemini returned invalid base64 audio: "));
}

#[test]
fn error_statuses_map_to_error_kinds() {
    let r = request(Vec::new());
    let err_body = obj(vec![("error", obj(vec![("message", s("quota exceeded"))]))]);
    match interpret_generate_response(429, "429 Too Many Requests", "{...}", Ok(err_body), &r) {
        Err(AppError::RateLimited(m)) => assert_eq!(m, "quota exceeded"),
        other => panic!("unexpected {:?}", other.map(|_| ())),
    }
    match interpret_generate_response(403, "403 Forbidden", "  denied  ", Err("bad".to_string()), &r) {
        Err(AppError::Config(m)) => assert_eq!(m, "Gemini API rejected the request (403 Forbidden): denied"),
        other => panic!("unexpected {:?}", other.map(|_| ())),
    }
    assert_eq!(
        transient(interpret_generate_response(503, "503 Service Unavailable", "busy", Err("x".to_string()), &r)),
        "Gemini API returned 503 Service Unavailable: busy"
    );
}

#[test]
fn reads_api_error_messages() {
    let body = obj(vec![("error", obj(vec![("message", s("boom"))]))]);
    assert_eq!(extract_error_message(Some(&body)), Some("boom".to_string()));
    assert_eq!(extract_error_message(Some(&obj(vec![("error", s("boom"))]))), None);
    assert_eq!(extract_error_message(None), None);
}

#[test]
fn model_check_answers() {
    assert_eq!(
        interpret_model_response(200, "200 OK", "{}", Ok(obj(vec![])), Ok(Some("models/x".to_string())), "x").unwrap(),
        "models/x"
    );
    assert_eq!(interpret_model_response(200, "200 OK", "{}", Ok(obj(vec![])), Ok(None), "x").unwrap(), "x");
    assert_eq!(
        transient(interpret_model_response(200, "200 OK", "[", Err("eof".to_string()), Err("eof".to_string()), "x")),
        "model check returned invalid JSON: eof"
    );
    match interpret_model_response(404, "404 Not Found", " nope ", Err("x".to_string()), Ok(None), "x") {
        Err(AppError::Config(m)) => assert_eq!(m, "model check failed (404 Not Found): nope"),
        other => panic!("unexpected {:?}", other),
    }
    match interpret_model_response(429, "429 Too Many Requests", "slow down", Err("x".to_string()), Ok(None), "x") {
        Err(AppError::RateLimited(m)) => assert_eq!(m, "slow down"),
        other => panic!("unexpected {:?}", other),
    }
}

#[test]
fn outcomes_parse_the_body() {
    let r = request(Vec::new());
    let body = r#"{"candidates":[{"content":{"parts":[{"inlineData":{"mimeType":"audio/pcm","data":"AAEC"}}]}}],"usageMetadata":{"promptTokenCount":5}}"#;
    let g = generate_outcome(200, "200 OK", body, &r).unwrap();
    assert_eq!(g.pcm, vec![0u8, 1, 2]);
    assert_eq!(g.mime_type, "audio/pcm");
    assert_eq!(g.usage.prompt_token_count, Some(5));
    assert!(transient(generate_outcome(200, "200 OK", "not json", &r)).starts_with("Gemini returned invalid JSON: "));
    match generate_outcome(429, "429 Too Many Requests", r#"{"error":{"message":"quota"}}"#, &r) {
        Err(AppError::RateLimited(m)) => assert_eq!(m, "quota"),
        other => panic!("unexpected {:?}", other.map(|_| ())),
    }
    assert_eq!(model_check_outcome(200, "200 OK", r#"{"name":"models/x","version":"1"}"#, "x").unwrap(), "models/x");
    assert_eq!(model_check_outcome(200, "200 OK", r#"{"name":null}"#, "x").unwrap(), "x");
    assert_eq!(model_check_outcome(200, "200 OK", "{}", "x").unwrap(), "x");
    assert_eq!(model_check_outcome(200, "200 OK", r#"["models/y"]"#, "x").unwrap(), "models/y");
    assert_eq!(model_check_outcome(200, "200 OK", "[null]", "x").unwrap(), "x");
    assert!(transient(model_check_outcome(200, "200 OK", "[]", "x")).ends_with("expected an object whose name is a string"));
    assert!(transient(model_check_outcome(200, "200 OK", "[", "x")).starts_with("model check returned invalid JSON: "));
    assert_eq!(
        transient(model_check_outcome(200, "200 OK", r#"{"name":5}"#, "x")),
        "model check returned invalid JSON: expected an object whose name is a string"
    );
    match model_check_outcome(403, "403 Forbidden", r#"{"error":{"message":"denied"}}"#, "x") {
        Err(AppError::Config(m)) => assert_eq!(m, "model check failed (403 Forbidden): denied"),
        other => panic!("unexpected {:?}", other),
    }
}

//! The Gemini `generateContent` request body, and the interpretation of the
//! API's answers. Sending requests is left to the caller, which hands back
//! the HTTP status and the body text.

use vstd::prelude::*;
use base64::Engine;
use crate::error::AppError;
use crate::json::{JsonValue, entry_value, json_get, json_get_opt, json_text, json_parse, parse_json};
use crate::prompt::{SpeakerVoice, speakers_view};
use crate::text::{owned, push_str, trim, trim_str, to_chars};
use crate::usage::{ApiUsageMetadata, api_usage_from_response, usage_object, read_count};

verus! {

/// A text-to-speech request.
pub struct GenerateRequest {
    pub model: String,
    pub prompt: String,
    pub voice: String,
    pub speakers: Vec<SpeakerVoice>,
    pub timeout_seconds: u64,
}

/// Generated audio and what the API said about it.
pub struct GenerateResponse {
    pub pcm: Vec<u8>,
    pub mime_type: String,
    pub model: String,
    pub prompt_chars: usize,
    pub usage: ApiUsageMetadata,
}

// ---------------------------------------------------------------------------
// Request body
// ---------------------------------------------------------------------------

/// `j` is the string `s`.
pub open spec fn is_text(j: JsonValue, s: Seq<char>) -> bool {
    j matches JsonValue::Str(x) && x@ == s
}

/// `j` is an object with the single member `key`.
pub open spec fn single_member(j: JsonValue, key: Seq<char>) -> Option<JsonValue> {
    match j {
        JsonValue::Object(e) => if e@.len() == 1 && e@[0].0@ == key {
            Some(e@[0].1)
        } else {
            None
        },
        _ => None,
    }
}

/// `j` is `{"prebuiltVoiceConfig": {"voiceName": voice}}`.
pub open spec fn is_voice_config(j: JsonValue, voice: Seq<char>) -> bool {
    match single_member(j, "prebuiltVoiceConfig"@) {
        Some(p) => match single_member(p, "voiceName"@) {
            Some(v) => is_text(v, voice),
            None => false,
        },
        None => false,
    }
}

/// `j` is `{"speaker": name, "voiceConfig": {...voice...}}`.
pub open spec fn is_speaker_config(j: JsonValue, speaker: (Seq<char>, Seq<char>)) -> bool {
    match j {
        JsonValue::Object(e) => e@.len() == 2 && e@[0].0@ == "speaker"@ && is_text(e@[0].1, speaker.0)
            && e@[1].0@ == "voiceConfig"@ && is_voice_config(e@[1].1, speaker.1),
        _ => false,
    }
}

/// The speech configuration: one prebuilt voice, or a multi-speaker cast.
pub open spec fn is_speech_config(j: JsonValue, voice: Seq<char>, speakers: Seq<(Seq<char>, Seq<char>)>) -> bool {
    if speakers.len() == 0 {
        match single_member(j, "voiceConfig"@) {
            Some(v) => is_voice_config(v, voice),
            None => false,
        }
    } else {
        match single_member(j, "multiSpeakerVoiceConfig"@) {
            Some(m) => match single_member(m, "speakerVoiceConfigs"@) {
                Some(JsonValue::Array(a)) => a@.len() == speakers.len() && forall|i: int|
                    0 <= i < a@.len() ==> is_speaker_config(#[trigger] a@[i], speakers[i]),
                _ => false,
            },
            None => false,
        }
    }
}

/// The `generateContent` body: the prompt as the only text part, audio as the
/// only response modality, the speech configuration, and the model.
pub open spec fn is_payload(j: JsonValue, model: Seq<char>, prompt: Seq<char>, voice: Seq<char>, speakers: Seq<(Seq<char>, Seq<char>)>) -> bool {
    match j {
        JsonValue::Object(e) => {
            &&& e@.len() == 3
            &&& e@[0].0@ == "contents"@
            &&& e@[0].1 matches JsonValue::Array(contents) && contents@.len() == 1 && match single_member(contents@[0], "parts"@) {
                Some(JsonValue::Array(parts)) => parts@.len() == 1 && match single_member(parts@[0], "text"@) {
                    Some(t) => is_text(t, prompt),
                    None => false,
                },
                _ => false,
            }
            &&& e@[1].0@ == "generationConfig"@
            &&& e@[1].1 matches JsonValue::Object(g) && g@.len() == 2 && g@[0].0@ == "responseModalities"@
                && (g@[0].1 matches JsonValue::Array(m) && m@.len() == 1 && is_text(m@[0], "AUDIO"@))
                && g@[1].0@ == "speechConfig"@ && is_speech_config(g@[1].1, voice, speakers)
            &&& e@[2].0@ == "model"@
            &&& is_text(e@[2].1, model)
        },
        _ => false,
    }
}

fn member(key: &str, value: JsonValue) -> (r: (String, JsonValue))
    ensures
        r.0@ == key@,
        r.1 == value,
{
    (owned(key), value)
}

fn object1(key: &str, value: JsonValue) -> (r: JsonValue)
    ensures
        single_member(r, key@) == Some(value),
{
    let mut e: Vec<(String, JsonValue)> = Vec::new();
    e.push(member(key, value));
    JsonValue::Object(e)
}

fn voice_config(voice: &String) -> (r: JsonValue)
    ensures
        is_voice_config(r, voice@),
{
    object1("prebuiltVoiceConfig", object1("voiceName", JsonValue::Str(voice.clone())))
}

/// The JSON body of a `generateContent` request.
pub fn request_payload(request: &GenerateRequest) -> (r: JsonValue)
    ensures
        is_payload(r, request.model@, request.prompt@, request.voice@, speakers_view(request.speakers@)),
{
    let ghost sp = speakers_view(request.speakers@);
    let speech_config = if request.speakers.len() == 0 {
        object1("voiceConfig", voice_config(&request.voice))
    } else {
        let mut configs: Vec<JsonValue> = Vec::new();
        let mut i: usize = 0;
        while i < request.speakers.len()
            invariant
                i <= request.speakers.len(),
                sp == speakers_view(request.speakers@),
                configs@.len() == i,
                forall|k: int| 0 <= k < i ==> is_speaker_config(#[trigger] configs@[k], sp[k]),
            decreases request.speakers.len() - i,
        {
            let s = &request.speakers[i];
            let mut e: Vec<(String, JsonValue)> = Vec::new();
            e.push(member("speaker", JsonValue::Str(s.speaker.clone())));
            e.push(member("voiceConfig", voice_config(&s.voice)));
            configs.push(JsonValue::Object(e));
            i = i + 1;
        }
        object1("multiSpeakerVoiceConfig", object1("speakerVoiceConfigs", JsonValue::Array(configs)))
    };
    let mut modalities: Vec<JsonValue> = Vec::new();
    modalities.push(JsonValue::Str(owned("AUDIO")));
    let mut generation: Vec<(String, JsonValue)> = Vec::new();
    generation.push(member("responseModalities", JsonValue::Array(modalities)));
    generation.push(member("speechConfig", speech_config));
    let mut parts: Vec<JsonValue> = Vec::new();
    parts.push(object1("text", JsonValue::Str(request.prompt.clone())));
    let mut contents: Vec<JsonValue> = Vec::new();
    contents.push(object1("parts", JsonValue::Array(parts)));
    let mut body: Vec<(String, JsonValue)> = Vec::new();
    body.push(member("contents", JsonValue::Array(contents)));
    body.push(member("generationConfig", JsonValue::Object(generation)));
    body.push(member("model", JsonValue::Str(request.model.clone())));
    JsonValue::Object(body)
}


// ---------------------------------------------------------------------------
// Responses
// ---------------------------------------------------------------------------

/// The parts of a candidate, when it has a `content.parts` array.
pub open spec fn parts_of(c: JsonValue) -> Option<Seq<JsonValue>> {
    match json_get_opt(json_get(c, "content"@), "parts"@) {
        Some(JsonValue::Array(v)) => Some(v@),
        _ => None,
    }
}

/// The inline data of a part, under either spelling.
pub open spec fn inline_of(p: JsonValue) -> Option<JsonValue> {
    if json_get(p, "inlineData"@) is Some {
        json_get(p, "inlineData"@)
    } else {
        json_get(p, "inline_data"@)
    }
}

/// The first inline data among parts.
pub open spec fn first_inline_in_parts(ps: Seq<JsonValue>) -> Option<JsonValue>
    decreases ps.len(),
{
    if ps.len() == 0 {
        None
    } else if inline_of(ps[0]) is Some {
        inline_of(ps[0])
    } else {
        first_inline_in_parts(ps.drop_first())
    }
}

/// The first inline data among the parts of the candidates, in order.
pub open spec fn first_inline(cands: Seq<JsonValue>) -> Option<JsonValue>
    decreases cands.len(),
{
    if cands.len() == 0 {
        None
    } else {
        match parts_of(cands[0]) {
            Some(ps) => if first_inline_in_parts(ps) is Some {
                first_inline_in_parts(ps)
            } else {
                first_inline(cands.drop_first())
            },
            None => first_inline(cands.drop_first()),
        }
    }
}

/// The MIME type of inline data, under either spelling.
pub open spec fn mime_of(inline: JsonValue) -> Option<Seq<char>> {
    json_text(
        if json_get(inline, "mimeType"@) is Some {
            json_get(inline, "mimeType"@)
        } else {
            json_get(inline, "mime_type"@)
        },
    )
}

/// The base64 audio and MIME type of the first inline data of a response,
/// or the message explaining what is missing.
pub open spec fn audio_of(json: JsonValue) -> Result<(Seq<char>, Option<Seq<char>>), Seq<char>> {
    match json_get(json, "candidates"@) {
        Some(JsonValue::Array(c)) => match first_inline(c@) {
            None => Err("Gemini response did not contain inline audio data"@),
            Some(inline) => match json_text(json_get(inline, "data"@)) {
                None => Err("Gemini inline audio missing data"@),
                Some(d) => Ok((d, mime_of(inline))),
            },
        },
        _ => Err("Gemini response had no candidates array"@),
    }
}

fn transient(msg: &str) -> (r: AppError)
    ensures
        r matches AppError::Transient(m) && m@ == msg@,
{
    AppError::Transient(owned(msg))
}

fn inline_in_parts(ps: &Vec<JsonValue>) -> (r: Option<&JsonValue>)
    ensures
        match first_inline_in_parts(ps@) {
            Some(v) => r matches Some(x) && *x == v,
            None => r is None,
        },
{
    let mut i: usize = 0;
    assert(ps@.skip(0) =~= ps@);
    while i < ps.len()
        invariant
            i <= ps.len(),
            first_inline_in_parts(ps@) == first_inline_in_parts(ps@.skip(i as int)),
        decreases ps.len() - i,
    {
        assert(ps@.skip(i as int).drop_first() =~= ps@.skip(i + 1));
        let inline = match ps[i].get("inlineData") {
            Some(x) => Some(x),
            None => ps[i].get("inline_data"),
        };
        if inline.is_some() {
            return inline;
        }
        i = i + 1;
    }
    None
}

fn find_inline(cands: &Vec<JsonValue>) -> (r: Option<&JsonValue>)
    ensures
        match first_inline(cands@) {
            Some(v) => r matches Some(x) && *x == v,
            None => r is None,
        },
{
    let mut i: usize = 0;
    assert(cands@.skip(0) =~= cands@);
    while i < cands.len()
        invariant
            i <= cands.len(),
            first_inline(cands@) == first_inline(cands@.skip(i as int)),
        decreases cands.len() - i,
    {
        assert(cands@.skip(i as int).drop_first() =~= cands@.skip(i + 1));
        let parts = match cands[i].get("content") {
            Some(c) => c.get("parts"),
            None => None,
        };
        match parts {
            Some(JsonValue::Array(ps)) => {
                let found = inline_in_parts(ps);
                if found.is_some() {
                    return found;
                }
            },
            _ => {},
        }
        i = i + 1;
    }
    None
}

/// Finds the base64 audio and its MIME type in a `generateContent` response.
pub fn extract_audio(json: &JsonValue) -> (r: Result<(String, Option<String>), AppError>)
    ensures
        match audio_of(*json) {
            Ok((d, m)) => r matches Ok((rd, rm)) && rd@ == d && match m {
                Some(t) => rm matches Some(x) && x@ == t,
                None => rm is None,
            },
            Err(msg) => r matches Err(AppError::Transient(e)) && e@ == msg,
        },
{
    let cands = match json.get("candidates") {
        Some(JsonValue::Array(c)) => c,
        _ => {
            return Err(transient("Gemini response had no candidates array"));
        },
    };
    let inline = match find_inline(cands) {
        Some(x) => x,
        None => {
            return Err(transient("Gemini response did not contain inline audio data"));
        },
    };
    let data = match inline.get("data") {
        Some(d) => match d.as_str() {
            Some(t) => owned(t),
            None => {
                return Err(transient("Gemini inline audio missing data"));
            },
        },
        None => {
            return Err(transient("Gemini inline audio missing data"));
        },
    };
    let mime_value = match inline.get("mimeType") {
        Some(x) => Some(x),
        None => inline.get("mime_type"),
    };
    let mime = match mime_value {
        Some(v) => match v.as_str() {
            Some(t) => Some(owned(t)),
            None => None,
        },
        None => None,
    };
    Ok((data, mime))
}

/// The `error.message` of an API error body.
pub open spec fn error_message_of(parsed: Option<JsonValue>) -> Option<Seq<char>> {
    match parsed {
        Some(j) => json_text(json_get_opt(json_get(j, "error"@), "message"@)),
        None => None,
    }
}

/// Reads `error.message` from a parsed error body.
pub fn extract_error_message(parsed: Option<&JsonValue>) -> (r: Option<String>)
    ensures
        match error_message_of(match parsed {
            Some(j) => Some(*j),
            None => None,
        }) {
            Some(m) => r matches Some(x) && x@ == m,
            None => r is None,
        },
{
    match parsed {
        Some(j) => match j.get("error") {
            Some(e) => match e.get("message") {
                Some(m) => match m.as_str() {
                    Some(t) => Some(owned(t)),
                    None => None,
                },
                None => None,
            },
            None => None,
        },
        None => None,
    }
}

/// The bytes that standard base64 decoding gives for a text, or the
/// decoder's error message.
pub uninterp spec fn base64_decode(data: Seq<char>) -> Result<Seq<u8>, Seq<char>>;

/// Decodes standard base64.
///
/// Trusted: calls `base64::engine::general_purpose::STANDARD.decode`, whose
/// result depends on the input alone; an error is rendered with its
/// `Display`. The decoding rules themselves are not restated.
#[verifier::external_body]
fn decode_base64(data: &str) -> (r: Result<Vec<u8>, String>)
    ensures
        base64_decode(data@) == (match r {
            Ok(v) => Ok::<Seq<u8>, Seq<char>>(v@),
            Err(e) => Err::<Seq<u8>, Seq<char>>(e@),
        }),
{
    base64::engine::general_purpose::STANDARD.decode(data).map_err(|e| e.to_string())
}

/// Whether an HTTP status is a success (2xx).
pub open spec fn is_success(status: u16) -> bool {
    200 <= status && status <= 299
}

/// The message of a failed request: the API's error message, or else the
/// trimmed body.
pub open spec fn failure_message(body: Seq<char>, parsed: Option<JsonValue>) -> Seq<char> {
    match error_message_of(parsed) {
        Some(m) => m,
        None => trim(body),
    }
}

fn failure_text(body: &str, parsed: &Result<JsonValue, String>) -> (r: String)
    ensures
        r@ == failure_message(body@, parsed_ok(parse_view(*parsed))),
{
    let j = match parsed {
        Ok(j) => Some(j),
        Err(_) => None,
    };
    match extract_error_message(j) {
        Some(m) => m,
        None => trim_str(body),
    }
}

/// A parse result with the error message as characters.
pub open spec fn parse_view(parsed: Result<JsonValue, String>) -> Result<JsonValue, Seq<char>> {
    match parsed {
        Ok(j) => Ok(j),
        Err(e) => Err(e@),
    }
}

/// The parsed body when it was valid JSON.
pub open spec fn parsed_ok(parsed: Result<JsonValue, Seq<char>>) -> Option<JsonValue> {
    match parsed {
        Ok(j) => Some(j),
        Err(_) => None,
    }
}

/// The error a failed `generateContent` call reports: rate limited for 429,
/// a configuration problem for 400, 401 and 403, transient otherwise.
pub open spec fn generate_failure(status: u16, status_text: Seq<char>, message: Seq<char>) -> (int, Seq<char>) {
    if status == 429 {
        (4, message)
    } else if status == 400 || status == 401 || status == 403 {
        (2, "Gemini API rejected the request ("@ + status_text + "): "@ + message)
    } else {
        (1, "Gemini API returned "@ + status_text + ": "@ + message)
    }
}

/// An error with the given exit code kind carries the given message.
pub open spec fn error_is(e: AppError, kind: int, message: Seq<char>) -> bool {
    match e {
        AppError::RateLimited(m) => kind == 4 && m@ == message,
        AppError::Config(m) => kind == 2 && m@ == message,
        AppError::Transient(m) => kind == 1 && m@ == message,
        _ => false,
    }
}

/// The default MIME type of Gemini audio.
pub open spec fn default_mime() -> Seq<char> {
    "audio/l16; rate=24000; channels=1"@
}

/// `r` is what a `generateContent` answer with this status, displayed
/// status, body and parse of the body gives for `request`.
pub open spec fn is_generate_answer(
    r: Result<GenerateResponse, AppError>,
    status: u16,
    status_text: Seq<char>,
    body: Seq<char>,
    parsed: Result<JsonValue, Seq<char>>,
    request: GenerateRequest,
) -> bool {
        &&& !is_success(status) ==> (r matches Err(e) && error_is(
            e,
            generate_failure(status, status_text, failure_message(body, parsed_ok(parsed))).0,
            generate_failure(status, status_text, failure_message(body, parsed_ok(parsed))).1,
        ))
        &&& is_success(status) ==> match parsed {
            Err(pe) => r matches Err(AppError::Transient(m)) && m@ == "Gemini returned invalid JSON: "@ + pe,
            Ok(json) => match audio_of(json) {
                Err(msg) => r matches Err(AppError::Transient(m)) && m@ == msg,
                Ok((data, mime)) => match base64_decode(data) {
                    Err(de) => r matches Err(AppError::Transient(m)) && m@ == "Gemini returned invalid base64 audio: "@ + de,
                    Ok(pcm) => r matches Ok(g) && g.pcm@ == pcm && g.mime_type@ == (match mime {
                        Some(t) => t,
                        None => default_mime(),
                    }) && g.model@ == request.model@ && g.prompt_chars == request.prompt@.len()
                        && match usage_object(json) {
                        None => g.usage.prompt_token_count is None && g.usage.candidates_token_count is None
                            && g.usage.total_token_count is None,
                        Some(u) => g.usage.prompt_token_count == read_count(u, "promptTokenCount"@, "prompt_token_count"@)
                            && g.usage.candidates_token_count == read_count(u, "candidatesTokenCount"@, "candidates_token_count"@)
                            && g.usage.total_token_count == read_count(u, "totalTokenCount"@, "total_token_count"@),
                    },
                },
            },
        }
}

/// Interprets the answer to a `generateContent` request.
///
/// `status_text` is the status as displayed (such as `429 Too Many
/// Requests`); `parsed` is `body` parsed as JSON, or the parser's message.
pub fn interpret_generate_response(
    status: u16,
    status_text: &str,
    body: &str,
    parsed: Result<JsonValue, String>,
    request: &GenerateRequest,
) -> (r: Result<GenerateResponse, AppError>)
    ensures
        is_generate_answer(r, status, status_text@, body@, parse_view(parsed), *request),
{
    if !(200 <= status && status <= 299) {
        let message = failure_text(body, &parsed);
        if status == 429 {
            return Err(AppError::RateLimited(message));
        }
        if status == 400 || status == 401 || status == 403 {
            let mut m = owned("Gemini API rejected the request (");
            push_str(&mut m, status_text);
            push_str(&mut m, "): ");
            push_str(&mut m, message.as_str());
            return Err(AppError::Config(m));
        }
        let mut m = owned("Gemini API returned ");
        push_str(&mut m, status_text);
        push_str(&mut m, ": ");
        push_str(&mut m, message.as_str());
        return Err(AppError::Transient(m));
    }
    let json = match parsed {
        Ok(j) => j,
        Err(e) => {
            let mut m = owned("Gemini returned invalid JSON: ");
            push_str(&mut m, e.as_str());
            return Err(AppError::Transient(m));
        },
    };
    let (data, mime) = extract_audio(&json)?;
    let pcm = match decode_base64(data.as_str()) {
        Ok(p) => p,
        Err(e) => {
            let mut m = owned("Gemini returned invalid base64 audio: ");
            push_str(&mut m, e.as_str());
            return Err(AppError::Transient(m));
        },
    };
    let mime_type = match mime {
        Some(t) => t,
        None => owned("audio/l16; rate=24000; channels=1"),
    };
    Ok(GenerateResponse {
        pcm,
        mime_type,
        model: request.model.clone(),
        prompt_chars: to_chars(request.prompt.as_str()).len(),
        usage: api_usage_from_response(&json),
    })
}

/// Interprets the answer to a model metadata request.
///
/// `name` is the body read as `{"name": ...}` (its `name` member when
/// present), or the reader's message when the body does not have that shape.
pub fn interpret_model_response(
    status: u16,
    status_text: &str,
    body: &str,
    parsed: Result<JsonValue, String>,
    name: Result<Option<String>, String>,
    model: &str,
) -> (r: Result<String, AppError>)
    ensures
        !is_success(status) && status == 429 ==> (r matches Err(AppError::RateLimited(m)) && m@
            == failure_message(body@, parsed_ok(parse_view(parsed)))),
        !is_success(status) && status != 429 ==> (r matches Err(AppError::Config(m)) && m@
            == "model check failed ("@ + status_text@ + "): "@ + failure_message(body@, parsed_ok(parse_view(parsed)))),
        is_success(status) ==> match name {
            Err(e) => r matches Err(AppError::Transient(m)) && m@ == "model check returned invalid JSON: "@ + e@,
            Ok(Some(n)) => r matches Ok(x) && x@ == n@,
            Ok(None) => r matches Ok(x) && x@ == model@,
        },
{
    if !(200 <= status && status <= 299) {
        let message = failure_text(body, &parsed);
        if status == 429 {
            return Err(AppError::RateLimited(message));
        }
        let mut m = owned("model check failed (");
        push_str(&mut m, status_text);
        push_str(&mut m, "): ");
        push_str(&mut m, message.as_str());
        return Err(AppError::Config(m));
    }
    match name {
        Err(e) => {
            let mut m = owned("model check returned invalid JSON: ");
            push_str(&mut m, e.as_str());
            Err(AppError::Transient(m))
        },
        Ok(Some(n)) => Ok(n),
        Ok(None) => Ok(owned(model)),
    }
}

/// Interprets a `generateContent` answer from its status, displayed status
/// and body, parsing the body as JSON.
pub fn generate_outcome(status: u16, status_text: &str, body: &str, request: &GenerateRequest) -> (r: Result<
    GenerateResponse,
    AppError,
>)
    ensures
        is_generate_answer(r, status, status_text@, body@, json_parse(body@), *request),
{
    let parsed = parse_json(body);
    interpret_generate_response(status, status_text, body, parsed, request)
}

/// The message for a model answer that is JSON but not `{"name": ...}`.
pub open spec fn model_shape_message() -> Seq<char> {
    "expected an object whose name is a string"@
}

/// The value of the name field: absent or null is none, a string is that
/// name, anything else is a shape error.
pub open spec fn name_value(v: Option<JsonValue>) -> Result<Option<Seq<char>>, Seq<char>> {
    match v {
        None => Ok(None),
        Some(JsonValue::Null) => Ok(None),
        Some(JsonValue::Str(n)) => Ok(Some(n@)),
        Some(_) => Err(model_shape_message()),
    }
}

/// The `name` a model metadata answer carries, read as a record with one
/// optional string field `name`: from an object's `name` member, or from
/// the only element of a one-element array; any other JSON is a shape
/// error, and a body that is not JSON gives the parser's message.
///
/// Reading a record this way differs from a derived `Deserialize` in two
/// respects: a shape error carries the message above rather than the
/// deserializer's, and an object with a repeated `name` member is read
/// through its parsed value (the parser keeps the last one) rather than
/// rejected.
pub open spec fn model_name_of(parsed: Result<JsonValue, Seq<char>>) -> Result<Option<Seq<char>>, Seq<char>> {
    match parsed {
        Err(e) => Err(e),
        Ok(JsonValue::Object(entries)) => name_value(entry_value(entries@, "name"@)),
        Ok(JsonValue::Array(items)) => if items@.len() == 1 {
            name_value(Some(items@[0]))
        } else {
            Err(model_shape_message())
        },
        Ok(_) => Err(model_shape_message()),
    }
}

fn name_value_exec(v: Option<&JsonValue>) -> (r: Result<Option<String>, String>)
    ensures
        name_value(match v {
            Some(x) => Some(*x),
            None => None,
        }) == (match r {
            Ok(Some(n)) => Ok::<Option<Seq<char>>, Seq<char>>(Some(n@)),
            Ok(None) => Ok::<Option<Seq<char>>, Seq<char>>(None),
            Err(e) => Err::<Option<Seq<char>>, Seq<char>>(e@),
        }),
{
    match v {
        None => Ok(None),
        Some(JsonValue::Null) => Ok(None),
        Some(JsonValue::Str(n)) => Ok(Some(n.clone())),
        Some(_) => Err(owned("expected an object whose name is a string")),
    }
}

fn model_name(parsed: &Result<JsonValue, String>) -> (r: Result<Option<String>, String>)
    ensures
        model_name_of(parse_view(*parsed)) == (match r {
            Ok(Some(n)) => Ok::<Option<Seq<char>>, Seq<char>>(Some(n@)),
            Ok(None) => Ok::<Option<Seq<char>>, Seq<char>>(None),
            Err(e) => Err::<Option<Seq<char>>, Seq<char>>(e@),
        }),
{
    match parsed {
        Err(e) => Err(e.clone()),
        Ok(j) => match j {
            JsonValue::Object(_) => name_value_exec(j.get("name")),
            JsonValue::Array(items) => if items.len() == 1 {
                name_value_exec(Some(&items[0]))
            } else {
                Err(owned("expected an object whose name is a string"))
            },
            _ => Err(owned("expected an object whose name is a string")),
        },
    }
}

/// Interprets a model metadata answer from its status, displayed status and
/// body, parsing the body as JSON and reading its `name`.
pub fn model_check_outcome(status: u16, status_text: &str, body: &str, model: &str) -> (r: Result<String, AppError>)
    ensures
        !is_success(status) && status == 429 ==> (r matches Err(AppError::RateLimited(m)) && m@
            == failure_message(body@, parsed_ok(json_parse(body@)))),
        !is_success(status) && status != 429 ==> (r matches Err(AppError::Config(m)) && m@
            == "model check failed ("@ + status_text@ + "): "@ + failure_message(body@, parsed_ok(json_parse(body@)))),
        is_success(status) ==> match model_name_of(json_parse(body@)) {
            Err(e) => r matches Err(AppError::Transient(m)) && m@ == "model check returned invalid JSON: "@ + e,
            Ok(Some(n)) => r matches Ok(x) && x@ == n,
            Ok(None) => r matches Ok(x) && x@ == model@,
        },
{
    let parsed = parse_json(body);
    let name = model_name(&parsed);
    interpret_model_response(status, status_text, body, parsed, name, model)
}

} // verus!

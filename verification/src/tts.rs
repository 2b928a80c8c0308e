//! Decisions of the `speak` command: the voice and format to use, and the
//! guard against starting a second expensive generation.

use vstd::prelude::*;
use crate::catalog::{canonical_voice, canonical_voice_name, unsupported_voice, unsupported_voice_message};
use crate::audio::{extension_format, named_format, resolved_format};
use crate::cli::{AudioFormat, SpeakArgs};
use crate::config::{AppConfig, api_key_spec, env_key_view, require_api_key};
use crate::error::AppError;
use crate::prompt::{PromptBuild, build_for_speak, is_speak_build, speakers_spec};
use crate::text::{owned, push_str, views};

verus! {

/// The voice to speak with: the requested one, else the configured default,
/// in catalog spelling.
pub fn resolve_voice(requested: Option<&str>, default_voice: &str) -> (r: Result<String, AppError>)
    ensures
        ({
            let input = match requested {
                Some(v) => v@,
                None => default_voice@,
            };
            match canonical_voice(input) {
                Some(name) => r matches Ok(v) && v@ == name@,
                None => r matches Err(AppError::InvalidInput(m)) && m@ == unsupported_voice_message(input),
            }
        }),
{
    let input = match requested {
        Some(v) => v,
        None => default_voice,
    };
    match canonical_voice_name(input) {
        Some(name) => Ok(owned(name)),
        None => Err(unsupported_voice(input)),
    }
}

/// The format to write: the command's unless it is `auto`; for `auto`, the
/// format the output file's extension names, else the configured default.
pub open spec fn format_choice(arg: AudioFormat, default_format: AudioFormat, out: Seq<char>) -> AudioFormat {
    if arg != AudioFormat::Auto {
        arg
    } else {
        match named_format(out) {
            Some(f) => f,
            None => default_format,
        }
    }
}

/// The format asked for, given the command's format, the configured default
/// and the output path.
pub fn requested_format(arg: AudioFormat, default_format: AudioFormat, out: &str) -> (r: AudioFormat)
    ensures
        r == format_choice(arg, default_format, out@),
{
    match arg {
        AudioFormat::Auto => match extension_format(out) {
            Some(f) => f,
            None => default_format,
        },
        _ => arg,
    }
}

/// With `auto`, an output extension that names a format decides it, as if
/// the format were resolved from the output path alone.
pub proof fn extension_decides_auto_format(default_format: AudioFormat, out: Seq<char>)
    ensures
        named_format(out) is Some ==> resolved_format(format_choice(AudioFormat::Auto, default_format, out), out)
            == resolved_format(AudioFormat::Auto, out),
{
}

/// Age in seconds after which a generation lock is stale.
pub open spec fn lock_max_age() -> nat {
    1200
}

/// Whether a lock of the given age is stale; a lock whose age cannot be
/// read counts as stale.
pub fn lock_is_stale(age_seconds: Option<u64>) -> (r: bool)
    ensures
        r == match age_seconds {
            Some(a) => a >= lock_max_age(),
            None => true,
        },
{
    match age_seconds {
        Some(a) => a >= 1200,
        None => true,
    }
}

/// A fresh lock from another generation blocks a new one.
pub fn lock_conflict(path: &str) -> (r: AppError)
    ensures
        r matches AppError::Transient(m) && m@ == "a recent generation lock exists at "@ + path@,
{
    let mut m = owned("a recent generation lock exists at ");
    push_str(&mut m, path);
    AppError::Transient(m)
}

/// What `speak` sends and writes: the prompt, model, voice, API key and
/// requested output format.
pub struct SpeakPlan {
    pub build: PromptBuild,
    pub model: String,
    pub voice: String,
    pub api_key: String,
    pub format: AudioFormat,
}

/// The model to use: the requested one, else the configured default.
pub open spec fn model_choice(requested: Option<String>, default_model: Seq<char>) -> Seq<char> {
    match requested {
        Some(m) => m@,
        None => default_model,
    }
}

/// The voice name asked for: the requested one, else the configured default.
pub open spec fn voice_input(requested: Option<String>, default_voice: Seq<char>) -> Seq<char> {
    match requested {
        Some(v) => v@,
        None => default_voice,
    }
}

/// Everything `speak` decides before calling the API, checked in order: the
/// cast and prompt, then the voice, then the API key.
pub fn plan_speak(transcript: &str, args: &SpeakArgs, config: &AppConfig, env_key: Option<(&'static str, String)>) -> (r: Result<SpeakPlan, AppError>)
    ensures
        match speakers_spec(views(args.speaker@)) {
            Err(msg) => r matches Err(AppError::InvalidInput(m)) && m@ == msg,
            Ok(sp) => match canonical_voice(voice_input(args.voice, config.defaults.voice@)) {
                None => r matches Err(AppError::InvalidInput(m)) && m@ == unsupported_voice_message(
                    voice_input(args.voice, config.defaults.voice@),
                ),
                Some(name) => match api_key_spec(config@, env_key_view(env_key)) {
                    None => r matches Err(AppError::Config(m)) && m@
                        == "missing Gemini API key. Set GEMINI_API_KEY or run gemtts auth set --api-key <key>"@,
                    Some((_, key)) => r matches Ok(p) && is_speak_build(p.build, transcript@, *args, sp, config@)
                        && p.model@ == model_choice(args.model, config.defaults.model@) && p.voice@ == name@
                        && p.api_key@ == key && p.format == format_choice(args.format,
                        config.defaults.audio_format, args.out@),
                },
            },
        },
{
    let build = build_for_speak(transcript, args, config)?;
    let model = match &args.model {
        Some(m) => m.clone(),
        None => config.defaults.model.clone(),
    };
    let requested = match &args.voice {
        Some(v) => Some(v.as_str()),
        None => None,
    };
    let voice = resolve_voice(requested, config.defaults.voice.as_str())?;
    let (_source, api_key) = require_api_key(config, env_key)?;
    let format = requested_format(args.format, config.defaults.audio_format, args.out.as_str());
    Ok(SpeakPlan { build, model, voice, api_key, format })
}

} // verus!

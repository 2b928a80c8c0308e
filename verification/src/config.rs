//! Configuration: compiled defaults, the API key rules, secret masking, and
//! reading and changing settings by key.
//!
//! Where the configuration comes from (the TOML file and `GEMINI_TTS_*`
//! environment variables) and where it is written are the caller's
//! business; the caller hands the library the loaded configuration and the
//! values of the API-key environment variables.

use vstd::prelude::*;
use crate::catalog::{canonical_voice, canonical_voice_name, unsupported_voice, unsupported_voice_message};
use crate::cli::{AudioFormat, format_name};
use crate::error::AppError;
use crate::json::JsonValue;
use crate::text::{
    trim, trim_chars, trim_str, to_chars, from_chars, owned, push_str, str_eq, lower, lower_chars,
    chars_eq, parse_unsigned, parse_unsigned_spec, parse_bool, parse_bool_spec,
    lemma_trim_idempotent,
};

verus! {

/// Prefix of the environment variables that override configuration.
pub const ENV_PREFIX: &'static str = "GEMINI_TTS_";

/// The environment variables consulted for an API key, in order.
pub open spec fn api_key_env_vars() -> Seq<Seq<char>> {
    seq!["GEMINI_API_KEY"@, "GOOGLE_API_KEY"@, "GOOGLE_AI_API_KEY"@]
}

/// The whole configuration.
pub struct AppConfig {
    pub keys: KeysConfig,
    pub defaults: DefaultsConfig,
    pub prompt: PromptConfig,
    pub update: UpdateConfig,
}

/// Credentials.
pub struct KeysConfig {
    pub api_key: String,
}

/// Generation defaults.
pub struct DefaultsConfig {
    pub model: String,
    pub voice: String,
    pub audio_format: AudioFormat,
    pub sample_rate: u32,
    pub channels: u16,
    pub timeout_seconds: u64,
}

/// Default prompt direction.
pub struct PromptConfig {
    pub profile: String,
    pub scene: String,
    pub style: String,
    pub pace: String,
    pub accent: String,
    pub language: String,
}

/// Update check settings.
pub struct UpdateConfig {
    pub enabled: bool,
    pub owner: String,
    pub repo: String,
}

/// The configuration as shown to users, with the key masked.
pub struct PublicConfig {
    pub keys: PublicKeysConfig,
    pub defaults: DefaultsConfig,
    pub prompt: PromptConfig,
    pub update: UpdateConfig,
    pub config_path: String,
    pub env_prefix: &'static str,
}

/// The masked key and where it came from.
pub struct PublicKeysConfig {
    pub api_key: String,
    pub api_key_source: String,
}

/// Every setting of a configuration, as plain values.
pub struct ConfigView {
    pub api_key: Seq<char>,
    pub model: Seq<char>,
    pub voice: Seq<char>,
    pub audio_format: AudioFormat,
    pub sample_rate: u32,
    pub channels: u16,
    pub timeout_seconds: u64,
    pub profile: Seq<char>,
    pub scene: Seq<char>,
    pub style: Seq<char>,
    pub pace: Seq<char>,
    pub accent: Seq<char>,
    pub language: Seq<char>,
    pub update_enabled: bool,
    pub update_owner: Seq<char>,
    pub update_repo: Seq<char>,
}

impl View for AppConfig {
    type V = ConfigView;

    open spec fn view(&self) -> ConfigView {
        ConfigView {
            api_key: self.keys.api_key@,
            model: self.defaults.model@,
            voice: self.defaults.voice@,
            audio_format: self.defaults.audio_format,
            sample_rate: self.defaults.sample_rate,
            channels: self.defaults.channels,
            timeout_seconds: self.defaults.timeout_seconds,
            profile: self.prompt.profile@,
            scene: self.prompt.scene@,
            style: self.prompt.style@,
            pace: self.prompt.pace@,
            accent: self.prompt.accent@,
            language: self.prompt.language@,
            update_enabled: self.update.enabled,
            update_owner: self.update.owner@,
            update_repo: self.update.repo@,
        }
    }
}

/// The compiled defaults.
pub open spec fn default_view() -> ConfigView {
    ConfigView {
        api_key: Seq::empty(),
        model: "gemini-3.1-flash-tts-preview"@,
        voice: "Kore"@,
        audio_format: AudioFormat::Wav,
        sample_rate: 24000,
        channels: 1,
        timeout_seconds: 90,
        profile: "Clear, useful narrator"@,
        scene: "A clean studio recording for direct listener comprehension."@,
        style: "Natural, expressive, and precise. Do not overact."@,
        pace: "Medium pace with deliberate pauses where tags or punctuation indicate them."@,
        accent: "Neutral unless the transcript or command specifies otherwise."@,
        language: "Use the transcript language unless specified otherwise."@,
        update_enabled: true,
        update_owner: "paperfoot"@,
        update_repo: "gemini-tts-cli"@,
    }
}

fn default_model() -> (r: String)
    ensures
        r@ == default_view().model,
{
    owned("gemini-3.1-flash-tts-preview")
}

fn default_voice() -> (r: String)
    ensures
        r@ == default_view().voice,
{
    owned("Kore")
}

fn default_audio_format() -> (r: AudioFormat)
    ensures
        r == default_view().audio_format,
{
    AudioFormat::Wav
}

fn default_sample_rate() -> (r: u32)
    ensures
        r == default_view().sample_rate,
{
    24_000
}

fn default_channels() -> (r: u16)
    ensures
        r == default_view().channels,
{
    1
}

fn default_timeout_seconds() -> (r: u64)
    ensures
        r == default_view().timeout_seconds,
{
    90
}

fn default_profile() -> (r: String)
    ensures
        r@ == default_view().profile,
{
    owned("Clear, useful narrator")
}

fn default_scene() -> (r: String)
    ensures
        r@ == default_view().scene,
{
    owned("A clean studio recording for direct listener comprehension.")
}

fn default_style() -> (r: String)
    ensures
        r@ == default_view().style,
{
    owned("Natural, expressive, and precise. Do not overact.")
}

fn default_pace() -> (r: String)
    ensures
        r@ == default_view().pace,
{
    owned("Medium pace with deliberate pauses where tags or punctuation indicate them.")
}

fn default_accent() -> (r: String)
    ensures
        r@ == default_view().accent,
{
    owned("Neutral unless the transcript or command specifies otherwise.")
}

fn default_language() -> (r: String)
    ensures
        r@ == default_view().language,
{
    owned("Use the transcript language unless specified otherwise.")
}

fn default_true() -> (r: bool)
    ensures
        r == default_view().update_enabled,
{
    true
}

fn default_update_owner() -> (r: String)
    ensures
        r@ == default_view().update_owner,
{
    owned("paperfoot")
}

fn default_update_repo() -> (r: String)
    ensures
        r@ == default_view().update_repo,
{
    owned("gemini-tts-cli")
}

impl Default for KeysConfig {
    fn default() -> (r: Self)
        ensures
            r.api_key@ == Seq::<char>::empty(),
    {
        KeysConfig { api_key: String::new() }
    }
}

impl Default for DefaultsConfig {
    fn default() -> (r: Self)
        ensures
            r.model@ == default_view().model,
            r.voice@ == default_view().voice,
            r.audio_format == default_view().audio_format,
            r.sample_rate == default_view().sample_rate,
            r.channels == default_view().channels,
            r.timeout_seconds == default_view().timeout_seconds,
    {
        DefaultsConfig {
            model: default_model(),
            voice: default_voice(),
            audio_format: default_audio_format(),
            sample_rate: default_sample_rate(),
            channels: default_channels(),
            timeout_seconds: default_timeout_seconds(),
        }
    }
}

impl Default for PromptConfig {
    fn default() -> (r: Self)
        ensures
            r.profile@ == default_view().profile,
            r.scene@ == default_view().scene,
            r.style@ == default_view().style,
            r.pace@ == default_view().pace,
            r.accent@ == default_view().accent,
            r.language@ == default_view().language,
    {
        PromptConfig {
            profile: default_profile(),
            scene: default_scene(),
            style: default_style(),
            pace: default_pace(),
            accent: default_accent(),
            language: default_language(),
        }
    }
}

impl Default for UpdateConfig {
    fn default() -> (r: Self)
        ensures
            r.enabled == default_view().update_enabled,
            r.owner@ == default_view().update_owner,
            r.repo@ == default_view().update_repo,
    {
        UpdateConfig { enabled: default_true(), owner: default_update_owner(), repo: default_update_repo() }
    }
}

impl Default for AppConfig {
    fn default() -> (r: Self)
        ensures
            r@ == default_view(),
    {
        AppConfig {
            keys: KeysConfig::default(),
            defaults: DefaultsConfig::default(),
            prompt: PromptConfig::default(),
            update: UpdateConfig::default(),
        }
    }
}

impl DefaultsConfig {
    /// An equal copy.
    pub fn duplicate(&self) -> (r: Self)
        ensures
            r == *self,
    {
        DefaultsConfig {
            model: self.model.clone(),
            voice: self.voice.clone(),
            audio_format: self.audio_format,
            sample_rate: self.sample_rate,
            channels: self.channels,
            timeout_seconds: self.timeout_seconds,
        }
    }
}

impl PromptConfig {
    /// An equal copy.
    pub fn duplicate(&self) -> (r: Self)
        ensures
            r == *self,
    {
        PromptConfig {
            profile: self.profile.clone(),
            scene: self.scene.clone(),
            style: self.style.clone(),
            pace: self.pace.clone(),
            accent: self.accent.clone(),
            language: self.language.clone(),
        }
    }
}

impl UpdateConfig {
    /// An equal copy.
    pub fn duplicate(&self) -> (r: Self)
        ensures
            r == *self,
    {
        UpdateConfig { enabled: self.enabled, owner: self.owner.clone(), repo: self.repo.clone() }
    }
}


// ---------------------------------------------------------------------------
// Paths
// ---------------------------------------------------------------------------

/// `dir` joined with a relative `name`, as `Path::join` does: a separator is
/// added unless `dir` is empty or already ends with one.
pub open spec fn path_join(dir: Seq<char>, name: Seq<char>) -> Seq<char> {
    if dir.len() == 0 || dir.last() == '/' {
        dir + name
    } else {
        dir + "/"@ + name
    }
}

/// Joins a relative path onto a directory.
pub fn join_path(dir: &str, name: &str) -> (r: String)
    ensures
        r@ == path_join(dir@, name@),
{
    let d = to_chars(dir);
    let mut r = owned(dir);
    if d.len() > 0 && d[d.len() - 1] != '/' {
        push_str(&mut r, "/");
    }
    push_str(&mut r, name);
    r
}

/// `sub` joined component by component under `base`.
pub open spec fn under(base: Seq<char>, sub: Seq<Seq<char>>) -> Seq<char>
    decreases sub.len(),
{
    if sub.len() == 0 {
        base
    } else {
        path_join(under(base, sub.drop_last()), sub.last())
    }
}

/// The directory selected by an override variable, or else `sub` under the
/// home directory (`.` when no home is known).
pub open spec fn dir_from(override_dir: Option<Seq<char>>, home: Option<Seq<char>>, sub: Seq<
    Seq<char>,
>) -> Seq<char> {
    match override_dir {
        Some(d) => d,
        None => under(
            match home {
                Some(h) => h,
                None => "."@,
            },
            sub,
        ),
    }
}

fn opt_view(o: Option<&str>) -> (r: Ghost<Option<Seq<char>>>)
    ensures
        r@ == (match o {
            Some(s) => Some(s@),
            None => None::<Seq<char>>,
        }),
{
    Ghost(
        match o {
            Some(s) => Some(s@),
            None => None,
        },
    )
}

/// The spec view of an optional string slice.
pub open spec fn opt_str(o: Option<&str>) -> Option<Seq<char>> {
    match o {
        Some(s) => Some(s@),
        None => None,
    }
}

fn home_or_dot(home: Option<&str>) -> (r: String)
    ensures
        r@ == (match opt_str(home) {
            Some(h) => h,
            None => "."@,
        }),
{
    match home {
        Some(h) => owned(h),
        None => owned("."),
    }
}

/// The configuration directory: `GEMINI_TTS_CONFIG_DIR` when set, otherwise
/// `.config/gemtts` under the home directory.
pub fn config_dir_from(override_dir: Option<&str>, home: Option<&str>) -> (r: String)
    ensures
        r@ == dir_from(opt_str(override_dir), opt_str(home), seq![".config"@, "gemtts"@]),
{
    match override_dir {
        Some(d) => owned(d),
        None => {
            let h = home_or_dot(home);
            let a = join_path(h.as_str(), ".config");
            let r = join_path(a.as_str(), "gemtts");
            assert(seq![".config"@, "gemtts"@].drop_last() =~= seq![".config"@]);
            assert(seq![".config"@].drop_last() =~= Seq::<Seq<char>>::empty());
            reveal_with_fuel(under, 3);
            r
        },
    }
}

/// The state directory: `GEMINI_TTS_STATE_DIR` when set, otherwise
/// `.local/share/gemtts` under the home directory.
pub fn state_dir_from(override_dir: Option<&str>, home: Option<&str>) -> (r: String)
    ensures
        r@ == dir_from(opt_str(override_dir), opt_str(home), seq![".local"@, "share"@, "gemtts"@]),
{
    match override_dir {
        Some(d) => owned(d),
        None => {
            let h = home_or_dot(home);
            let a = join_path(h.as_str(), ".local");
            let b = join_path(a.as_str(), "share");
            let r = join_path(b.as_str(), "gemtts");
            assert(seq![".local"@, "share"@, "gemtts"@].drop_last() =~= seq![".local"@, "share"@]);
            assert(seq![".local"@, "share"@].drop_last() =~= seq![".local"@]);
            assert(seq![".local"@].drop_last() =~= Seq::<Seq<char>>::empty());
            reveal_with_fuel(under, 4);
            r
        },
    }
}

/// The cache directory: `GEMINI_TTS_CACHE_DIR` when set, otherwise
/// `.cache/gemtts` under the home directory.
pub fn cache_dir_from(override_dir: Option<&str>, home: Option<&str>) -> (r: String)
    ensures
        r@ == dir_from(opt_str(override_dir), opt_str(home), seq![".cache"@, "gemtts"@]),
{
    match override_dir {
        Some(d) => owned(d),
        None => {
            let h = home_or_dot(home);
            let a = join_path(h.as_str(), ".cache");
            let r = join_path(a.as_str(), "gemtts");
            assert(seq![".cache"@, "gemtts"@].drop_last() =~= seq![".cache"@]);
            assert(seq![".cache"@].drop_last() =~= Seq::<Seq<char>>::empty());
            reveal_with_fuel(under, 3);
            r
        },
    }
}

/// The configuration file inside the configuration directory.
pub fn config_path(config_dir: &str) -> (r: String)
    ensures
        r@ == path_join(config_dir@, "config.toml"@),
{
    join_path(config_dir, "config.toml")
}

/// Whether a configuration file must be created: a default configuration
/// to write when none exists yet, nothing when one exists.
pub fn init_if_missing(exists: bool) -> (r: Option<AppConfig>)
    ensures
        exists ==> r is None,
        !exists ==> (r matches Some(c) && c@ == default_view()),
{
    if exists {
        None
    } else {
        Some(AppConfig::default())
    }
}

// ---------------------------------------------------------------------------
// API key
// ---------------------------------------------------------------------------

/// The first API-key variable with a non-blank value, with that value trimmed.
pub open spec fn env_key_spec(values: Seq<Option<Seq<char>>>) -> Option<(Seq<char>, Seq<char>)>
    decreases values.len(),
{
    if values.len() == 0 {
        None
    } else {
        let rest = env_key_spec(values.drop_last());
        match rest {
            Some(found) => Some(found),
            None => match values.last() {
                Some(v) => if trim(v).len() > 0 {
                    Some((api_key_env_vars()[values.len() - 1], trim(v)))
                } else {
                    None
                },
                None => None,
            },
        }
    }
}

/// The spec view of an environment-provided key.
pub open spec fn env_key_view(e: Option<(&'static str, String)>) -> Option<(Seq<char>, Seq<char>)> {
    match e {
        Some((name, key)) => Some((name@, key@)),
        None => None,
    }
}

fn check_env_value(name: &'static str, value: Option<&str>) -> (r: Option<(&'static str, String)>)
    ensures
        match value {
            Some(v) => if trim(v@).len() > 0 {
                r matches Some((n, k)) && n == name && k@ == trim(v@)
            } else {
                r is None
            },
            None => r is None,
        },
{
    match value {
        Some(v) => {
            let t = trim_str(v);
            if to_chars(t.as_str()).len() > 0 {
                Some((name, t))
            } else {
                None
            }
        },
        None => None,
    }
}

/// Picks the API key from the values of `GEMINI_API_KEY`, `GOOGLE_API_KEY`
/// and `GOOGLE_AI_API_KEY`: the first that is not blank, trimmed, with the
/// variable's name.
pub fn api_key_from_env_values(gemini: Option<&str>, google: Option<&str>, google_ai: Option<&str>) -> (r: Option<(&'static str, String)>)
    ensures
        env_key_view(r) == env_key_spec(seq![opt_str(gemini), opt_str(google), opt_str(google_ai)]),
{
    let ghost vals = seq![opt_str(gemini), opt_str(google), opt_str(google_ai)];
    proof {
        assert(vals.drop_last() =~= seq![opt_str(gemini), opt_str(google)]);
        assert(vals.drop_last().drop_last() =~= seq![opt_str(gemini)]);
        assert(vals.drop_last().drop_last().drop_last() =~= Seq::<Option<Seq<char>>>::empty());
        reveal_with_fuel(env_key_spec, 4);
    }
    let a = check_env_value("GEMINI_API_KEY", gemini);
    if a.is_some() {
        return a;
    }
    let b = check_env_value("GOOGLE_API_KEY", google);
    if b.is_some() {
        return b;
    }
    check_env_value("GOOGLE_AI_API_KEY", google_ai)
}

/// The API key in effect and its source: the environment's key when there is
/// one, otherwise the trimmed configured key when it is not blank.
pub open spec fn api_key_spec(c: ConfigView, env: Option<(Seq<char>, Seq<char>)>) -> Option<(Seq<char>, Seq<char>)> {
    match env {
        Some(e) => Some(e),
        None => if trim(c.api_key).len() > 0 {
            Some(("config"@, trim(c.api_key)))
        } else {
            None
        },
    }
}

/// The spec view of a key and its source.
pub open spec fn key_pair_view(p: Option<(String, String)>) -> Option<(Seq<char>, Seq<char>)> {
    match p {
        Some((s, k)) => Some((s@, k@)),
        None => None,
    }
}

/// The API key in effect, with its source (`config` or the variable name).
pub fn api_key(config: &AppConfig, env_key: Option<(&'static str, String)>) -> (r: Option<(String, String)>)
    ensures
        key_pair_view(r) == api_key_spec(config@, env_key_view(env_key)),
{
    match env_key {
        Some((source, key)) => Some((owned(source), key)),
        None => {
            let t = trim_str(config.keys.api_key.as_str());
            if to_chars(t.as_str()).len() > 0 {
                Some((owned("config"), t))
            } else {
                None
            }
        },
    }
}

/// The API key in effect, or a configuration error explaining how to set one.
pub fn require_api_key(config: &AppConfig, env_key: Option<(&'static str, String)>) -> (r: Result<(String, String), AppError>)
    ensures
        match api_key_spec(config@, env_key_view(env_key)) {
            Some((s, k)) => r matches Ok((rs, rk)) && rs@ == s && rk@ == k,
            None => r matches Err(AppError::Config(m)) && m@
                == "missing Gemini API key. Set GEMINI_API_KEY or run gemtts auth set --api-key <key>"@,
        },
{
    match api_key(config, env_key) {
        Some(p) => Ok(p),
        None => Err(AppError::Config(owned("missing Gemini API key. Set GEMINI_API_KEY or run gemtts auth set --api-key <key>"))),
    }
}

// ---------------------------------------------------------------------------
// Secret masking
// ---------------------------------------------------------------------------

/// A secret as it may be shown: `not_set` when blank, all `*` when it has at
/// most 8 characters, otherwise its first and last 4 characters around `...`.
pub open spec fn mask(value: Seq<char>) -> Seq<char> {
    let v = trim(value);
    if v.len() == 0 {
        "not_set"@
    } else if v.len() <= 8 {
        Seq::new(v.len(), |i: int| '*')
    } else {
        v.take(4) + "..."@ + v.skip(v.len() - 4)
    }
}

/// Masks a secret for display.
pub fn mask_secret(value: &str) -> (r: String)
    ensures
        r@ == mask(value@),
{
    let chars = trim_chars(&to_chars(value));
    let n = chars.len();
    if n == 0 {
        return owned("not_set");
    }
    if n <= 8 {
        let mut stars: Vec<char> = Vec::new();
        let mut i: usize = 0;
        while i < n
            invariant
                i <= n,
                stars@ == Seq::new(i as nat, |j: int| '*'),
            decreases n - i,
        {
            stars.push('*');
            assert(stars@ =~= Seq::new((i + 1) as nat, |j: int| '*'));
            i = i + 1;
        }
        return from_chars(&stars);
    }
    let mut r = crate::text::from_char_range(&chars, 0, 4);
    push_str(&mut r, "...");
    let end = crate::text::from_char_range(&chars, n - 4, n);
    push_str(&mut r, end.as_str());
    assert(chars@.subrange(0, 4) =~= chars@.take(4));
    assert(chars@.subrange(n - 4, n as int) =~= chars@.skip(n - 4));
    r
}

/// A masked secret never shows more than 8 of its characters and is at most
/// 11 characters long.
pub proof fn masked_secret_is_short(value: Seq<char>)
    ensures
        mask(value).len() <= 11,
{
    reveal_strlit("not_set");
    reveal_strlit("...");
}

// ---------------------------------------------------------------------------
// Public view
// ---------------------------------------------------------------------------

/// The configuration to show: settings as they are, the key masked, its
/// source (`none` without a key), the config path and the variable prefix.
pub fn public_config(config: &AppConfig, env_key: Option<(&'static str, String)>, config_path: &str) -> (r: PublicConfig)
    ensures
        r.defaults == config.defaults,
        r.prompt == config.prompt,
        r.update == config.update,
        r.config_path@ == config_path@,
        r.env_prefix@ == ENV_PREFIX@,
        match api_key_spec(config@, env_key_view(env_key)) {
            Some((s, k)) => r.keys.api_key_source@ == s && r.keys.api_key@ == mask(k),
            None => r.keys.api_key_source@ == "none"@ && r.keys.api_key@ == mask(Seq::empty()),
        },
{
    let (source, key) = match api_key(config, env_key) {
        Some(p) => p,
        None => (owned("none"), String::new()),
    };
    PublicConfig {
        keys: PublicKeysConfig { api_key: mask_secret(key.as_str()), api_key_source: source },
        defaults: config.defaults.duplicate(),
        prompt: config.prompt.duplicate(),
        update: config.update.duplicate(),
        config_path: owned(config_path),
        env_prefix: ENV_PREFIX,
    }
}


// ---------------------------------------------------------------------------
// Settings by key
// ---------------------------------------------------------------------------

/// The audio format a config value names, case-insensitively; `aac` is an
/// alias of `m4a`.
pub open spec fn parse_format_spec(v: Seq<char>) -> Option<AudioFormat> {
    let l = lower(v);
    if l == "auto"@ {
        Some(AudioFormat::Auto)
    } else if l == "wav"@ {
        Some(AudioFormat::Wav)
    } else if l == "pcm"@ {
        Some(AudioFormat::Pcm)
    } else if l == "mp3"@ {
        Some(AudioFormat::Mp3)
    } else if l == "m4a"@ || l == "aac"@ {
        Some(AudioFormat::M4a)
    } else if l == "flac"@ {
        Some(AudioFormat::Flac)
    } else {
        None
    }
}

/// The message for an unknown audio format name.
pub open spec fn format_error_message(v: Seq<char>) -> Seq<char> {
    "unsupported audio format: "@ + v + ". Valid: auto, wav, pcm, mp3, m4a, flac"@
}

/// Reads an audio format name.
pub fn parse_audio_format(value: &str) -> (r: Result<AudioFormat, AppError>)
    ensures
        match parse_format_spec(value@) {
            Some(f) => r == Ok::<AudioFormat, AppError>(f),
            None => r matches Err(AppError::InvalidInput(m)) && m@ == format_error_message(value@),
        },
{
    let l = lower_chars(&to_chars(value));
    if chars_eq(&l, &to_chars("auto")) {
        Ok(AudioFormat::Auto)
    } else if chars_eq(&l, &to_chars("wav")) {
        Ok(AudioFormat::Wav)
    } else if chars_eq(&l, &to_chars("pcm")) {
        Ok(AudioFormat::Pcm)
    } else if chars_eq(&l, &to_chars("mp3")) {
        Ok(AudioFormat::Mp3)
    } else if chars_eq(&l, &to_chars("m4a")) || chars_eq(&l, &to_chars("aac")) {
        Ok(AudioFormat::M4a)
    } else if chars_eq(&l, &to_chars("flac")) {
        Ok(AudioFormat::Flac)
    } else {
        let mut m = owned("unsupported audio format: ");
        push_str(&mut m, value);
        push_str(&mut m, ". Valid: auto, wav, pcm, mp3, m4a, flac");
        Err(AppError::InvalidInput(m))
    }
}

/// A supported configuration key.
#[derive(Clone, Copy, Debug, PartialEq, Eq, Structural)]
pub enum ConfigKey {
    ApiKey,
    Model,
    Voice,
    Format,
    SampleRate,
    Channels,
    TimeoutSeconds,
    Profile,
    Scene,
    Style,
    Pace,
    Accent,
    Language,
    UpdateEnabled,
    UpdateOwner,
    UpdateRepo,
}

/// The setting a key path names; most settings also answer to their short name.
pub open spec fn key_of(k: Seq<char>) -> Option<ConfigKey> {
    if k == "keys.api_key"@ || k == "api_key"@ {
        Some(ConfigKey::ApiKey)
    } else if k == "defaults.model"@ || k == "model"@ {
        Some(ConfigKey::Model)
    } else if k == "defaults.voice"@ || k == "voice"@ {
        Some(ConfigKey::Voice)
    } else if k == "defaults.audio_format"@ || k == "audio_format"@ || k == "format"@ {
        Some(ConfigKey::Format)
    } else if k == "defaults.sample_rate"@ || k == "sample_rate"@ {
        Some(ConfigKey::SampleRate)
    } else if k == "defaults.channels"@ || k == "channels"@ {
        Some(ConfigKey::Channels)
    } else if k == "defaults.timeout_seconds"@ || k == "timeout_seconds"@ {
        Some(ConfigKey::TimeoutSeconds)
    } else if k == "prompt.profile"@ || k == "profile"@ {
        Some(ConfigKey::Profile)
    } else if k == "prompt.scene"@ || k == "scene"@ {
        Some(ConfigKey::Scene)
    } else if k == "prompt.style"@ || k == "style"@ {
        Some(ConfigKey::Style)
    } else if k == "prompt.pace"@ || k == "pace"@ {
        Some(ConfigKey::Pace)
    } else if k == "prompt.accent"@ || k == "accent"@ {
        Some(ConfigKey::Accent)
    } else if k == "prompt.language"@ || k == "language"@ {
        Some(ConfigKey::Language)
    } else if k == "update.enabled"@ {
        Some(ConfigKey::UpdateEnabled)
    } else if k == "update.owner"@ {
        Some(ConfigKey::UpdateOwner)
    } else if k == "update.repo"@ {
        Some(ConfigKey::UpdateRepo)
    } else {
        None
    }
}

/// Recognises a configuration key path.
pub fn parse_config_key(key: &str) -> (r: Option<ConfigKey>)
    ensures
        r == key_of(key@),
{
    if str_eq(key, "keys.api_key") || str_eq(key, "api_key") {
        Some(ConfigKey::ApiKey)
    } else if str_eq(key, "defaults.model") || str_eq(key, "model") {
        Some(ConfigKey::Model)
    } else if str_eq(key, "defaults.voice") || str_eq(key, "voice") {
        Some(ConfigKey::Voice)
    } else if str_eq(key, "defaults.audio_format") || str_eq(key, "audio_format") || str_eq(key, "format") {
        Some(ConfigKey::Format)
    } else if str_eq(key, "defaults.sample_rate") || str_eq(key, "sample_rate") {
        Some(ConfigKey::SampleRate)
    } else if str_eq(key, "defaults.channels") || str_eq(key, "channels") {
        Some(ConfigKey::Channels)
    } else if str_eq(key, "defaults.timeout_seconds") || str_eq(key, "timeout_seconds") {
        Some(ConfigKey::TimeoutSeconds)
    } else if str_eq(key, "prompt.profile") || str_eq(key, "profile") {
        Some(ConfigKey::Profile)
    } else if str_eq(key, "prompt.scene") || str_eq(key, "scene") {
        Some(ConfigKey::Scene)
    } else if str_eq(key, "prompt.style") || str_eq(key, "style") {
        Some(ConfigKey::Style)
    } else if str_eq(key, "prompt.pace") || str_eq(key, "pace") {
        Some(ConfigKey::Pace)
    } else if str_eq(key, "prompt.accent") || str_eq(key, "accent") {
        Some(ConfigKey::Accent)
    } else if str_eq(key, "prompt.language") || str_eq(key, "language") {
        Some(ConfigKey::Language)
    } else if str_eq(key, "update.enabled") {
        Some(ConfigKey::UpdateEnabled)
    } else if str_eq(key, "update.owner") {
        Some(ConfigKey::UpdateOwner)
    } else if str_eq(key, "update.repo") {
        Some(ConfigKey::UpdateRepo)
    } else {
        None
    }
}

/// The error for a key that is not a setting.
pub open spec fn unsupported_key_message(key: Seq<char>) -> Seq<char> {
    "unsupported config key: "@ + key
}

fn unsupported_key(key: &str) -> (r: AppError)
    ensures
        r matches AppError::InvalidInput(m) && m@ == unsupported_key_message(key@),
{
    let mut m = owned("unsupported config key: ");
    push_str(&mut m, key);
    AppError::InvalidInput(m)
}

/// The configuration after storing the (already trimmed) value `v` under
/// setting `k`, or the message explaining why `v` is not acceptable.
pub open spec fn set_field(c: ConfigView, k: ConfigKey, v: Seq<char>) -> Result<ConfigView, Seq<char>> {
    match k {
        ConfigKey::ApiKey => Ok(ConfigView { api_key: v, ..c }),
        ConfigKey::Model => Ok(ConfigView { model: v, ..c }),
        ConfigKey::Voice => match canonical_voice(v) {
            Some(name) => Ok(ConfigView { voice: name@, ..c }),
            None => Err(unsupported_voice_message(v)),
        },
        ConfigKey::Format => match parse_format_spec(v) {
            Some(f) => Ok(ConfigView { audio_format: f, ..c }),
            None => Err(format_error_message(v)),
        },
        ConfigKey::SampleRate => match parse_unsigned_spec(v, u32::MAX as nat) {
            Some(n) => Ok(ConfigView { sample_rate: n as u32, ..c }),
            None => Err("sample_rate must be an integer"@),
        },
        ConfigKey::Channels => match parse_unsigned_spec(v, u16::MAX as nat) {
            Some(n) => Ok(ConfigView { channels: n as u16, ..c }),
            None => Err("channels must be an integer"@),
        },
        ConfigKey::TimeoutSeconds => match parse_unsigned_spec(v, u64::MAX as nat) {
            Some(n) => Ok(ConfigView { timeout_seconds: n as u64, ..c }),
            None => Err("timeout_seconds must be an integer"@),
        },
        ConfigKey::Profile => Ok(ConfigView { profile: v, ..c }),
        ConfigKey::Scene => Ok(ConfigView { scene: v, ..c }),
        ConfigKey::Style => Ok(ConfigView { style: v, ..c }),
        ConfigKey::Pace => Ok(ConfigView { pace: v, ..c }),
        ConfigKey::Accent => Ok(ConfigView { accent: v, ..c }),
        ConfigKey::Language => Ok(ConfigView { language: v, ..c }),
        ConfigKey::UpdateEnabled => match parse_bool_spec(v) {
            Some(b) => Ok(ConfigView { update_enabled: b, ..c }),
            None => Err("update.enabled must be true or false"@),
        },
        ConfigKey::UpdateOwner => Ok(ConfigView { update_owner: v, ..c }),
        ConfigKey::UpdateRepo => Ok(ConfigView { update_repo: v, ..c }),
    }
}

/// The outcome of setting `key` to `value` in `c`: the value is trimmed,
/// unknown keys and unacceptable values are invalid input.
pub open spec fn set_outcome(c: ConfigView, key: Seq<char>, value: Seq<char>) -> Result<ConfigView, Seq<char>> {
    match key_of(key) {
        None => Err(unsupported_key_message(key)),
        Some(k) => set_field(c, k, trim(value)),
    }
}

/// Changes one setting. The caller loads the configuration before and
/// writes the result back after.
pub fn set_value(config: AppConfig, key: &str, value: &str) -> (r: Result<AppConfig, AppError>)
    ensures
        match set_outcome(config@, key@, value@) {
            Ok(v) => r matches Ok(c) && c@ == v,
            Err(msg) => r matches Err(AppError::InvalidInput(m)) && m@ == msg,
        },
{
    let mut config = config;
    let value = trim_str(value);
    let vc = to_chars(value.as_str());
    let k = match parse_config_key(key) {
        Some(k) => k,
        None => {
            return Err(unsupported_key(key));
        },
    };
    match k {
        ConfigKey::ApiKey => {
            config.keys.api_key = value;
        },
        ConfigKey::Model => {
            config.defaults.model = value;
        },
        ConfigKey::Voice => {
            match canonical_voice_name(value.as_str()) {
                Some(name) => {
                    config.defaults.voice = owned(name);
                },
                None => {
                    return Err(unsupported_voice(value.as_str()));
                },
            }
        },
        ConfigKey::Format => {
            config.defaults.audio_format = parse_audio_format(value.as_str())?;
        },
        ConfigKey::SampleRate => {
            match parse_unsigned(&vc, 0xffff_ffff) {
                Some(n) => {
                    config.defaults.sample_rate = n as u32;
                },
                None => {
                    return Err(AppError::InvalidInput(owned("sample_rate must be an integer")));
                },
            }
        },
        ConfigKey::Channels => {
            match parse_unsigned(&vc, 0xffff) {
                Some(n) => {
                    config.defaults.channels = n as u16;
                },
                None => {
                    return Err(AppError::InvalidInput(owned("channels must be an integer")));
                },
            }
        },
        ConfigKey::TimeoutSeconds => {
            match parse_unsigned(&vc, 0xffff_ffff_ffff_ffff) {
                Some(n) => {
                    config.defaults.timeout_seconds = n;
                },
                None => {
                    return Err(AppError::InvalidInput(owned("timeout_seconds must be an integer")));
                },
            }
        },
        ConfigKey::Profile => {
            config.prompt.profile = value;
        },
        ConfigKey::Scene => {
            config.prompt.scene = value;
        },
        ConfigKey::Style => {
            config.prompt.style = value;
        },
        ConfigKey::Pace => {
            config.prompt.pace = value;
        },
        ConfigKey::Accent => {
            config.prompt.accent = value;
        },
        ConfigKey::Language => {
            config.prompt.language = value;
        },
        ConfigKey::UpdateEnabled => {
            match parse_bool(&vc) {
                Some(b) => {
                    config.update.enabled = b;
                },
                None => {
                    return Err(AppError::InvalidInput(owned("update.enabled must be true or false")));
                },
            }
        },
        ConfigKey::UpdateOwner => {
            config.update.owner = value;
        },
        ConfigKey::UpdateRepo => {
            config.update.repo = value;
        },
    }
    Ok(config)
}

/// The value of a setting as reported to users.
pub enum Setting {
    Text(Seq<char>),
    Number(u64),
    Flag(bool),
}

/// What reading setting `k` reports: the masked key in effect for the API
/// key, the format's name for the format, the stored value otherwise.
pub open spec fn setting_of(c: ConfigView, env: Option<(Seq<char>, Seq<char>)>, k: ConfigKey) -> Setting {
    match k {
        ConfigKey::ApiKey => Setting::Text(mask(match api_key_spec(c, env) {
            Some((_, key)) => key,
            None => Seq::empty(),
        })),
        ConfigKey::Model => Setting::Text(c.model),
        ConfigKey::Voice => Setting::Text(c.voice),
        ConfigKey::Format => Setting::Text(format_name(c.audio_format)),
        ConfigKey::SampleRate => Setting::Number(c.sample_rate as u64),
        ConfigKey::Channels => Setting::Number(c.channels as u64),
        ConfigKey::TimeoutSeconds => Setting::Number(c.timeout_seconds),
        ConfigKey::Profile => Setting::Text(c.profile),
        ConfigKey::Scene => Setting::Text(c.scene),
        ConfigKey::Style => Setting::Text(c.style),
        ConfigKey::Pace => Setting::Text(c.pace),
        ConfigKey::Accent => Setting::Text(c.accent),
        ConfigKey::Language => Setting::Text(c.language),
        ConfigKey::UpdateEnabled => Setting::Flag(c.update_enabled),
        ConfigKey::UpdateOwner => Setting::Text(c.update_owner),
        ConfigKey::UpdateRepo => Setting::Text(c.update_repo),
    }
}

/// The setting a JSON value carries.
pub open spec fn json_setting(j: JsonValue) -> Option<Setting> {
    match j {
        JsonValue::Str(s) => Some(Setting::Text(s@)),
        JsonValue::Number(n) => Some(Setting::Number(n)),
        JsonValue::Bool(b) => Some(Setting::Flag(b)),
        _ => None,
    }
}

/// Reads one setting, masking the API key.
pub fn get_value(config: &AppConfig, env_key: Option<(&'static str, String)>, key: &str) -> (r: Result<JsonValue, AppError>)
    ensures
        match key_of(key@) {
            None => r matches Err(AppError::InvalidInput(m)) && m@ == unsupported_key_message(key@),
            Some(k) => r matches Ok(j) && json_setting(j) == Some(setting_of(config@, env_key_view(env_key), k)),
        },
{
    let k = match parse_config_key(key) {
        Some(k) => k,
        None => {
            return Err(unsupported_key(key));
        },
    };
    let v = match k {
        ConfigKey::ApiKey => {
            let key_text = match api_key(config, env_key) {
                Some((_, key)) => key,
                None => String::new(),
            };
            JsonValue::Str(mask_secret(key_text.as_str()))
        },
        ConfigKey::Model => JsonValue::Str(config.defaults.model.clone()),
        ConfigKey::Voice => JsonValue::Str(config.defaults.voice.clone()),
        ConfigKey::Format => JsonValue::Str(owned(config.defaults.audio_format.as_str())),
        ConfigKey::SampleRate => JsonValue::Number(config.defaults.sample_rate as u64),
        ConfigKey::Channels => JsonValue::Number(config.defaults.channels as u64),
        ConfigKey::TimeoutSeconds => JsonValue::Number(config.defaults.timeout_seconds),
        ConfigKey::Profile => JsonValue::Str(config.prompt.profile.clone()),
        ConfigKey::Scene => JsonValue::Str(config.prompt.scene.clone()),
        ConfigKey::Style => JsonValue::Str(config.prompt.style.clone()),
        ConfigKey::Pace => JsonValue::Str(config.prompt.pace.clone()),
        ConfigKey::Accent => JsonValue::Str(config.prompt.accent.clone()),
        ConfigKey::Language => JsonValue::Str(config.prompt.language.clone()),
        ConfigKey::UpdateEnabled => JsonValue::Bool(config.update.enabled),
        ConfigKey::UpdateOwner => JsonValue::Str(config.update.owner.clone()),
        ConfigKey::UpdateRepo => JsonValue::Str(config.update.repo.clone()),
    };
    Ok(v)
}


// ---------------------------------------------------------------------------
// Laws
// ---------------------------------------------------------------------------

/// Every documented key path and alias names its own setting.
pub proof fn key_paths_name_their_settings()
    ensures
        key_of("keys.api_key"@) == Some(ConfigKey::ApiKey),
        key_of("api_key"@) == Some(ConfigKey::ApiKey),
        key_of("defaults.model"@) == Some(ConfigKey::Model),
        key_of("model"@) == Some(ConfigKey::Model),
        key_of("defaults.voice"@) == Some(ConfigKey::Voice),
        key_of("voice"@) == Some(ConfigKey::Voice),
        key_of("defaults.audio_format"@) == Some(ConfigKey::Format),
        key_of("audio_format"@) == Some(ConfigKey::Format),
        key_of("format"@) == Some(ConfigKey::Format),
        key_of("defaults.sample_rate"@) == Some(ConfigKey::SampleRate),
        key_of("sample_rate"@) == Some(ConfigKey::SampleRate),
        key_of("defaults.channels"@) == Some(ConfigKey::Channels),
        key_of("channels"@) == Some(ConfigKey::Channels),
        key_of("defaults.timeout_seconds"@) == Some(ConfigKey::TimeoutSeconds),
        key_of("timeout_seconds"@) == Some(ConfigKey::TimeoutSeconds),
        key_of("prompt.profile"@) == Some(ConfigKey::Profile),
        key_of("profile"@) == Some(ConfigKey::Profile),
        key_of("prompt.scene"@) == Some(ConfigKey::Scene),
        key_of("scene"@) == Some(ConfigKey::Scene),
        key_of("prompt.style"@) == Some(ConfigKey::Style),
        key_of("style"@) == Some(ConfigKey::Style),
        key_of("prompt.pace"@) == Some(ConfigKey::Pace),
        key_of("pace"@) == Some(ConfigKey::Pace),
        key_of("prompt.accent"@) == Some(ConfigKey::Accent),
        key_of("accent"@) == Some(ConfigKey::Accent),
        key_of("prompt.language"@) == Some(ConfigKey::Language),
        key_of("language"@) == Some(ConfigKey::Language),
        key_of("update.enabled"@) == Some(ConfigKey::UpdateEnabled),
        key_of("update.owner"@) == Some(ConfigKey::UpdateOwner),
        key_of("update.repo"@) == Some(ConfigKey::UpdateRepo),
{
    reveal_strlit("keys.api_key");
    reveal_strlit("api_key");
    reveal_strlit("defaults.model");
    reveal_strlit("model");
    reveal_strlit("defaults.voice");
    reveal_strlit("voice");
    reveal_strlit("defaults.audio_format");
    reveal_strlit("audio_format");
    reveal_strlit("format");
    reveal_strlit("defaults.sample_rate");
    reveal_strlit("sample_rate");
    reveal_strlit("defaults.channels");
    reveal_strlit("channels");
    reveal_strlit("defaults.timeout_seconds");
    reveal_strlit("timeout_seconds");
    reveal_strlit("prompt.profile");
    reveal_strlit("profile");
    reveal_strlit("prompt.scene");
    reveal_strlit("scene");
    reveal_strlit("prompt.style");
    reveal_strlit("style");
    reveal_strlit("prompt.pace");
    reveal_strlit("pace");
    reveal_strlit("prompt.accent");
    reveal_strlit("accent");
    reveal_strlit("prompt.language");
    reveal_strlit("language");
    reveal_strlit("update.enabled");
    reveal_strlit("update.owner");
    reveal_strlit("update.repo");
    assert("keys.api_key"@.len() == 12);
    assert("api_key"@.len() == 7);
    assert("defaults.model"@.len() == 14);
    assert("model"@.len() == 5);
    assert("defaults.voice"@.len() == 14);
    assert("voice"@.len() == 5);
    assert("defaults.audio_format"@.len() == 21);
    assert("audio_format"@.len() == 12);
    assert("format"@.len() == 6);
    assert("defaults.sample_rate"@.len() == 20);
    assert("sample_rate"@.len() == 11);
    assert("defaults.channels"@.len() == 17);
    assert("channels"@.len() == 8);
    assert("defaults.timeout_seconds"@.len() == 24);
    assert("timeout_seconds"@.len() == 15);
    assert("prompt.profile"@.len() == 14);
    assert("profile"@.len() == 7);
    assert("prompt.scene"@.len() == 12);
    assert("scene"@.len() == 5);
    assert("prompt.style"@.len() == 12);
    assert("style"@.len() == 5);
    assert("prompt.pace"@.len() == 11);
    assert("pace"@.len() == 4);
    assert("prompt.accent"@.len() == 13);
    assert("accent"@.len() == 6);
    assert("prompt.language"@.len() == 15);
    assert("language"@.len() == 8);
    assert("update.enabled"@.len() == 14);
    assert("update.owner"@.len() == 12);
    assert("update.repo"@.len() == 11);
    assert("keys.api_key"@[0] != "audio_format"@[0]);
    assert("keys.api_key"@[0] != "prompt.scene"@[0]);
    assert("keys.api_key"@[0] != "prompt.style"@[0]);
    assert("keys.api_key"@[0] != "update.owner"@[0]);
    assert("api_key"@[0] != "profile"@[0]);
    assert("defaults.model"@[9] != "defaults.voice"@[9]);
    assert("defaults.model"@[0] != "prompt.profile"@[0]);
    assert("defaults.model"@[0] != "update.enabled"@[0]);
    assert("model"@[0] != "voice"@[0]);
    assert("model"@[0] != "scene"@[0]);
    assert("model"@[0] != "style"@[0]);
    assert("defaults.voice"@[0] != "prompt.profile"@[0]);
    assert("defaults.voice"@[0] != "update.enabled"@[0]);
    assert("voice"@[0] != "scene"@[0]);
    assert("voice"@[0] != "style"@[0]);
    assert("audio_format"@[0] != "prompt.scene"@[0]);
    assert("audio_format"@[0] != "prompt.style"@[0]);
    assert("audio_format"@[0] != "update.owner"@[0]);
    assert("format"@[0] != "accent"@[0]);
    assert("sample_rate"@[0] != "prompt.pace"@[0]);
    assert("sample_rate"@[0] != "update.repo"@[0]);
    assert("channels"@[0] != "language"@[0]);
    assert("timeout_seconds"@[0] != "prompt.language"@[0]);
    assert("prompt.profile"@[0] != "update.enabled"@[0]);
    assert("prompt.scene"@[8] != "prompt.style"@[8]);
    assert("prompt.scene"@[0] != "update.owner"@[0]);
    assert("scene"@[1] != "style"@[1]);
    assert("prompt.style"@[0] != "update.owner"@[0]);
    assert("prompt.pace"@[0] != "update.repo"@[0]);
}

/// Setting a text setting by its key path or alias stores the trimmed value
/// in that setting and leaves every other setting as it was; reading a
/// setting reports that setting's own value.
pub proof fn text_settings_are_set_and_read_in_place(c: ConfigView, v: Seq<char>, env: Option<(Seq<char>, Seq<char>)>)
    ensures
        set_outcome(c, "keys.api_key"@, v) == Ok::<ConfigView, Seq<char>>(ConfigView { api_key: trim(v), ..c }),
        set_outcome(c, "api_key"@, v) == Ok::<ConfigView, Seq<char>>(ConfigView { api_key: trim(v), ..c }),
        set_outcome(c, "defaults.model"@, v) == Ok::<ConfigView, Seq<char>>(ConfigView { model: trim(v), ..c }),
        set_outcome(c, "model"@, v) == Ok::<ConfigView, Seq<char>>(ConfigView { model: trim(v), ..c }),
        set_outcome(c, "prompt.profile"@, v) == Ok::<ConfigView, Seq<char>>(ConfigView { profile: trim(v), ..c }),
        set_outcome(c, "profile"@, v) == Ok::<ConfigView, Seq<char>>(ConfigView { profile: trim(v), ..c }),
        set_outcome(c, "prompt.scene"@, v) == Ok::<ConfigView, Seq<char>>(ConfigView { scene: trim(v), ..c }),
        set_outcome(c, "scene"@, v) == Ok::<ConfigView, Seq<char>>(ConfigView { scene: trim(v), ..c }),
        set_outcome(c, "prompt.style"@, v) == Ok::<ConfigView, Seq<char>>(ConfigView { style: trim(v), ..c }),
        set_outcome(c, "style"@, v) == Ok::<ConfigView, Seq<char>>(ConfigView { style: trim(v), ..c }),
        set_outcome(c, "prompt.pace"@, v) == Ok::<ConfigView, Seq<char>>(ConfigView { pace: trim(v), ..c }),
        set_outcome(c, "pace"@, v) == Ok::<ConfigView, Seq<char>>(ConfigView { pace: trim(v), ..c }),
        set_outcome(c, "prompt.accent"@, v) == Ok::<ConfigView, Seq<char>>(ConfigView { accent: trim(v), ..c }),
        set_outcome(c, "accent"@, v) == Ok::<ConfigView, Seq<char>>(ConfigView { accent: trim(v), ..c }),
        set_outcome(c, "prompt.language"@, v) == Ok::<ConfigView, Seq<char>>(ConfigView { language: trim(v), ..c }),
        set_outcome(c, "language"@, v) == Ok::<ConfigView, Seq<char>>(ConfigView { language: trim(v), ..c }),
        set_outcome(c, "update.owner"@, v) == Ok::<ConfigView, Seq<char>>(ConfigView { update_owner: trim(v), ..c }),
        set_outcome(c, "update.repo"@, v) == Ok::<ConfigView, Seq<char>>(ConfigView { update_repo: trim(v), ..c }),
        setting_of(c, env, ConfigKey::Model) == Setting::Text(c.model),
        setting_of(c, env, ConfigKey::Voice) == Setting::Text(c.voice),
        setting_of(c, env, ConfigKey::SampleRate) == Setting::Number(c.sample_rate as u64),
        setting_of(c, env, ConfigKey::Channels) == Setting::Number(c.channels as u64),
        setting_of(c, env, ConfigKey::TimeoutSeconds) == Setting::Number(c.timeout_seconds),
        setting_of(c, env, ConfigKey::Profile) == Setting::Text(c.profile),
        setting_of(c, env, ConfigKey::Scene) == Setting::Text(c.scene),
        setting_of(c, env, ConfigKey::Style) == Setting::Text(c.style),
        setting_of(c, env, ConfigKey::Pace) == Setting::Text(c.pace),
        setting_of(c, env, ConfigKey::Accent) == Setting::Text(c.accent),
        setting_of(c, env, ConfigKey::Language) == Setting::Text(c.language),
        setting_of(c, env, ConfigKey::UpdateEnabled) == Setting::Flag(c.update_enabled),
        setting_of(c, env, ConfigKey::UpdateOwner) == Setting::Text(c.update_owner),
        setting_of(c, env, ConfigKey::UpdateRepo) == Setting::Text(c.update_repo),
{
    key_paths_name_their_settings();
}

/// What reading a setting reports right after the (trimmed) value `v` was
/// stored in it, without an API key in the environment.
pub open spec fn written_setting(k: ConfigKey, v: Seq<char>) -> Option<Setting> {
    match k {
        ConfigKey::ApiKey => Some(Setting::Text(mask(v))),
        ConfigKey::Voice => match canonical_voice(v) {
            Some(name) => Some(Setting::Text(name@)),
            None => None,
        },
        ConfigKey::Format => match parse_format_spec(v) {
            Some(f) => Some(Setting::Text(format_name(f))),
            None => None,
        },
        ConfigKey::SampleRate | ConfigKey::Channels | ConfigKey::TimeoutSeconds => match parse_unsigned_spec(
            v,
            match k {
                ConfigKey::SampleRate => u32::MAX as nat,
                ConfigKey::Channels => u16::MAX as nat,
                _ => u64::MAX as nat,
            },
        ) {
            Some(n) => Some(Setting::Number(n as u64)),
            None => None,
        },
        ConfigKey::UpdateEnabled => match parse_bool_spec(v) {
            Some(b) => Some(Setting::Flag(b)),
            None => None,
        },
        _ => Some(Setting::Text(v)),
    }
}

/// Reading a setting right after a successful write gives back what was
/// written: the trimmed text, the canonical voice, the parsed format,
/// number or flag, and for the API key its masked form (when no API key
/// comes from the environment).
pub proof fn written_setting_reads_back(c: ConfigView, key: Seq<char>, value: Seq<char>)
    requires
        set_outcome(c, key, value) is Ok,
    ensures
        key_of(key) matches Some(k) && Some(setting_of(set_outcome(c, key, value)->Ok_0, None, k))
            == written_setting(k, trim(value)),
{
    lemma_trim_idempotent(value);
}

/// A successful write changes no other setting.
pub proof fn write_leaves_other_settings(c: ConfigView, key: Seq<char>, value: Seq<char>, other: ConfigKey, env: Option<(Seq<char>, Seq<char>)>)
    requires
        set_outcome(c, key, value) is Ok,
        key_of(key) != Some(other),
    ensures
        setting_of(set_outcome(c, key, value)->Ok_0, env, other) == setting_of(c, env, other),
{
}

/// Every format's own name reads back as that format.
pub proof fn format_names_read_back(f: AudioFormat)
    ensures
        parse_format_spec(format_name(f)) == Some(f),
{
    reveal_strlit("auto");
    reveal_strlit("wav");
    reveal_strlit("pcm");
    reveal_strlit("mp3");
    reveal_strlit("m4a");
    reveal_strlit("aac");
    reveal_strlit("flac");
    let n = format_name(f);
    assert(lower(n) =~= n);
    assert(n.len() == 4 ==> n != "wav"@ && n != "pcm"@ && n != "mp3"@ && n != "m4a"@ && n != "aac"@);
    assert(n.len() == 3 ==> n != "auto"@ && n != "flac"@);
    match f {
        AudioFormat::Auto => {},
        AudioFormat::Wav => {},
        AudioFormat::Pcm => {
            assert(n[0] != "wav"@[0]);
        },
        AudioFormat::Mp3 => {
            assert(n[0] != "wav"@[0]);
            assert(n[0] != "pcm"@[0]);
        },
        AudioFormat::M4a => {
            assert(n[0] != "wav"@[0]);
            assert(n[0] != "pcm"@[0]);
            assert(n[1] != "mp3"@[1]);
        },
        AudioFormat::Flac => {
            assert(n[0] != "auto"@[0]);
        },
    }
}

} // verus!

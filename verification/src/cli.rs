//! The values that the command line hands to the library: output formats,
//! tag categories, and the arguments of the prompt-building commands.

use vstd::prelude::*;

verus! {

/// Output audio format. `Auto` picks a format from the output file name.
#[derive(Clone, Copy, Debug, PartialEq, Eq, Structural)]
pub enum AudioFormat {
    Auto,
    Wav,
    Pcm,
    Mp3,
    M4a,
    Flac,
}

/// The lowercase name of a format, as displayed and as stored in config.
pub open spec fn format_name(f: AudioFormat) -> Seq<char> {
    match f {
        AudioFormat::Auto => "auto"@,
        AudioFormat::Wav => "wav"@,
        AudioFormat::Pcm => "pcm"@,
        AudioFormat::Mp3 => "mp3"@,
        AudioFormat::M4a => "m4a"@,
        AudioFormat::Flac => "flac"@,
    }
}

impl AudioFormat {
    /// The lowercase name of this format.
    pub fn as_str(&self) -> (r: &'static str)
        ensures
            r@ == format_name(*self),
    {
        match self {
            AudioFormat::Auto => "auto",
            AudioFormat::Wav => "wav",
            AudioFormat::Pcm => "pcm",
            AudioFormat::Mp3 => "mp3",
            AudioFormat::M4a => "m4a",
            AudioFormat::Flac => "flac",
        }
    }
}

/// Category of an inline audio tag.
#[derive(Clone, Copy, Debug, PartialEq, Eq, Structural)]
pub enum TagCategory {
    Emotion,
    Pace,
    Volume,
    Pause,
    Nonverbal,
    Character,
    Accent,
}

/// The variant name of a category, as `Debug` renders it.
pub open spec fn category_variant_name(c: TagCategory) -> Seq<char> {
    match c {
        TagCategory::Emotion => "Emotion"@,
        TagCategory::Pace => "Pace"@,
        TagCategory::Volume => "Volume"@,
        TagCategory::Pause => "Pause"@,
        TagCategory::Nonverbal => "Nonverbal"@,
        TagCategory::Character => "Character"@,
        TagCategory::Accent => "Accent"@,
    }
}

/// The kebab-case name of a category, as used on the command line.
pub open spec fn category_name(c: TagCategory) -> Seq<char> {
    match c {
        TagCategory::Emotion => "emotion"@,
        TagCategory::Pace => "pace"@,
        TagCategory::Volume => "volume"@,
        TagCategory::Pause => "pause"@,
        TagCategory::Nonverbal => "nonverbal"@,
        TagCategory::Character => "character"@,
        TagCategory::Accent => "accent"@,
    }
}

impl TagCategory {
    /// The variant name of this category.
    pub fn variant_name(&self) -> (r: &'static str)
        ensures
            r@ == category_variant_name(*self),
    {
        match self {
            TagCategory::Emotion => "Emotion",
            TagCategory::Pace => "Pace",
            TagCategory::Volume => "Volume",
            TagCategory::Pause => "Pause",
            TagCategory::Nonverbal => "Nonverbal",
            TagCategory::Character => "Character",
            TagCategory::Accent => "Accent",
        }
    }

    /// The kebab-case name of this category.
    pub fn as_str(&self) -> (r: &'static str)
        ensures
            r@ == category_name(*self),
    {
        match self {
            TagCategory::Emotion => "emotion",
            TagCategory::Pace => "pace",
            TagCategory::Volume => "volume",
            TagCategory::Pause => "pause",
            TagCategory::Nonverbal => "nonverbal",
            TagCategory::Character => "character",
            TagCategory::Accent => "accent",
        }
    }
}

/// Arguments of `speak`.
pub struct SpeakArgs {
    /// Text to speak, or a path when `text_file` is set.
    pub text: String,
    pub text_file: bool,
    /// Output audio path.
    pub out: String,
    pub format: AudioFormat,
    pub model: Option<String>,
    pub voice: Option<String>,
    /// Multi-speaker mappings `NAME=VOICE`.
    pub speaker: Vec<String>,
    pub profile: Option<String>,
    pub scene: Option<String>,
    pub style: Option<String>,
    pub pace: Option<String>,
    pub accent: Option<String>,
    pub language: Option<String>,
    pub tag: Vec<String>,
    /// Use the text exactly as the prompt.
    pub raw: bool,
    pub play: bool,
    pub force: bool,
}

/// Arguments of `script`.
pub struct ScriptArgs {
    pub text: String,
    pub text_file: bool,
    pub out: Option<String>,
    pub profile: Option<String>,
    pub scene: Option<String>,
    pub style: Option<String>,
    pub pace: Option<String>,
    pub accent: Option<String>,
    pub language: Option<String>,
    pub tag: Vec<String>,
    pub speaker: Vec<String>,
}

/// Arguments of `lint`.
pub struct LintArgs {
    pub text: String,
    pub text_file: bool,
    /// Names expected in multi-speaker transcript lines.
    pub speaker: Vec<String>,
}

/// Arguments of `doctor`.
pub struct DoctorArgs {
    /// Make a small live request.
    pub live: bool,
    /// Treat a missing ffmpeg as a failure.
    pub require_ffmpeg: bool,
}

} // verus!

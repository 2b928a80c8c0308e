//! Prompt building and linting: direction from command arguments, the
//! structured Gemini TTS prompt, multi-speaker casts, and the reliability
//! checks run on scripts.

use vstd::prelude::*;
use crate::catalog::{canonical_voice, canonical_voice_is_stable, canonical_voice_name, unsupported_voice, unsupported_voice_message};
use crate::cli::{ScriptArgs, SpeakArgs};
use crate::config::{AppConfig, ConfigView};
use crate::error::AppError;
use crate::text::{
    trim, trim_str, trim_chars, to_chars, from_chars, from_char_range, owned, push_str, str_eq,
    str_contains, seq_contains, lower, lower_chars, chars_contains, is_ws, word_count, count_words,
    decimal, push_decimal, join, views, debug_str, debug_quoted, line_starts_with, chars_line_starts_with, occurs_at,
};

verus! {

/// A speaker name and the voice that speaks its lines.
pub struct SpeakerVoice {
    pub speaker: String,
    pub voice: String,
}

/// A built prompt with its statistics and non-blocking warnings.
pub struct PromptBuild {
    pub prompt: String,
    pub structured: bool,
    pub transcript_chars: usize,
    pub prompt_chars: usize,
    pub warnings: Vec<String>,
    pub speakers: Vec<SpeakerVoice>,
}

/// Performance direction for a prompt.
pub struct Direction {
    pub profile: Option<String>,
    pub scene: Option<String>,
    pub style: Option<String>,
    pub pace: Option<String>,
    pub accent: Option<String>,
    pub language: Option<String>,
    pub tags: Vec<String>,
    pub speakers: Vec<SpeakerVoice>,
}

/// One finding of the script linter.
pub struct LintFinding {
    pub severity: &'static str,
    pub code: &'static str,
    pub message: String,
    pub suggestion: String,
}

// ---------------------------------------------------------------------------
// Views
// ---------------------------------------------------------------------------

/// A speaker as a (name, voice) pair.
pub open spec fn speaker_view(s: SpeakerVoice) -> (Seq<char>, Seq<char>) {
    (s.speaker@, s.voice@)
}

/// The speakers as (name, voice) pairs.
pub open spec fn speakers_view(s: Seq<SpeakerVoice>) -> Seq<(Seq<char>, Seq<char>)> {
    s.map_values(|x: SpeakerVoice| speaker_view(x))
}

/// A finding's fields.
pub struct FindingView {
    pub severity: Seq<char>,
    pub code: Seq<char>,
    pub message: Seq<char>,
    pub suggestion: Seq<char>,
}

/// The findings' fields.
pub open spec fn findings_view(f: Seq<LintFinding>) -> Seq<FindingView> {
    f.map_values(
        |x: LintFinding|
            FindingView {
                severity: x.severity@,
                code: x.code@,
                message: x.message@,
                suggestion: x.suggestion@,
            },
    )
}

/// An optional string's characters.
pub open spec fn opt_view(o: Option<String>) -> Option<Seq<char>> {
    match o {
        Some(s) => Some(s@),
        None => None,
    }
}

/// Direction as plain values.
pub struct DirectionView {
    pub profile: Option<Seq<char>>,
    pub scene: Option<Seq<char>>,
    pub style: Option<Seq<char>>,
    pub pace: Option<Seq<char>>,
    pub accent: Option<Seq<char>>,
    pub language: Option<Seq<char>>,
    pub tags: Seq<Seq<char>>,
    pub speakers: Seq<(Seq<char>, Seq<char>)>,
}

/// A direction's plain values.
pub open spec fn direction_view(d: Direction) -> DirectionView {
    DirectionView {
        profile: opt_view(d.profile),
        scene: opt_view(d.scene),
        style: opt_view(d.style),
        pace: opt_view(d.pace),
        accent: opt_view(d.accent),
        language: opt_view(d.language),
        tags: views(d.tags@),
        speakers: speakers_view(d.speakers@),
    }
}

fn clone_opt(o: &Option<String>) -> (r: Option<String>)
    ensures
        r == *o,
{
    match o {
        Some(s) => Some(s.clone()),
        None => None,
    }
}

fn clone_strings(v: &Vec<String>) -> (r: Vec<String>)
    ensures
        r@ == v@,
{
    let mut r: Vec<String> = Vec::new();
    let mut i: usize = 0;
    while i < v.len()
        invariant
            i <= v.len(),
            r@ == v@.take(i as int),
        decreases v.len() - i,
    {
        r.push(v[i].clone());
        assert(r@ =~= v@.take(i + 1));
        i = i + 1;
    }
    assert(v@.take(v.len() as int) =~= v@);
    r
}

fn clone_speakers(v: &Vec<SpeakerVoice>) -> (r: Vec<SpeakerVoice>)
    ensures
        speakers_view(r@) == speakers_view(v@),
{
    let mut r: Vec<SpeakerVoice> = Vec::new();
    let mut i: usize = 0;
    while i < v.len()
        invariant
            i <= v.len(),
            r@.len() == i,
            forall|k: int| 0 <= k < i ==> speaker_view(#[trigger] r@[k]) == speaker_view(v@[k]),
        decreases v.len() - i,
    {
        r.push(SpeakerVoice { speaker: v[i].speaker.clone(), voice: v[i].voice.clone() });
        i = i + 1;
    }
    assert(speakers_view(r@) =~= speakers_view(v@));
    r
}

// ---------------------------------------------------------------------------
// Speakers
// ---------------------------------------------------------------------------

/// The position of the first `c` in `s`.
pub open spec fn first_index_of(s: Seq<char>, c: char) -> Option<int>
    decreases s.len(),
{
    if s.len() == 0 {
        None
    } else if s[0] == c {
        Some(0)
    } else {
        match first_index_of(s.drop_first(), c) {
            Some(i) => Some(i + 1),
            None => None,
        }
    }
}

proof fn lemma_first_index_of(s: Seq<char>, c: char, i: int)
    requires
        0 <= i <= s.len(),
        forall|j: int| 0 <= j < i ==> s[j] != c,
        i == s.len() || s[i] == c,
    ensures
        first_index_of(s, c) == (if i < s.len() {
            Some(i)
        } else {
            None::<int>
        }),
    decreases i,
{
    if i > 0 {
        lemma_first_index_of(s.drop_first(), c, i - 1);
    }
}

/// The message for a malformed speaker mapping.
pub open spec fn bad_speaker_message(item: Seq<char>) -> Seq<char> {
    "speaker must be NAME=VOICE, got "@ + item
}

/// A mapping `NAME=VOICE` split at its first `=` and trimmed; both parts
/// must be non-empty.
pub open spec fn parse_mapping(item: Seq<char>) -> Result<(Seq<char>, Seq<char>), Seq<char>> {
    match first_index_of(item, '=') {
        None => Err(bad_speaker_message(item)),
        Some(i) => {
            let name = trim(item.take(i));
            let voice = trim(item.skip(i + 1));
            if name.len() == 0 || voice.len() == 0 {
                Err(bad_speaker_message(item))
            } else {
                Ok((name, voice))
            }
        },
    }
}

/// The speaker with its voice replaced by the catalog spelling.
pub open spec fn canonical_speaker(p: (Seq<char>, Seq<char>)) -> Result<(Seq<char>, Seq<char>), Seq<char>> {
    match canonical_voice(p.1) {
        Some(v) => Ok((p.0, v@)),
        None => Err(unsupported_voice_message(p.1)),
    }
}

/// The multi-speaker cast from `NAME=VOICE` mappings: none, or exactly two
/// with catalog voices; the first problem found is reported.
pub open spec fn speakers_spec(raw: Seq<Seq<char>>) -> Result<Seq<(Seq<char>, Seq<char>)>, Seq<char>> {
    if raw.len() > 2 {
        Err("Gemini TTS multi-speaker config supports at most 2 speakers"@)
    } else if raw.len() == 0 {
        Ok(Seq::empty())
    } else {
        match parse_mapping(raw[0]) {
            Err(m) => Err(m),
            Ok(a) => if raw.len() == 1 {
                Err(
                    "multi-speaker TTS requires exactly 2 --speaker NAME=VOICE mappings; use --voice for one speaker"@,
                )
            } else {
                match parse_mapping(raw[1]) {
                    Err(m) => Err(m),
                    Ok(b) => match canonical_speaker(a) {
                        Err(m) => Err(m),
                        Ok(ca) => match canonical_speaker(b) {
                            Err(m) => Err(m),
                            Ok(cb) => Ok(seq![ca, cb]),
                        },
                    },
                }
            },
        }
    }
}

fn bad_speaker(item: &str) -> (r: AppError)
    ensures
        r matches AppError::InvalidInput(m) && m@ == bad_speaker_message(item@),
{
    let mut m = owned("speaker must be NAME=VOICE, got ");
    push_str(&mut m, item);
    AppError::InvalidInput(m)
}

/// Splits one `NAME=VOICE` mapping.
fn parse_mapping_exec(item: &str) -> (r: Result<SpeakerVoice, AppError>)
    ensures
        match parse_mapping(item@) {
            Ok(p) => r matches Ok(s) && speaker_view(s) == p,
            Err(msg) => r matches Err(AppError::InvalidInput(m)) && m@ == msg,
        },
{
    let cs = to_chars(item);
    let mut i: usize = 0;
    while i < cs.len() && cs[i] != '='
        invariant
            i <= cs.len(),
            forall|j: int| 0 <= j < i ==> cs@[j] != '=',
        decreases cs.len() - i,
    {
        i = i + 1;
    }
    proof {
        lemma_first_index_of(cs@, '=', i as int);
    }
    if i == cs.len() {
        return Err(bad_speaker(item));
    }
    let name_raw = from_char_range(&cs, 0, i);
    let voice_raw = from_char_range(&cs, i + 1, cs.len());
    assert(cs@.subrange(0, i as int) =~= cs@.take(i as int));
    assert(cs@.subrange(i + 1, cs.len() as int) =~= cs@.skip(i + 1));
    let name = trim_str(name_raw.as_str());
    let voice = trim_str(voice_raw.as_str());
    if to_chars(name.as_str()).len() == 0 || to_chars(voice.as_str()).len() == 0 {
        return Err(bad_speaker(item));
    }
    Ok(SpeakerVoice { speaker: name, voice })
}

fn canonical_speaker_exec(s: SpeakerVoice) -> (r: Result<SpeakerVoice, AppError>)
    ensures
        match canonical_speaker(speaker_view(s)) {
            Ok(p) => r matches Ok(x) && speaker_view(x) == p,
            Err(msg) => r matches Err(AppError::InvalidInput(m)) && m@ == msg,
        },
{
    match canonical_voice_name(s.voice.as_str()) {
        Some(v) => Ok(SpeakerVoice { speaker: s.speaker, voice: owned(v) }),
        None => Err(unsupported_voice(s.voice.as_str())),
    }
}

/// Reads the multi-speaker cast from `NAME=VOICE` mappings.
pub fn parse_speakers(raw: &Vec<String>, _config: &AppConfig) -> (r: Result<Vec<SpeakerVoice>, AppError>)
    ensures
        match speakers_spec(views(raw@)) {
            Ok(v) => r matches Ok(x) && speakers_view(x@) == v,
            Err(msg) => r matches Err(AppError::InvalidInput(m)) && m@ == msg,
        },
{
    if raw.len() > 2 {
        return Err(AppError::InvalidInput(owned("Gemini TTS multi-speaker config supports at most 2 speakers")));
    }
    if raw.len() == 0 {
        let r: Vec<SpeakerVoice> = Vec::new();
        assert(speakers_view(r@) =~= Seq::<(Seq<char>, Seq<char>)>::empty());
        return Ok(r);
    }
    let a = parse_mapping_exec(raw[0].as_str())?;
    if raw.len() == 1 {
        return Err(
            AppError::InvalidInput(
                owned(
                    "multi-speaker TTS requires exactly 2 --speaker NAME=VOICE mappings; use --voice for one speaker",
                ),
            ),
        );
    }
    let b = parse_mapping_exec(raw[1].as_str())?;
    let ca = canonical_speaker_exec(a)?;
    let cb = canonical_speaker_exec(b)?;
    let mut r: Vec<SpeakerVoice> = Vec::new();
    r.push(ca);
    r.push(cb);
    assert(speakers_view(r@) =~= seq![speaker_view(r@[0]), speaker_view(r@[1])]);
    Ok(r)
}

/// A multi-speaker cast is empty exactly when no mapping is given, and
/// otherwise has exactly two speakers, each with a non-empty name and a
/// catalog voice in catalog spelling.
pub proof fn cast_is_empty_or_two_catalog_voices(raw: Seq<Seq<char>>)
    ensures
        match speakers_spec(raw) {
            Ok(c) => (c.len() == 0 <==> raw.len() == 0) && (c.len() == 0 || c.len() == 2)
                && forall|i: int| 0 <= i < c.len() ==> (#[trigger] c[i]).0.len() > 0
                    && (canonical_voice(c[i].1) matches Some(n) && n@ == c[i].1),
            Err(_) => true,
        },
{
    if raw.len() == 2 {
        if let (Ok(a), Ok(b)) = (parse_mapping(raw[0]), parse_mapping(raw[1])) {
            canonical_voice_is_stable(a.1);
            canonical_voice_is_stable(b.1);
        }
    }
}

/// The names of the speakers.
pub open spec fn speaker_names_spec(s: Seq<(Seq<char>, Seq<char>)>) -> Seq<Seq<char>> {
    s.map_values(|p: (Seq<char>, Seq<char>)| p.0)
}

fn speaker_names(speakers: &Vec<SpeakerVoice>) -> (r: Vec<String>)
    ensures
        views(r@) == speaker_names_spec(speakers_view(speakers@)),
{
    let mut r: Vec<String> = Vec::new();
    let mut i: usize = 0;
    while i < speakers.len()
        invariant
            i <= speakers.len(),
            r@.len() == i,
            forall|k: int| 0 <= k < i ==> (#[trigger] r@[k])@ == speakers@[k].speaker@,
        decreases speakers.len() - i,
    {
        r.push(speakers[i].speaker.clone());
        i = i + 1;
    }
    assert(views(r@) =~= speaker_names_spec(speakers_view(speakers@)));
    r
}


// ---------------------------------------------------------------------------
// Linting
// ---------------------------------------------------------------------------

/// Completed tags so far, and whether a tag is open, after reading `s`:
/// a tag opens at `[`, closes (and counts) at `]`, and a newline abandons it.
pub open spec fn tag_state(s: Seq<char>) -> (nat, bool)
    decreases s.len(),
{
    if s.len() == 0 {
        (0, false)
    } else {
        let (count, in_tag) = tag_state(s.drop_last());
        let c = s.last();
        if !in_tag && c == '[' {
            (count, true)
        } else if in_tag && c == ']' {
            (count + 1, false)
        } else if in_tag && c == '\n' {
            (count, false)
        } else {
            (count, in_tag)
        }
    }
}

/// The number of inline `[...]` tags on single lines.
pub open spec fn tag_count(s: Seq<char>) -> nat {
    tag_state(s).0
}

proof fn lemma_tag_state_inside(x: Seq<char>, s: Seq<char>, i: int)
    requires
        !tag_state(x).1,
        0 <= i <= s.len(),
        forall|k: int| 0 <= k < s.len() ==> #[trigger] s[k] != '[' && s[k] != ']' && s[k] != '\n',
    ensures
        tag_state(x + seq!['['] + s.take(i)) == (tag_state(x).0, true),
    decreases i,
{
    if i == 0 {
        assert((x + seq!['['] + s.take(0)).drop_last() =~= x);
        assert((x + seq!['['] + s.take(0)).last() == '[');
    } else {
        lemma_tag_state_inside(x, s, i - 1);
        assert((x + seq!['['] + s.take(i)).drop_last() =~= x + seq!['['] + s.take(i - 1));
        assert((x + seq!['['] + s.take(i)).last() == s[i - 1]);
    }
}

/// Appending one bracketed tag to a text that is not inside a tag counts one
/// more tag, whatever characters (spaces included) stand between the
/// brackets, as long as they hold no bracket and no line break.
pub proof fn bracketed_tag_counts_once(x: Seq<char>, s: Seq<char>)
    requires
        !tag_state(x).1,
        forall|k: int| 0 <= k < s.len() ==> #[trigger] s[k] != '[' && s[k] != ']' && s[k] != '\n',
    ensures
        tag_count(x + "["@ + s + "]"@) == tag_count(x) + 1,
        !tag_state(x + "["@ + s + "]"@).1,
        tag_count("["@ + s + "]"@) == 1,
{
    reveal_strlit("[");
    reveal_strlit("]");
    assert("["@ =~= seq!['[']);
    assert("]"@ =~= seq![']']);
    lemma_tag_state_inside(x, s, s.len() as int);
    assert(s.take(s.len() as int) =~= s);
    let whole = x + "["@ + s + "]"@;
    assert(whole.drop_last() =~= x + seq!['['] + s.take(s.len() as int));
    assert(whole.last() == ']');
    let e = Seq::<char>::empty();
    assert(tag_state(e) == (0nat, false));
    lemma_tag_state_inside(e, s, s.len() as int);
    let single = "["@ + s + "]"@;
    assert(single.drop_last() =~= e + seq!['['] + s.take(s.len() as int));
    assert(single.last() == ']');
}

proof fn lemma_tag_count_bound(s: Seq<char>)
    ensures
        tag_state(s).0 <= s.len(),
    decreases s.len(),
{
    if s.len() > 0 {
        lemma_tag_count_bound(s.drop_last());
    }
}

/// Counts the inline tags of a text.
fn count_tags(text: &Vec<char>) -> (n: usize)
    ensures
        n == tag_count(text@),
{
    let mut count: usize = 0;
    let mut in_tag = false;
    let mut i: usize = 0;
    while i < text.len()
        invariant
            i <= text.len(),
            (count as nat, in_tag) == tag_state(text@.take(i as int)),
        decreases text.len() - i,
    {
        let c = text[i];
        assert(text@.take(i + 1).drop_last() =~= text@.take(i as int));
        proof {
            lemma_tag_count_bound(text@.take(i as int));
        }
        if !in_tag && c == '[' {
            in_tag = true;
        } else if in_tag && c == ']' {
            count = count + 1;
            in_tag = false;
        } else if in_tag && c == '\n' {
            in_tag = false;
        }
        i = i + 1;
    }
    assert(text@.take(text.len() as int) =~= text@);
    count
}

/// Whether a text already looks like a structured TTS prompt.
pub open spec fn looks_structured_spec(text: Seq<char>) -> bool {
    let l = lower(text);
    seq_contains(l, "#### transcript"@) || seq_contains(l, "# audio profile"@) || seq_contains(
        l,
        "### director"@,
    )
}

fn looks_structured(text: &str) -> (r: bool)
    ensures
        r == looks_structured_spec(text@),
{
    let l = lower_chars(&to_chars(text));
    chars_contains(&l, &to_chars("#### transcript")) || chars_contains(&l, &to_chars("# audio profile"))
        || chars_contains(&l, &to_chars("### director"))
}

/// A finding from literal parts.
pub open spec fn finding(severity: Seq<char>, code: Seq<char>, message: Seq<char>, suggestion: Seq<char>) -> FindingView {
    FindingView { severity, code, message, suggestion }
}

/// The one finding about length: too many characters, else too many words,
/// else a note that the length is fine.
pub open spec fn length_finding(chars: nat, words: nat) -> FindingView {
    if chars > 6000 {
        finding(
            "warn"@,
            "long_prompt"@,
            "Prompt is "@ + decimal(chars) + " characters; long Gemini TTS generations can drift or degrade."@,
            "Split long scripts into shorter takes and review each output before stitching."@,
        )
    } else if words > 450 {
        finding(
            "warn"@,
            "long_take"@,
            "Script is about "@ + decimal(words) + " words; short takes are more reliable for preview TTS."@,
            "Prefer 30-60 second takes for important audio. Use stable voice/profile notes across chunks."@,
        )
    } else {
        finding(
            "info"@,
            "length_ok"@,
            "Length looks reasonable: "@ + decimal(words) + " words, "@ + decimal(chars) + " characters."@,
            "Generate and listen to the full file once before using it downstream."@,
        )
    }
}

/// Tags are too dense: at least 3 of them, more than 8 per 100 words.
pub open spec fn tag_inflation(tags: nat, words: nat) -> bool {
    tags >= 3 && words > 0 && 25 * tags > 2 * words
}

/// The findings for missing speaker prefixes, in speaker order.
pub open spec fn speaker_findings(text: Seq<char>, speakers: Seq<Seq<char>>) -> Seq<FindingView>
    decreases speakers.len(),
{
    if speakers.len() == 0 {
        Seq::empty()
    } else {
        let rest = speaker_findings(text, speakers.drop_last());
        let prefix = speakers.last() + ":"@;
        if line_starts_with(text, prefix) {
            rest
        } else {
            rest.push(
                finding(
                    "warn"@,
                    "missing_speaker_line"@,
                    "No transcript line starts with expected speaker prefix "@ + debug_str(prefix) + "."@,
                    "For multi-speaker TTS, transcript names must match --speaker names exactly."@,
                ),
            )
        }
    }
}

/// An optional single finding.
pub open spec fn when(b: bool, f: FindingView) -> Seq<FindingView> {
    if b {
        seq![f]
    } else {
        Seq::empty()
    }
}

/// All findings for a text, in the order they are reported.
pub open spec fn lint_spec(text: Seq<char>, speakers: Seq<Seq<char>>) -> Seq<FindingView> {
    let chars = text.len();
    let words = word_count(text);
    let tags = tag_count(text);
    seq![length_finding(chars, words)] + when(
        tag_inflation(tags, words),
        finding(
            "warn"@,
            "tag_inflation"@,
            decimal(tags) + " inline tags across "@ + decimal(words) + " words is dense."@,
            "Use director notes for global tone and reserve tags for local changes."@,
        ),
    ) + when(
        seq_contains(text, "]["@),
        finding(
            "warn"@,
            "adjacent_tags"@,
            "Adjacent tags may be spoken literally or ignored."@,
            "Separate tags with words or punctuation, for example: [softly] Hello, [short pause] welcome back."@,
        ),
    ) + when(
        seq_contains(text, "]."@) || seq_contains(text, "]\n"@),
        finding(
            "info"@,
            "tag_boundary"@,
            "Tags followed by sentence breaks can sound chopped in some prompts."@,
            "For smoother phrasing, try commas between tagged clauses instead of period-separated fragments."@,
        ),
    ) + speaker_findings(text, speakers) + when(
        seq_contains(text, "[[tts"@),
        finding(
            "warn"@,
            "foreign_tts_directive"@,
            "Found [[tts...]] wrapper directives."@,
            "Use Gemini inline audio tags like [whispers] directly inside the transcript; do not wrap with app-specific TTS tags."@,
        ),
    )
}

proof fn lemma_speaker_findings_shape(text: Seq<char>, speakers: Seq<Seq<char>>)
    ensures
        forall|i: int| 0 <= i < speaker_findings(text, speakers).len() ==> (#[trigger] speaker_findings(text, speakers)[i]).code
            == "missing_speaker_line"@ && speaker_findings(text, speakers)[i].severity == "warn"@,
    decreases speakers.len(),
{
    if speakers.len() > 0 {
        let rest = speaker_findings(text, speakers.drop_last());
        lemma_speaker_findings_shape(text, speakers.drop_last());
        let sf = speaker_findings(text, speakers);
        assert forall|i: int| 0 <= i < sf.len() implies (#[trigger] sf[i]).code == "missing_speaker_line"@
            && sf[i].severity == "warn"@ by {
            if i < rest.len() {
                assert(sf[i] == rest[i]);
            }
        }
    }
}

/// The length finding's code: too many characters, else too many words,
/// else fine.
pub open spec fn length_code(chars: nat, words: nat) -> Seq<char> {
    if chars > 6000 {
        "long_prompt"@
    } else if words > 450 {
        "long_take"@
    } else {
        "length_ok"@
    }
}

/// The lint always reports the length finding first and never again; every
/// finding is a warning except the informational `length_ok` and
/// `tag_boundary`; `adjacent_tags` is reported exactly when the text has
/// `][`, and `foreign_tts_directive` exactly when it has `[[tts`.
pub proof fn lint_findings_law(text: Seq<char>, speakers: Seq<Seq<char>>)
    ensures
        ({
            let f = lint_spec(text, speakers);
            &&& f.len() >= 1
            &&& f[0] == length_finding(text.len(), word_count(text))
            &&& f[0].code == length_code(text.len(), word_count(text))
            &&& forall|i: int| 1 <= i < f.len() ==> (#[trigger] f[i]).code != "long_prompt"@ && f[i].code != "long_take"@
                && f[i].code != "length_ok"@
            &&& forall|i: int| 0 <= i < f.len() ==> ((#[trigger] f[i]).severity == "warn"@ || (f[i].severity == "info"@
                && (f[i].code == "length_ok"@ || f[i].code == "tag_boundary"@)))
            &&& (exists|i: int| 0 <= i < f.len() && (#[trigger] f[i]).code == "adjacent_tags"@) <==> seq_contains(text, "]["@)
            &&& (exists|i: int| 0 <= i < f.len() && (#[trigger] f[i]).code == "foreign_tts_directive"@) <==> seq_contains(
                text,
                "[[tts"@,
            )
        }),
{
    reveal_strlit("long_prompt");
    reveal_strlit("long_take");
    reveal_strlit("length_ok");
    reveal_strlit("tag_inflation");
    reveal_strlit("adjacent_tags");
    reveal_strlit("tag_boundary");
    reveal_strlit("missing_speaker_line");
    reveal_strlit("foreign_tts_directive");
    reveal_strlit("warn");
    reveal_strlit("info");
    lemma_speaker_findings_shape(text, speakers);
    let chars = text.len();
    let words = word_count(text);
    let tags = tag_count(text);
    let l = length_finding(chars, words);
    let a = when(
        tag_inflation(tags, words),
        finding(
            "warn"@,
            "tag_inflation"@,
            decimal(tags) + " inline tags across "@ + decimal(words) + " words is dense."@,
            "Use director notes for global tone and reserve tags for local changes."@,
        ),
    );
    let b = when(
        seq_contains(text, "]["@),
        finding(
            "warn"@,
            "adjacent_tags"@,
            "Adjacent tags may be spoken literally or ignored."@,
            "Separate tags with words or punctuation, for example: [softly] Hello, [short pause] welcome back."@,
        ),
    );
    let c = when(
        seq_contains(text, "]."@) || seq_contains(text, "]\n"@),
        finding(
            "info"@,
            "tag_boundary"@,
            "Tags followed by sentence breaks can sound chopped in some prompts."@,
            "For smoother phrasing, try commas between tagged clauses instead of period-separated fragments."@,
        ),
    );
    let sf = speaker_findings(text, speakers);
    let d = when(
        seq_contains(text, "[[tts"@),
        finding(
            "warn"@,
            "foreign_tts_directive"@,
            "Found [[tts...]] wrapper directives."@,
            "Use Gemini inline audio tags like [whispers] directly inside the transcript; do not wrap with app-specific TTS tags."@,
        ),
    );
    let f = lint_spec(text, speakers);
    let rest = a + b + c + sf + d;
    assert(f =~= seq![l] + rest);
    assert(f[0] == l);
    assert(forall|i: int| 1 <= i < f.len() ==> f[i] == rest[i - 1]);
    let codes = seq!["long_prompt"@, "long_take"@, "length_ok"@, "tag_inflation"@, "adjacent_tags"@, "tag_boundary"@,
        "missing_speaker_line"@, "foreign_tts_directive"@];
    assert forall|x: int, y: int| 0 <= x < y < 8 implies codes[x] != codes[y] by {
        assert(codes[x].len() != codes[y].len() || codes[x][0] != codes[y][0] || codes[x][1] != codes[y][1]);
    }
    assert("warn"@ != "info"@) by {
        assert("warn"@[0] != "info"@[0]);
    }
    let n1 = a.len() as int;
    let n2 = n1 + b.len();
    let n3 = n2 + c.len();
    let n4 = n3 + sf.len();
    assert forall|i: int| 0 <= i < rest.len() implies {
        &&& i < n1 ==> (#[trigger] rest[i]).code == codes[3] && rest[i].severity == "warn"@
        &&& n1 <= i < n2 ==> rest[i].code == codes[4] && rest[i].severity == "warn"@
        &&& n2 <= i < n3 ==> rest[i].code == codes[5] && rest[i].severity == "info"@
        &&& n3 <= i < n4 ==> rest[i].code == codes[6] && rest[i].severity == "warn"@
        &&& n4 <= i ==> rest[i].code == codes[7] && rest[i].severity == "warn"@
    } by {
        if i < n1 {
            assert(rest[i] == a[i]);
        } else if i < n2 {
            assert(rest[i] == b[i - n1]);
        } else if i < n3 {
            assert(rest[i] == c[i - n2]);
        } else if i < n4 {
            assert(rest[i] == sf[i - n3]);
        } else {
            assert(rest[i] == d[i - n4]);
        }
    }
    assert(l.code == codes[0] || l.code == codes[1] || l.code == codes[2]);
    assert(forall|i: int| 1 <= i < f.len() ==> f[i] == rest[i - 1]);
    if seq_contains(text, "]["@) {
        assert(f[1 + n1].code == "adjacent_tags"@);
    }
    if seq_contains(text, "[[tts"@) {
        assert(f[1 + n4].code == "foreign_tts_directive"@);
    }
}

fn make_finding(severity: &'static str, code: &'static str, message: String, suggestion: &str) -> (r: LintFinding)
    ensures
        r.severity == severity,
        r.code == code,
        r.message == message,
        r.suggestion@ == suggestion@,
{
    LintFinding { severity, code, message, suggestion: owned(suggestion) }
}

proof fn lemma_findings_view_push(f: Seq<LintFinding>, x: LintFinding)
    ensures
        findings_view(f.push(x)) == findings_view(f).push(
            FindingView {
                severity: x.severity@,
                code: x.code@,
                message: x.message@,
                suggestion: x.suggestion@,
            },
        ),
{
    assert(findings_view(f.push(x)) =~= findings_view(f).push(
        FindingView {
            severity: x.severity@,
            code: x.code@,
            message: x.message@,
            suggestion: x.suggestion@,
        },
    ));
}

/// Checks a script or prompt for length, tag density, tag placement,
/// multi-speaker prefixes and foreign TTS wrappers.
pub fn lint_prompt(text: &str, speakers: &Vec<String>) -> (r: Vec<LintFinding>)
    ensures
        findings_view(r@) == lint_spec(text@, views(speakers@)),
{
    let cs = to_chars(text);
    let chars = cs.len();
    let words = count_words(&cs);
    let tags = count_tags(&cs);
    let mut findings: Vec<LintFinding> = Vec::new();
    let ghost t = text@;
    if chars > 6000 {
        let mut m = owned("Prompt is ");
        push_decimal(&mut m, chars as u128);
        push_str(&mut m, " characters; long Gemini TTS generations can drift or degrade.");
        findings.push(make_finding("warn", "long_prompt", m, "Split long scripts into shorter takes and review each output before stitching."));
    } else if words > 450 {
        let mut m = owned("Script is about ");
        push_decimal(&mut m, words as u128);
        push_str(&mut m, " words; short takes are more reliable for preview TTS.");
        findings.push(make_finding("warn", "long_take", m, "Prefer 30-60 second takes for important audio. Use stable voice/profile notes across chunks."));
    } else {
        let mut m = owned("Length looks reasonable: ");
        push_decimal(&mut m, words as u128);
        push_str(&mut m, " words, ");
        push_decimal(&mut m, chars as u128);
        push_str(&mut m, " characters.");
        findings.push(make_finding("info", "length_ok", m, "Generate and listen to the full file once before using it downstream."));
    }
    let ghost part1 = seq![length_finding(t.len(), word_count(t))];
    assert(findings_view(findings@) =~= part1);
    let inflated = tags >= 3 && words > 0 && (tags as u128) * 25 > (words as u128) * 2;
    if inflated {
        let mut m = String::new();
        push_decimal(&mut m, tags as u128);
        push_str(&mut m, " inline tags across ");
        push_decimal(&mut m, words as u128);
        push_str(&mut m, " words is dense.");
        let f = make_finding("warn", "tag_inflation", m, "Use director notes for global tone and reserve tags for local changes.");
        proof { lemma_findings_view_push(findings@, f); }
        findings.push(f);
    }
    let ghost part2 = part1 + when(
        tag_inflation(tag_count(t), word_count(t)),
        finding(
            "warn"@,
            "tag_inflation"@,
            decimal(tag_count(t)) + " inline tags across "@ + decimal(word_count(t)) + " words is dense."@,
            "Use director notes for global tone and reserve tags for local changes."@,
        ),
    );
    assert(findings_view(findings@) =~= part2);
    if chars_contains(&cs, &to_chars("][")) {
        let f = make_finding("warn", "adjacent_tags", owned("Adjacent tags may be spoken literally or ignored."), "Separate tags with words or punctuation, for example: [softly] Hello, [short pause] welcome back.");
        proof { lemma_findings_view_push(findings@, f); }
        findings.push(f);
    }
    let ghost part3 = part2 + when(
        seq_contains(t, "]["@),
        finding(
            "warn"@,
            "adjacent_tags"@,
            "Adjacent tags may be spoken literally or ignored."@,
            "Separate tags with words or punctuation, for example: [softly] Hello, [short pause] welcome back."@,
        ),
    );
    assert(findings_view(findings@) =~= part3);
    if chars_contains(&cs, &to_chars("].")) || chars_contains(&cs, &to_chars("]\n")) {
        let f = make_finding("info", "tag_boundary", owned("Tags followed by sentence breaks can sound chopped in some prompts."), "For smoother phrasing, try commas between tagged clauses instead of period-separated fragments.");
        proof { lemma_findings_view_push(findings@, f); }
        findings.push(f);
    }
    let ghost part4 = part3 + when(
        seq_contains(t, "]."@) || seq_contains(t, "]\n"@),
        finding(
            "info"@,
            "tag_boundary"@,
            "Tags followed by sentence breaks can sound chopped in some prompts."@,
            "For smoother phrasing, try commas between tagged clauses instead of period-separated fragments."@,
        ),
    );
    assert(findings_view(findings@) =~= part4);
    let ghost sv = views(speakers@);
    let mut i: usize = 0;
    while i < speakers.len()
        invariant
            i <= speakers.len(),
            sv == views(speakers@),
            cs@ == t,
            findings_view(findings@) == part4 + speaker_findings(t, sv.take(i as int)),
        decreases speakers.len() - i,
    {
        let mut prefix = speakers[i].clone();
        push_str(&mut prefix, ":");
        assert(sv.take(i + 1).drop_last() =~= sv.take(i as int));
        assert(sv.take(i + 1).last() == speakers@[i as int]@);
        if !chars_line_starts_with(&cs, &to_chars(prefix.as_str())) {
            let mut m = owned("No transcript line starts with expected speaker prefix ");
            let q = debug_quoted(prefix.as_str());
            push_str(&mut m, q.as_str());
            push_str(&mut m, ".");
            let f = make_finding("warn", "missing_speaker_line", m, "For multi-speaker TTS, transcript names must match --speaker names exactly.");
            proof { lemma_findings_view_push(findings@, f); }
            findings.push(f);
            assert(findings_view(findings@) =~= part4 + speaker_findings(t, sv.take(i + 1)));
        }
        i = i + 1;
    }
    assert(sv.take(speakers.len() as int) =~= sv);
    let ghost part5 = part4 + speaker_findings(t, sv);
    if chars_contains(&cs, &to_chars("[[tts")) {
        let f = make_finding("warn", "foreign_tts_directive", owned("Found [[tts...]] wrapper directives."), "Use Gemini inline audio tags like [whispers] directly inside the transcript; do not wrap with app-specific TTS tags.");
        proof { lemma_findings_view_push(findings@, f); }
        findings.push(f);
    }
    assert(findings_view(findings@) =~= lint_spec(t, sv));
    findings
}


// ---------------------------------------------------------------------------
// Direction
// ---------------------------------------------------------------------------

/// The direction that command arguments give, with the parsed cast.
pub open spec fn args_direction(
    profile: Option<String>,
    scene: Option<String>,
    style: Option<String>,
    pace: Option<String>,
    accent: Option<String>,
    language: Option<String>,
    tags: Seq<String>,
    speakers: Seq<(Seq<char>, Seq<char>)>,
) -> DirectionView {
    DirectionView {
        profile: opt_view(profile),
        scene: opt_view(scene),
        style: opt_view(style),
        pace: opt_view(pace),
        accent: opt_view(accent),
        language: opt_view(language),
        tags: views(tags),
        speakers,
    }
}

/// The direction of `speak`'s arguments.
pub open spec fn speak_direction(args: SpeakArgs, speakers: Seq<(Seq<char>, Seq<char>)>) -> DirectionView {
    args_direction(args.profile, args.scene, args.style, args.pace, args.accent, args.language, args.tag@, speakers)
}

/// The direction of `script`'s arguments.
pub open spec fn script_direction(args: ScriptArgs, speakers: Seq<(Seq<char>, Seq<char>)>) -> DirectionView {
    args_direction(args.profile, args.scene, args.style, args.pace, args.accent, args.language, args.tag@, speakers)
}

/// Whether any direction was given at all.
pub open spec fn explicit_direction(d: DirectionView) -> bool {
    d.profile is Some || d.scene is Some || d.style is Some || d.pace is Some || d.accent is Some
        || d.language is Some || d.tags.len() > 0 || d.speakers.len() > 0
}

impl Direction {
    /// The direction given to `speak`.
    pub fn from_speak(args: &SpeakArgs, config: &AppConfig) -> (r: Result<Direction, AppError>)
        ensures
            match speakers_spec(views(args.speaker@)) {
                Ok(sp) => r matches Ok(d) && direction_view(d) == speak_direction(*args, sp),
                Err(msg) => r matches Err(AppError::InvalidInput(m)) && m@ == msg,
            },
    {
        let speakers = parse_speakers(&args.speaker, config)?;
        Ok(Direction {
            profile: clone_opt(&args.profile),
            scene: clone_opt(&args.scene),
            style: clone_opt(&args.style),
            pace: clone_opt(&args.pace),
            accent: clone_opt(&args.accent),
            language: clone_opt(&args.language),
            tags: clone_strings(&args.tag),
            speakers,
        })
    }

    /// The direction given to `script`.
    pub fn from_script(args: &ScriptArgs, config: &AppConfig) -> (r: Result<Direction, AppError>)
        ensures
            match speakers_spec(views(args.speaker@)) {
                Ok(sp) => r matches Ok(d) && direction_view(d) == script_direction(*args, sp),
                Err(msg) => r matches Err(AppError::InvalidInput(m)) && m@ == msg,
            },
    {
        let speakers = parse_speakers(&args.speaker, config)?;
        Ok(Direction {
            profile: clone_opt(&args.profile),
            scene: clone_opt(&args.scene),
            style: clone_opt(&args.style),
            pace: clone_opt(&args.pace),
            accent: clone_opt(&args.accent),
            language: clone_opt(&args.language),
            tags: clone_strings(&args.tag),
            speakers,
        })
    }

    /// Whether any direction was given.
    fn has_explicit_direction(&self) -> (r: bool)
        ensures
            r == explicit_direction(direction_view(*self)),
    {
        self.profile.is_some() || self.scene.is_some() || self.style.is_some() || self.pace.is_some()
            || self.accent.is_some() || self.language.is_some() || self.tags.len() > 0
            || self.speakers.len() > 0
    }
}

// ---------------------------------------------------------------------------
// Prompts
// ---------------------------------------------------------------------------

/// The messages of the findings that are not informational, in order.
pub open spec fn warn_messages(f: Seq<FindingView>) -> Seq<Seq<char>>
    decreases f.len(),
{
    if f.len() == 0 {
        Seq::empty()
    } else if f.last().severity == "info"@ {
        warn_messages(f.drop_last())
    } else {
        warn_messages(f.drop_last()).push(f.last().message)
    }
}

fn warnings_of(findings: Vec<LintFinding>) -> (r: Vec<String>)
    ensures
        views(r@) == warn_messages(findings_view(findings@)),
{
    let ghost fv = findings_view(findings@);
    let mut r: Vec<String> = Vec::new();
    let mut i: usize = 0;
    while i < findings.len()
        invariant
            i <= findings.len(),
            fv == findings_view(findings@),
            views(r@) == warn_messages(fv.take(i as int)),
        decreases findings.len() - i,
    {
        assert(fv.take(i + 1).drop_last() =~= fv.take(i as int));
        assert(fv.take(i + 1).last() == fv[i as int]);
        if !str_eq(findings[i].severity, "info") {
            r.push(findings[i].message.clone());
            assert(views(r@) =~= warn_messages(fv.take(i + 1)));
        }
        i = i + 1;
    }
    assert(fv.take(findings.len() as int) =~= fv);
    r
}

/// A prompt that is the transcript itself.
pub open spec fn is_raw_build(b: PromptBuild, t: Seq<char>, sp: Seq<(Seq<char>, Seq<char>)>) -> bool {
    &&& b.prompt@ == t
    &&& !b.structured
    &&& b.transcript_chars == t.len()
    &&& b.prompt_chars == t.len()
    &&& views(b.warnings@) == warn_messages(lint_spec(t, speaker_names_spec(sp)))
    &&& speakers_view(b.speakers@) == sp
}

fn raw_prompt(transcript: &str, speakers: Vec<SpeakerVoice>) -> (r: PromptBuild)
    ensures
        is_raw_build(r, transcript@, speakers_view(speakers@)),
{
    let names = speaker_names(&speakers);
    let findings = lint_prompt(transcript, &names);
    let warnings = warnings_of(findings);
    let n = to_chars(transcript).len();
    PromptBuild {
        prompt: owned(transcript),
        structured: false,
        transcript_chars: n,
        prompt_chars: n,
        warnings,
        speakers,
    }
}

/// A direction field, or the configured default when it was not given.
pub open spec fn or_default(o: Option<Seq<char>>, d: Seq<char>) -> Seq<char> {
    match o {
        Some(v) => v,
        None => d,
    }
}

/// The cast notes, one line per speaker.
pub open spec fn cast_text(sp: Seq<(Seq<char>, Seq<char>)>) -> Seq<char>
    decreases sp.len(),
{
    if sp.len() == 0 {
        Seq::empty()
    } else {
        cast_text(sp.drop_last()) + "- "@ + sp.last().0 + ": use voice "@ + sp.last().1
            + ". Transcript lines must start with exactly this speaker name.\n"@
    }
}

/// The opening of every structured prompt.
pub open spec fn preamble() -> Seq<char> {
    "Synthesize speech for the performance defined below. The audio profile, scene, director notes, cast, and context are direction only. Do not speak them. Speak only the lines under #### TRANSCRIPT.\n\n"@
}

/// The structured prompt: audio profile, scene, director's notes (with the
/// configured defaults for anything not given), optional tag hints and cast,
/// then the trimmed transcript.
pub open spec fn structured_text(t: Seq<char>, d: DirectionView, c: ConfigView) -> Seq<char> {
    preamble() + "# AUDIO PROFILE: "@ + or_default(d.profile, c.profile) + "\n\n## THE SCENE\n"@
        + or_default(d.scene, c.scene) + "\n\n### DIRECTOR'S NOTES\n"@ + "Style: "@ + or_default(
        d.style,
        c.style,
    ) + "\nPacing: "@ + or_default(d.pace, c.pace) + "\nAccent: "@ + or_default(d.accent, c.accent)
        + "\nLanguage: "@ + or_default(d.language, c.language)
        + "\nReliability: Keep the selected voice and written tone aligned. Use tags sparingly; tags should modify delivery, not replace a coherent transcript."@
        + (if d.tags.len() > 0 {
        "\nUseful inline tags for this script: "@ + join(d.tags, " "@)
    } else {
        Seq::empty()
    }) + (if d.speakers.len() > 0 {
        "\n\n### CAST\n"@ + cast_text(d.speakers)
    } else {
        Seq::empty()
    }) + "\n\n#### TRANSCRIPT\n"@ + trim(t)
}

/// A structured prompt built from a transcript and direction.
pub open spec fn is_structured_build(b: PromptBuild, t: Seq<char>, d: DirectionView, c: ConfigView) -> bool {
    &&& b.prompt@ == structured_text(t, d, c)
    &&& b.structured
    &&& b.prompt_chars == b.prompt@.len()
    &&& b.transcript_chars == t.len()
    &&& views(b.warnings@) == warn_messages(lint_spec(b.prompt@, speaker_names_spec(d.speakers)))
    &&& speakers_view(b.speakers@) == d.speakers
}

fn push_or_default(out: &mut String, o: &Option<String>, d: &String)
    ensures
        final(out)@ == old(out)@ + or_default(opt_view(*o), d@),
{
    match o {
        Some(v) => push_str(out, v.as_str()),
        None => push_str(out, d.as_str()),
    }
}

fn structured_prompt(transcript: &str, direction: &Direction, config: &AppConfig) -> (r: PromptBuild)
    ensures
        is_structured_build(r, transcript@, direction_view(*direction), config@),
{
    let ghost d = direction_view(*direction);
    let mut prompt = String::new();
    push_str(&mut prompt, "Synthesize speech for the performance defined below. The audio profile, scene, director notes, cast, and context are direction only. Do not speak them. Speak only the lines under #### TRANSCRIPT.\n\n");
    push_str(&mut prompt, "# AUDIO PROFILE: ");
    push_or_default(&mut prompt, &direction.profile, &config.prompt.profile);
    push_str(&mut prompt, "\n\n## THE SCENE\n");
    push_or_default(&mut prompt, &direction.scene, &config.prompt.scene);
    push_str(&mut prompt, "\n\n### DIRECTOR'S NOTES\n");
    push_str(&mut prompt, "Style: ");
    push_or_default(&mut prompt, &direction.style, &config.prompt.style);
    push_str(&mut prompt, "\nPacing: ");
    push_or_default(&mut prompt, &direction.pace, &config.prompt.pace);
    push_str(&mut prompt, "\nAccent: ");
    push_or_default(&mut prompt, &direction.accent, &config.prompt.accent);
    push_str(&mut prompt, "\nLanguage: ");
    push_or_default(&mut prompt, &direction.language, &config.prompt.language);
    push_str(&mut prompt, "\nReliability: Keep the selected voice and written tone aligned. Use tags sparingly; tags should modify delivery, not replace a coherent transcript.");
    let ghost head = prompt@;
    if direction.tags.len() > 0 {
        push_str(&mut prompt, "\nUseful inline tags for this script: ");
        let joined = crate::text::join_strings(&direction.tags, " ");
        push_str(&mut prompt, joined.as_str());
    }
    let ghost with_tags = prompt@;
    assert(with_tags == head + (if d.tags.len() > 0 {
        "\nUseful inline tags for this script: "@ + join(d.tags, " "@)
    } else {
        Seq::empty()
    }));
    if direction.speakers.len() > 0 {
        push_str(&mut prompt, "\n\n### CAST\n");
        let ghost before_cast = prompt@;
        let mut i: usize = 0;
        while i < direction.speakers.len()
            invariant
                i <= direction.speakers.len(),
                d == direction_view(*direction),
                prompt@ == before_cast + cast_text(d.speakers.take(i as int)),
            decreases direction.speakers.len() - i,
        {
            let sv = &direction.speakers[i];
            push_str(&mut prompt, "- ");
            push_str(&mut prompt, sv.speaker.as_str());
            push_str(&mut prompt, ": use voice ");
            push_str(&mut prompt, sv.voice.as_str());
            push_str(&mut prompt, ". Transcript lines must start with exactly this speaker name.\n");
            assert(d.speakers.take(i + 1).drop_last() =~= d.speakers.take(i as int));
            assert(d.speakers.take(i + 1).last() == speaker_view(*sv));
            i = i + 1;
        }
        assert(d.speakers.take(direction.speakers.len() as int) =~= d.speakers);
    }
    let ghost with_cast = prompt@;
    assert(with_cast == with_tags + (if d.speakers.len() > 0 {
        "\n\n### CAST\n"@ + cast_text(d.speakers)
    } else {
        Seq::empty()
    }));
    push_str(&mut prompt, "\n\n#### TRANSCRIPT\n");
    let tt = trim_str(transcript);
    push_str(&mut prompt, tt.as_str());
    assert(prompt@ =~= structured_text(transcript@, d, config@));
    let names = speaker_names(&direction.speakers);
    let findings = lint_prompt(prompt.as_str(), &names);
    let warnings = warnings_of(findings);
    let prompt_chars = to_chars(prompt.as_str()).len();
    let transcript_chars = to_chars(transcript).len();
    PromptBuild {
        prompt,
        structured: true,
        transcript_chars,
        prompt_chars,
        warnings,
        speakers: clone_speakers(&direction.speakers),
    }
}

/// The prompt `speak` sends for a transcript, its arguments and their parsed
/// cast: the transcript itself when `--raw` is set, when no direction is
/// given, or when it already looks structured; otherwise the structured
/// prompt.
pub open spec fn is_speak_build(b: PromptBuild, t: Seq<char>, args: SpeakArgs, sp: Seq<(Seq<char>, Seq<char>)>, c: ConfigView) -> bool {
    if args.raw || !explicit_direction(speak_direction(args, sp)) || looks_structured_spec(t) {
        is_raw_build(b, t, sp)
    } else {
        is_structured_build(b, t, speak_direction(args, sp), c)
    }
}

/// The warnings of a built `speak` prompt are the messages, in order, of
/// the warning findings of the lint of the prompt itself, for the cast's
/// names.
pub proof fn speak_warnings_are_prompt_lint(
    b: PromptBuild,
    t: Seq<char>,
    args: SpeakArgs,
    sp: Seq<(Seq<char>, Seq<char>)>,
    c: ConfigView,
)
    requires
        is_speak_build(b, t, args, sp, c),
    ensures
        views(b.warnings@) == warn_messages(lint_spec(b.prompt@, speaker_names_spec(speakers_view(b.speakers@)))),
{
}

proof fn lemma_contains_middle(x: Seq<char>, n: Seq<char>, y: Seq<char>)
    ensures
        seq_contains(x + n + y, n),
{
    assert((x + n + y).subrange(x.len() as int, (x.len() + n.len()) as int) =~= n);
    assert(occurs_at(x + n + y, n, x.len() as int));
}

#[verifier::rlimit(40)]
proof fn lemma_profile_in_structured(t: Seq<char>, d: DirectionView, c: ConfigView)
    ensures
        seq_contains(structured_text(t, d, c), "# AUDIO PROFILE: "@ + or_default(d.profile, c.profile) + "\n\n## THE SCENE\n"@),
{
    let pr = or_default(d.profile, c.profile);
    let sc = or_default(d.scene, c.scene);
    let st = or_default(d.style, c.style);
    let pa = or_default(d.pace, c.pace);
    let ac = or_default(d.accent, c.accent);
    let la = or_default(d.language, c.language);
    let tail = (if d.tags.len() > 0 {
        "\nUseful inline tags for this script: "@ + join(d.tags, " "@)
    } else {
        Seq::empty()
    }) + (if d.speakers.len() > 0 {
        "\n\n### CAST\n"@ + cast_text(d.speakers)
    } else {
        Seq::empty()
    }) + "\n\n#### TRANSCRIPT\n"@ + trim(t);
    assert(structured_text(t, d, c) =~= (preamble()) + ("# AUDIO PROFILE: "@ + pr + "\n\n## THE SCENE\n"@) + (sc + "\n\n### DIRECTOR'S NOTES\n"@ + "Style: "@ + st + "\nPacing: "@ + pa + "\nAccent: "@ + ac + "\nLanguage: "@ + la + "\nReliability: Keep the selected voice and written tone aligned. Use tags sparingly; tags should modify delivery, not replace a coherent transcript."@ + tail));
    lemma_contains_middle(preamble(), "# AUDIO PROFILE: "@ + pr + "\n\n## THE SCENE\n"@, sc + "\n\n### DIRECTOR'S NOTES\n"@ + "Style: "@ + st + "\nPacing: "@ + pa + "\nAccent: "@ + ac + "\nLanguage: "@ + la + "\nReliability: Keep the selected voice and written tone aligned. Use tags sparingly; tags should modify delivery, not replace a coherent transcript."@ + tail);
}

#[verifier::rlimit(40)]
proof fn lemma_scene_in_structured(t: Seq<char>, d: DirectionView, c: ConfigView)
    ensures
        seq_contains(structured_text(t, d, c), "\n\n## THE SCENE\n"@ + or_default(d.scene, c.scene) + "\n\n### DIRECTOR'S NOTES\n"@),
{
    let pr = or_default(d.profile, c.profile);
    let sc = or_default(d.scene, c.scene);
    let st = or_default(d.style, c.style);
    let pa = or_default(d.pace, c.pace);
    let ac = or_default(d.accent, c.accent);
    let la = or_default(d.language, c.language);
    let tail = (if d.tags.len() > 0 {
        "\nUseful inline tags for this script: "@ + join(d.tags, " "@)
    } else {
        Seq::empty()
    }) + (if d.speakers.len() > 0 {
        "\n\n### CAST\n"@ + cast_text(d.speakers)
    } else {
        Seq::empty()
    }) + "\n\n#### TRANSCRIPT\n"@ + trim(t);
    assert(structured_text(t, d, c) =~= (preamble() + "# AUDIO PROFILE: "@ + pr) + ("\n\n## THE SCENE\n"@ + sc + "\n\n### DIRECTOR'S NOTES\n"@) + ("Style: "@ + st + "\nPacing: "@ + pa + "\nAccent: "@ + ac + "\nLanguage: "@ + la + "\nReliability: Keep the selected voice and written tone aligned. Use tags sparingly; tags should modify delivery, not replace a coherent transcript."@ + tail));
    lemma_contains_middle(preamble() + "# AUDIO PROFILE: "@ + pr, "\n\n## THE SCENE\n"@ + sc + "\n\n### DIRECTOR'S NOTES\n"@, "Style: "@ + st + "\nPacing: "@ + pa + "\nAccent: "@ + ac + "\nLanguage: "@ + la + "\nReliability: Keep the selected voice and written tone aligned. Use tags sparingly; tags should modify delivery, not replace a coherent transcript."@ + tail);
}

#[verifier::rlimit(40)]
proof fn lemma_style_in_structured(t: Seq<char>, d: DirectionView, c: ConfigView)
    ensures
        seq_contains(structured_text(t, d, c), "Style: "@ + or_default(d.style, c.style) + "\nPacing: "@),
{
    let pr = or_default(d.profile, c.profile);
    let sc = or_default(d.scene, c.scene);
    let st = or_default(d.style, c.style);
    let pa = or_default(d.pace, c.pace);
    let ac = or_default(d.accent, c.accent);
    let la = or_default(d.language, c.language);
    let tail = (if d.tags.len() > 0 {
        "\nUseful inline tags for this script: "@ + join(d.tags, " "@)
    } else {
        Seq::empty()
    }) + (if d.speakers.len() > 0 {
        "\n\n### CAST\n"@ + cast_text(d.speakers)
    } else {
        Seq::empty()
    }) + "\n\n#### TRANSCRIPT\n"@ + trim(t);
    assert(structured_text(t, d, c) =~= (preamble() + "# AUDIO PROFILE: "@ + pr + "\n\n## THE SCENE\n"@ + sc + "\n\n### DIRECTOR'S NOTES\n"@) + ("Style: "@ + st + "\nPacing: "@) + (pa + "\nAccent: "@ + ac + "\nLanguage: "@ + la + "\nReliability: Keep the selected voice and written tone aligned. Use tags sparingly; tags should modify delivery, not replace a coherent transcript."@ + tail));
    lemma_contains_middle(preamble() + "# AUDIO PROFILE: "@ + pr + "\n\n## THE SCENE\n"@ + sc + "\n\n### DIRECTOR'S NOTES\n"@, "Style: "@ + st + "\nPacing: "@, pa + "\nAccent: "@ + ac + "\nLanguage: "@ + la + "\nReliability: Keep the selected voice and written tone aligned. Use tags sparingly; tags should modify delivery, not replace a coherent transcript."@ + tail);
}

#[verifier::rlimit(40)]
proof fn lemma_pace_in_structured(t: Seq<char>, d: DirectionView, c: ConfigView)
    ensures
        seq_contains(structured_text(t, d, c), "\nPacing: "@ + or_default(d.pace, c.pace) + "\nAccent: "@),
{
    let pr = or_default(d.profile, c.profile);
    let sc = or_default(d.scene, c.scene);
    let st = or_default(d.style, c.style);
    let pa = or_default(d.pace, c.pace);
    let ac = or_default(d.accent, c.accent);
    let la = or_default(d.language, c.language);
    let tail = (if d.tags.len() > 0 {
        "\nUseful inline tags for this script: "@ + join(d.tags, " "@)
    } else {
        Seq::empty()
    }) + (if d.speakers.len() > 0 {
        "\n\n### CAST\n"@ + cast_text(d.speakers)
    } else {
        Seq::empty()
    }) + "\n\n#### TRANSCRIPT\n"@ + trim(t);
    assert(structured_text(t, d, c) =~= (preamble() + "# AUDIO PROFILE: "@ + pr + "\n\n## THE SCENE\n"@ + sc + "\n\n### DIRECTOR'S NOTES\n"@ + "Style: "@ + st) + ("\nPacing: "@ + pa + "\nAccent: "@) + (ac + "\nLanguage: "@ + la + "\nReliability: Keep the selected voice and written tone aligned. Use tags sparingly; tags should modify delivery, not replace a coherent transcript."@ + tail));
    lemma_contains_middle(preamble() + "# AUDIO PROFILE: "@ + pr + "\n\n## THE SCENE\n"@ + sc + "\n\n### DIRECTOR'S NOTES\n"@ + "Style: "@ + st, "\nPacing: "@ + pa + "\nAccent: "@, ac + "\nLanguage: "@ + la + "\nReliability: Keep the selected voice and written tone aligned. Use tags sparingly; tags should modify delivery, not replace a coherent transcript."@ + tail);
}

#[verifier::rlimit(40)]
proof fn lemma_accent_in_structured(t: Seq<char>, d: DirectionView, c: ConfigView)
    ensures
        seq_contains(structured_text(t, d, c), "\nAccent: "@ + or_default(d.accent, c.accent) + "\nLanguage: "@),
{
    let pr = or_default(d.profile, c.profile);
    let sc = or_default(d.scene, c.scene);
    let st = or_default(d.style, c.style);
    let pa = or_default(d.pace, c.pace);
    let ac = or_default(d.accent, c.accent);
    let la = or_default(d.language, c.language);
    let tail = (if d.tags.len() > 0 {
        "\nUseful inline tags for this script: "@ + join(d.tags, " "@)
    } else {
        Seq::empty()
    }) + (if d.speakers.len() > 0 {
        "\n\n### CAST\n"@ + cast_text(d.speakers)
    } else {
        Seq::empty()
    }) + "\n\n#### TRANSCRIPT\n"@ + trim(t);
    assert(structured_text(t, d, c) =~= (preamble() + "# AUDIO PROFILE: "@ + pr + "\n\n## THE SCENE\n"@ + sc + "\n\n### DIRECTOR'S NOTES\n"@ + "Style: "@ + st + "\nPacing: "@ + pa) + ("\nAccent: "@ + ac + "\nLanguage: "@) + (la + "\nReliability: Keep the selected voice and written tone aligned. Use tags sparingly; tags should modify delivery, not replace a coherent transcript."@ + tail));
    lemma_contains_middle(preamble() + "# AUDIO PROFILE: "@ + pr + "\n\n## THE SCENE\n"@ + sc + "\n\n### DIRECTOR'S NOTES\n"@ + "Style: "@ + st + "\nPacing: "@ + pa, "\nAccent: "@ + ac + "\nLanguage: "@, la + "\nReliability: Keep the selected voice and written tone aligned. Use tags sparingly; tags should modify delivery, not replace a coherent transcript."@ + tail);
}

#[verifier::rlimit(40)]
proof fn lemma_language_in_structured(t: Seq<char>, d: DirectionView, c: ConfigView)
    ensures
        seq_contains(structured_text(t, d, c), "\nLanguage: "@ + or_default(d.language, c.language) + "\nReliability: Keep the selected voice and written tone aligned. Use tags sparingly; tags should modify delivery, not replace a coherent transcript."@),
{
    let pr = or_default(d.profile, c.profile);
    let sc = or_default(d.scene, c.scene);
    let st = or_default(d.style, c.style);
    let pa = or_default(d.pace, c.pace);
    let ac = or_default(d.accent, c.accent);
    let la = or_default(d.language, c.language);
    let tail = (if d.tags.len() > 0 {
        "\nUseful inline tags for this script: "@ + join(d.tags, " "@)
    } else {
        Seq::empty()
    }) + (if d.speakers.len() > 0 {
        "\n\n### CAST\n"@ + cast_text(d.speakers)
    } else {
        Seq::empty()
    }) + "\n\n#### TRANSCRIPT\n"@ + trim(t);
    assert(structured_text(t, d, c) =~= (preamble() + "# AUDIO PROFILE: "@ + pr + "\n\n## THE SCENE\n"@ + sc + "\n\n### DIRECTOR'S NOTES\n"@ + "Style: "@ + st + "\nPacing: "@ + pa + "\nAccent: "@ + ac) + ("\nLanguage: "@ + la + "\nReliability: Keep the selected voice and written tone aligned. Use tags sparingly; tags should modify delivery, not replace a coherent transcript."@) + (tail));
    lemma_contains_middle(preamble() + "# AUDIO PROFILE: "@ + pr + "\n\n## THE SCENE\n"@ + sc + "\n\n### DIRECTOR'S NOTES\n"@ + "Style: "@ + st + "\nPacing: "@ + pa + "\nAccent: "@ + ac, "\nLanguage: "@ + la + "\nReliability: Keep the selected voice and written tone aligned. Use tags sparingly; tags should modify delivery, not replace a coherent transcript."@, tail);
}

/// Every direction field that is given appears in the structured prompt in
/// its place among the director's notes; a field not given is replaced by
/// the configured default.
pub proof fn given_direction_overrides_defaults(t: Seq<char>, d: DirectionView, c: ConfigView)
    ensures
        seq_contains(structured_text(t, d, c), "# AUDIO PROFILE: "@ + (match d.profile {
            Some(v) => v,
            None => c.profile,
        }) + "\n\n## THE SCENE\n"@),
        seq_contains(structured_text(t, d, c), "\n\n## THE SCENE\n"@ + (match d.scene {
            Some(v) => v,
            None => c.scene,
        }) + "\n\n### DIRECTOR'S NOTES\n"@),
        seq_contains(structured_text(t, d, c), "Style: "@ + (match d.style {
            Some(v) => v,
            None => c.style,
        }) + "\nPacing: "@),
        seq_contains(structured_text(t, d, c), "\nPacing: "@ + (match d.pace {
            Some(v) => v,
            None => c.pace,
        }) + "\nAccent: "@),
        seq_contains(structured_text(t, d, c), "\nAccent: "@ + (match d.accent {
            Some(v) => v,
            None => c.accent,
        }) + "\nLanguage: "@),
        seq_contains(structured_text(t, d, c), "\nLanguage: "@ + (match d.language {
            Some(v) => v,
            None => c.language,
        }) + "\nReliability: Keep the selected voice and written tone aligned. Use tags sparingly; tags should modify delivery, not replace a coherent transcript."@),
{
    lemma_profile_in_structured(t, d, c);
    lemma_scene_in_structured(t, d, c);
    lemma_style_in_structured(t, d, c);
    lemma_pace_in_structured(t, d, c);
    lemma_accent_in_structured(t, d, c);
    lemma_language_in_structured(t, d, c);
}

/// A `speak` request builds the structured prompt exactly when it is not
/// raw, its transcript does not already look structured, and it gives some
/// direction: a profile, scene, style, pace, accent, language, a tag, or a
/// cast; a cast then appears as cast notes. Otherwise the transcript itself
/// is the prompt.
pub proof fn direction_selects_structured_speak(
    b: PromptBuild,
    t: Seq<char>,
    args: SpeakArgs,
    sp: Seq<(Seq<char>, Seq<char>)>,
    c: ConfigView,
)
    requires
        is_speak_build(b, t, args, sp, c),
    ensures
        ({
            let given = args.profile is Some || args.scene is Some || args.style is Some || args.pace is Some
                || args.accent is Some || args.language is Some || args.tag@.len() > 0 || sp.len() > 0;
            &&& (!args.raw && !looks_structured_spec(t) && given) ==> b.structured
            &&& (!args.raw && !looks_structured_spec(t) && sp.len() > 0) ==> seq_contains(b.prompt@, "\n\n### CAST\n"@)
            &&& !(!args.raw && !looks_structured_spec(t) && given) ==> !b.structured && b.prompt@ == t
        }),
{
    if !args.raw && !looks_structured_spec(t) && sp.len() > 0 {
        let d = speak_direction(args, sp);
        assert(views(args.tag@).len() == args.tag@.len());
        let x = preamble() + "# AUDIO PROFILE: "@ + or_default(d.profile, c.profile) + "\n\n## THE SCENE\n"@
            + or_default(d.scene, c.scene) + "\n\n### DIRECTOR'S NOTES\n"@ + "Style: "@ + or_default(d.style, c.style)
            + "\nPacing: "@ + or_default(d.pace, c.pace) + "\nAccent: "@ + or_default(d.accent, c.accent)
            + "\nLanguage: "@ + or_default(d.language, c.language)
            + "\nReliability: Keep the selected voice and written tone aligned. Use tags sparingly; tags should modify delivery, not replace a coherent transcript."@
            + (if d.tags.len() > 0 {
            "\nUseful inline tags for this script: "@ + join(d.tags, " "@)
        } else {
            Seq::empty()
        });
        let y = cast_text(d.speakers) + "\n\n#### TRANSCRIPT\n"@ + trim(t);
        assert(structured_text(t, d, c) =~= x + "\n\n### CAST\n"@ + y);
        lemma_contains_middle(x, "\n\n### CAST\n"@, y);
    }
    assert(views(args.tag@).len() == args.tag@.len());
}

/// Builds the prompt for `speak`: the transcript itself when `--raw` is set,
/// when no direction is given, or when it already looks structured;
/// otherwise the structured prompt.
pub fn build_for_speak(transcript: &str, args: &SpeakArgs, config: &AppConfig) -> (r: Result<PromptBuild, AppError>)
    ensures
        match speakers_spec(views(args.speaker@)) {
            Err(msg) => r matches Err(AppError::InvalidInput(m)) && m@ == msg,
            Ok(sp) => r matches Ok(b) && is_speak_build(b, transcript@, *args, sp, config@),
        },
{
    let direction = Direction::from_speak(args, config)?;
    if args.raw || !direction.has_explicit_direction() || looks_structured(transcript) {
        return Ok(raw_prompt(transcript, direction.speakers));
    }
    Ok(structured_prompt(transcript, &direction, config))
}

/// Builds the structured prompt for `script`.
pub fn build_for_script(transcript: &str, args: &ScriptArgs, config: &AppConfig) -> (r: Result<PromptBuild, AppError>)
    ensures
        match speakers_spec(views(args.speaker@)) {
            Err(msg) => r matches Err(AppError::InvalidInput(m)) && m@ == msg,
            Ok(sp) => r matches Ok(b) && is_structured_build(b, transcript@, script_direction(*args, sp), config@),
        },
{
    let direction = Direction::from_script(args, config)?;
    Ok(structured_prompt(transcript, &direction, config))
}

/// Inline text to speak: trimmed, and not empty.
pub fn inline_text(text: &str) -> (r: Result<String, AppError>)
    ensures
        trim(text@).len() == 0 ==> (r matches Err(AppError::InvalidInput(m)) && m@ == "text cannot be empty"@),
        trim(text@).len() > 0 ==> (r matches Ok(t) && t@ == trim(text@)),
{
    let t = trim_str(text);
    if to_chars(t.as_str()).len() == 0 {
        return Err(AppError::InvalidInput(owned("text cannot be empty")));
    }
    Ok(t)
}

} // verus!

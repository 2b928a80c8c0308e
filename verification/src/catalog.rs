//! Built-in catalogs of Gemini voices, inline tags, languages and prompt
//! recipes, with search and recommendation over them.

use vstd::prelude::*;
use crate::cli::{TagCategory, category_variant_name};
use crate::error::AppError;
use crate::text::{
    lower, seq_contains, join, to_chars, lower_chars, chars_contains, chars_eq, push_str, owned,
    debug_str, debug_quoted, lemma_filter_take_step, lemma_filter_take_zero, seq_less, chars_less,
    lemma_seq_less_transitive, lemma_seq_less_total,
    lemma_seq_less_asymmetric, occurs_at, lower_char,
};

verus! {

/// A prebuilt Gemini voice with practical guidance.
#[derive(Clone, Copy, Debug)]
pub struct Voice {
    pub name: &'static str,
    pub character: &'static str,
    pub best_for: &'static str,
    pub notes: &'static str,
}

/// An inline audio tag.
#[derive(Clone, Copy, Debug)]
pub struct Tag {
    pub tag: &'static str,
    pub category: TagCategory,
    pub use_for: &'static str,
    pub example: &'static str,
}

/// A language and locale hint.
#[derive(Clone, Copy, Debug)]
pub struct Language {
    pub code: &'static str,
    pub name: &'static str,
    pub hint: &'static str,
}

/// A ready-to-use prompt recipe.
#[derive(Clone, Copy, Debug)]
pub struct Recipe {
    pub name: &'static str,
    pub use_case: &'static str,
    pub voice_hints: &'static [&'static str],
    pub prompt: &'static str,
}

/// The prebuilt Gemini voices, in catalog order.
pub open spec fn voice_table() -> Seq<Voice> {
    seq![
        Voice {
            name: "Achernar",
            character: "soft",
            best_for: "intimate narration, sleep, calm explanations",
            notes: "Good when harsh energy would be distracting.",
        },
        Voice {
            name: "Achird",
            character: "friendly",
            best_for: "warm assistants, explainers, community updates",
            notes: "Approachable and plain-spoken.",
        },
        Voice {
            name: "Algenib",
            character: "gravelly",
            best_for: "dramatic reads, trailers, characterful narration",
            notes: "Useful for grit, noir, and texture.",
        },
        Voice {
            name: "Algieba",
            character: "smooth",
            best_for: "premium brand reads, polished voiceover",
            notes: "Controlled and easy to listen to.",
        },
        Voice {
            name: "Alnilam",
            character: "firm",
            best_for: "instructions, warnings, operational narration",
            notes: "Use when authority matters more than warmth.",
        },
        Voice {
            name: "Aoede",
            character: "breezy",
            best_for: "lifestyle, casual walkthroughs, upbeat narration",
            notes: "Light and open without too much intensity.",
        },
        Voice {
            name: "Autonoe",
            character: "bright",
            best_for: "short tutorials, product updates, energetic notes",
            notes: "Good default for positive clarity.",
        },
        Voice {
            name: "Callirrhoe",
            character: "easy-going",
            best_for: "conversational scripts, relaxed explainers",
            notes: "Useful for natural unscripted-feeling reads.",
        },
        Voice {
            name: "Charon",
            character: "informative",
            best_for: "news, documentary, factual narration",
            notes: "Steady information delivery.",
        },
        Voice {
            name: "Despina",
            character: "smooth",
            best_for: "audiobook, reflective essays, calm persuasion",
            notes: "Works well with slower pacing.",
        },
        Voice {
            name: "Enceladus",
            character: "breathy",
            best_for: "tired, intimate, vulnerable, soft-spoken reads",
            notes: "Pairs well with tired/bored/whispered directions.",
        },
        Voice {
            name: "Erinome",
            character: "clear",
            best_for: "technical explainers, agent output, educational narration",
            notes: "Prioritize this when comprehension matters.",
        },
        Voice {
            name: "Fenrir",
            character: "excitable",
            best_for: "promos, hooks, high-energy character lines",
            notes: "Can carry excitement without many tags.",
        },
        Voice {
            name: "Gacrux",
            character: "mature",
            best_for: "serious narration, trust-building, institutional audio",
            notes: "Use for gravitas and restraint.",
        },
        Voice {
            name: "Iapetus",
            character: "clear",
            best_for: "instructions, training, summaries, documentation",
            notes: "Reliable for dense material.",
        },
        Voice {
            name: "Kore",
            character: "firm",
            best_for: "default agent output, concise narration, confident lines",
            notes: "Strong default when you do not know the desired persona.",
        },
        Voice {
            name: "Laomedeia",
            character: "upbeat",
            best_for: "podcast intros, ads, friendly announcements",
            notes: "Good with excited and cheerful tags.",
        },
        Voice {
            name: "Leda",
            character: "youthful",
            best_for: "casual characters, playful explainers, social scripts",
            notes: "Best when the text itself sounds young and informal.",
        },
        Voice {
            name: "Orus",
            character: "firm",
            best_for: "direct instructions, crisp authoritative reads",
            notes: "Similar use case to Kore and Alnilam.",
        },
        Voice {
            name: "Puck",
            character: "upbeat",
            best_for: "energetic dialogue, excited hosts, quick demos",
            notes: "Strong for happy/excited contrast in multi-speaker scripts.",
        },
        Voice {
            name: "Pulcherrima",
            character: "forward",
            best_for: "confident promos, clear calls to action",
            notes: "Good when the read should lead the listener.",
        },
        Voice {
            name: "Rasalgethi",
            character: "informative",
            best_for: "documentary, factual scripts, guided explainers",
            notes: "Use for neutral authority.",
        },
        Voice {
            name: "Sadachbia",
            character: "lively",
            best_for: "dynamic explainers, social clips, upbeat teaching",
            notes: "Good for motion without sounding frantic.",
        },
        Voice {
            name: "Sadaltager",
            character: "knowledgeable",
            best_for: "expert narration, lectures, technical material",
            notes: "Good for credible specialist voices.",
        },
        Voice {
            name: "Schedar",
            character: "even",
            best_for: "long-form narration, audiobooks, stable reads",
            notes: "Use when consistency is more important than color.",
        },
        Voice {
            name: "Sulafat",
            character: "warm",
            best_for: "reassuring explanations, patient-facing content",
            notes: "Good with empathy and calm tags.",
        },
        Voice {
            name: "Umbriel",
            character: "easy-going",
            best_for: "casual assistant, low-friction narration",
            notes: "Works well for simple status updates.",
        },
        Voice {
            name: "Vindemiatrix",
            character: "gentle",
            best_for: "careful guidance, reflective narration",
            notes: "Good for sensitive or supportive scripts.",
        },
        Voice {
            name: "Zephyr",
            character: "bright",
            best_for: "short upbeat messages, crisp announcements",
            notes: "A good alternative to Puck for lighter reads.",
        },
        Voice {
            name: "Zubenelgenubi",
            character: "casual",
            best_for: "natural social reads, relaxed demos",
            notes: "Use when a polished narrator would feel too stiff.",
        },
    ]
}

/// The prebuilt Gemini voices, in catalog order.
pub fn voices() -> (res: Vec<Voice>)
    ensures
        res@ == voice_table(),
{
    let res = vec![
        Voice {
            name: "Achernar",
            character: "soft",
            best_for: "intimate narration, sleep, calm explanations",
            notes: "Good when harsh energy would be distracting.",
        },
        Voice {
            name: "Achird",
            character: "friendly",
            best_for: "warm assistants, explainers, community updates",
            notes: "Approachable and plain-spoken.",
        },
        Voice {
            name: "Algenib",
            character: "gravelly",
            best_for: "dramatic reads, trailers, characterful narration",
            notes: "Useful for grit, noir, and texture.",
        },
        Voice {
            name: "Algieba",
            character: "smooth",
            best_for: "premium brand reads, polished voiceover",
            notes: "Controlled and easy to listen to.",
        },
        Voice {
            name: "Alnilam",
            character: "firm",
            best_for: "instructions, warnings, operational narration",
            notes: "Use when authority matters more than warmth.",
        },
        Voice {
            name: "Aoede",
            character: "breezy",
            best_for: "lifestyle, casual walkthroughs, upbeat narration",
            notes: "Light and open without too much intensity.",
        },
        Voice {
            name: "Autonoe",
            character: "bright",
            best_for: "short tutorials, product updates, energetic notes",
            notes: "Good default for positive clarity.",
        },
        Voice {
            name: "Callirrhoe",
            character: "easy-going",
            best_for: "conversational scripts, relaxed explainers",
            notes: "Useful for natural unscripted-feeling reads.",
        },
        Voice {
            name: "Charon",
            character: "informative",
            best_for: "news, documentary, factual narration",
            notes: "Steady information delivery.",
        },
        Voice {
            name: "Despina",
            character: "smooth",
            best_for: "audiobook, reflective essays, calm persuasion",
            notes: "Works well with slower pacing.",
        },
        Voice {
            name: "Enceladus",
            character: "breathy",
            best_for: "tired, intimate, vulnerable, soft-spoken reads",
            notes: "Pairs well with tired/bored/whispered directions.",
        },
        Voice {
            name: "Erinome",
            character: "clear",
            best_for: "technical explainers, agent output, educational narration",
            notes: "Prioritize this when comprehension matters.",
        },
        Voice {
            name: "Fenrir",
            character: "excitable",
            best_for: "promos, hooks, high-energy character lines",
            notes: "Can carry excitement without many tags.",
        },
        Voice {
            name: "Gacrux",
            character: "mature",
            best_for: "serious narration, trust-building, institutional audio",
            notes: "Use for gravitas and restraint.",
        },
        Voice {
            name: "Iapetus",
            character: "clear",
            best_for: "instructions, training, summaries, documentation",
            notes: "Reliable for dense material.",
        },
        Voice {
            name: "Kore",
            character: "firm",
            best_for: "default agent output, concise narration, confident lines",
            notes: "Strong default when you do not know the desired persona.",
        },
        Voice {
            name: "Laomedeia",
            character: "upbeat",
            best_for: "podcast intros, ads, friendly announcements",
            notes: "Good with excited and cheerful tags.",
        },
        Voice {
            name: "Leda",
            character: "youthful",
            best_for: "casual characters, playful explainers, social scripts",
            notes: "Best when the text itself sounds young and informal.",
        },
        Voice {
            name: "Orus",
            character: "firm",
            best_for: "direct instructions, crisp authoritative reads",
            notes: "Similar use case to Kore and Alnilam.",
        },
        Voice {
            name: "Puck",
            character: "upbeat",
            best_for: "energetic dialogue, excited hosts, quick demos",
            notes: "Strong for happy/excited contrast in multi-speaker scripts.",
        },
        Voice {
            name: "Pulcherrima",
            character: "forward",
            best_for: "confident promos, clear calls to action",
            notes: "Good when the read should lead the listener.",
        },
        Voice {
            name: "Rasalgethi",
            character: "informative",
            best_for: "documentary, factual scripts, guided explainers",
            notes: "Use for neutral authority.",
        },
        Voice {
            name: "Sadachbia",
            character: "lively",
            best_for: "dynamic explainers, social clips, upbeat teaching",
            notes: "Good for motion without sounding frantic.",
        },
        Voice {
            name: "Sadaltager",
            character: "knowledgeable",
            best_for: "expert narration, lectures, technical material",
            notes: "Good for credible specialist voices.",
        },
        Voice {
            name: "Schedar",
            character: "even",
            best_for: "long-form narration, audiobooks, stable reads",
            notes: "Use when consistency is more important than color.",
        },
        Voice {
            name: "Sulafat",
            character: "warm",
            best_for: "reassuring explanations, patient-facing content",
            notes: "Good with empathy and calm tags.",
        },
        Voice {
            name: "Umbriel",
            character: "easy-going",
            best_for: "casual assistant, low-friction narration",
            notes: "Works well for simple status updates.",
        },
        Voice {
            name: "Vindemiatrix",
            character: "gentle",
            best_for: "careful guidance, reflective narration",
            notes: "Good for sensitive or supportive scripts.",
        },
        Voice {
            name: "Zephyr",
            character: "bright",
            best_for: "short upbeat messages, crisp announcements",
            notes: "A good alternative to Puck for lighter reads.",
        },
        Voice {
            name: "Zubenelgenubi",
            character: "casual",
            best_for: "natural social reads, relaxed demos",
            notes: "Use when a polished narrator would feel too stiff.",
        },
    ];
    assert(res@ =~= voice_table());
    res
}

/// The inline audio tags, in catalog order.
pub open spec fn tag_table() -> Seq<Tag> {
    seq![
        Tag {
            tag: "[excitedly]",
            category: TagCategory::Emotion,
            use_for: "positive energy and launch momentum",
            example: "[excitedly] This is the part you have been waiting for.",
        },
        Tag {
            tag: "[warmly]",
            category: TagCategory::Emotion,
            use_for: "kind, human, reassuring delivery",
            example: "[warmly] You did the right thing by checking first.",
        },
        Tag {
            tag: "[serious]",
            category: TagCategory::Emotion,
            use_for: "remove playfulness and focus attention",
            example: "[serious] This next step matters.",
        },
        Tag {
            tag: "[sarcastically]",
            category: TagCategory::Emotion,
            use_for: "dry emphasis or comedic contrast",
            example: "[sarcastically] Brilliant, another login screen.",
        },
        Tag {
            tag: "[mischievously]",
            category: TagCategory::Emotion,
            use_for: "playful reveal or character line",
            example: "[mischievously] I may have one more trick.",
        },
        Tag {
            tag: "[panicked]",
            category: TagCategory::Emotion,
            use_for: "high urgency, alarm, frantic dialogue",
            example: "[panicked] Wait, stop the upload.",
        },
        Tag {
            tag: "[tired]",
            category: TagCategory::Emotion,
            use_for: "fatigue, boredom, end-of-day delivery",
            example: "[tired] We can fix the build in the morning.",
        },
        Tag {
            tag: "[crying]",
            category: TagCategory::Emotion,
            use_for: "sadness or overwhelmed character dialogue",
            example: "[crying] I did not think anyone remembered.",
        },
        Tag {
            tag: "[very fast]",
            category: TagCategory::Pace,
            use_for: "rapid promo, urgency, comedic speed",
            example: "[very fast] Terms apply, check the repo, ship the patch.",
        },
        Tag {
            tag: "[very slow]",
            category: TagCategory::Pace,
            use_for: "dramatic emphasis or careful instruction",
            example: "[very slow] Do not delete the production database.",
        },
        Tag {
            tag: "[one painfully slow word at a time]",
            category: TagCategory::Pace,
            use_for: "comic frustration or heavy emphasis",
            example: "[one painfully slow word at a time] Read. The. Error. Message.",
        },
        Tag {
            tag: "[shouting]",
            category: TagCategory::Volume,
            use_for: "projected emphasis, not necessarily anger",
            example: "[shouting] Turn this up.",
        },
        Tag {
            tag: "[whispers]",
            category: TagCategory::Volume,
            use_for: "quiet aside, suspense, intimacy",
            example: "[whispers] This is the hidden part.",
        },
        Tag {
            tag: "[softly]",
            category: TagCategory::Volume,
            use_for: "gentle or close-mic delivery",
            example: "[softly] Take a breath before the next step.",
        },
        Tag {
            tag: "[short pause]",
            category: TagCategory::Pause,
            use_for: "small rhythmic pause",
            example: "First, check the key. [short pause] Then run doctor.",
        },
        Tag {
            tag: "[medium pause]",
            category: TagCategory::Pause,
            use_for: "sentence-level separation",
            example: "The audio is ready. [medium pause] Now listen once.",
        },
        Tag {
            tag: "[long pause]",
            category: TagCategory::Pause,
            use_for: "dramatic beat or section break",
            example: "Everything went quiet. [long pause] Then the alert fired.",
        },
        Tag {
            tag: "[laughs]",
            category: TagCategory::Nonverbal,
            use_for: "humanizing amusement",
            example: "[laughs] No, that is not how OAuth works.",
        },
        Tag {
            tag: "[giggles]",
            category: TagCategory::Nonverbal,
            use_for: "light, playful amusement",
            example: "[giggles] Fine, that one was actually clever.",
        },
        Tag {
            tag: "[sighs]",
            category: TagCategory::Nonverbal,
            use_for: "resignation, fatigue, realism",
            example: "[sighs] We need to update the token again.",
        },
        Tag {
            tag: "[gasp]",
            category: TagCategory::Nonverbal,
            use_for: "surprise or sudden realization",
            example: "[gasp] The preview deploy is public.",
        },
        Tag {
            tag: "[cough]",
            category: TagCategory::Nonverbal,
            use_for: "awkwardness, interruption, character texture",
            example: "[cough] Maybe do not ship that comment.",
        },
        Tag {
            tag: "[like a radio DJ]",
            category: TagCategory::Character,
            use_for: "high-energy announcer delivery",
            example: "[like a radio DJ] Good morning London.",
        },
        Tag {
            tag: "[like a documentary narrator]",
            category: TagCategory::Character,
            use_for: "measured informative storytelling",
            example: "[like a documentary narrator] The first commit seemed harmless.",
        },
        Tag {
            tag: "[like dracula]",
            category: TagCategory::Character,
            use_for: "gothic or theatrical character voice",
            example: "[like dracula] Welcome to the production logs.",
        },
        Tag {
            tag: "[British English accent]",
            category: TagCategory::Accent,
            use_for: "broad accent steer; specific accents work better",
            example: "[British English accent] The schedule has changed.",
        },
        Tag {
            tag: "[Croydon, England accent]",
            category: TagCategory::Accent,
            use_for: "specific regional accent direction",
            example: "[Croydon, England accent] Meet me at the station.",
        },
        Tag {
            tag: "[Southern California accent]",
            category: TagCategory::Accent,
            use_for: "bright US regional delivery",
            example: "[Southern California accent] That update is actually kind of perfect.",
        },
    ]
}

/// The inline audio tags, in catalog order.
pub fn tags() -> (res: Vec<Tag>)
    ensures
        res@ == tag_table(),
{
    let res = vec![
        Tag {
            tag: "[excitedly]",
            category: TagCategory::Emotion,
            use_for: "positive energy and launch momentum",
            example: "[excitedly] This is the part you have been waiting for.",
        },
        Tag {
            tag: "[warmly]",
            category: TagCategory::Emotion,
            use_for: "kind, human, reassuring delivery",
            example: "[warmly] You did the right thing by checking first.",
        },
        Tag {
            tag: "[serious]",
            category: TagCategory::Emotion,
            use_for: "remove playfulness and focus attention",
            example: "[serious] This next step matters.",
        },
        Tag {
            tag: "[sarcastically]",
            category: TagCategory::Emotion,
            use_for: "dry emphasis or comedic contrast",
            example: "[sarcastically] Brilliant, another login screen.",
        },
        Tag {
            tag: "[mischievously]",
            category: TagCategory::Emotion,
            use_for: "playful reveal or character line",
            example: "[mischievously] I may have one more trick.",
        },
        Tag {
            tag: "[panicked]",
            category: TagCategory::Emotion,
            use_for: "high urgency, alarm, frantic dialogue",
            example: "[panicked] Wait, stop the upload.",
        },
        Tag {
            tag: "[tired]",
            category: TagCategory::Emotion,
            use_for: "fatigue, boredom, end-of-day delivery",
            example: "[tired] We can fix the build in the morning.",
        },
        Tag {
            tag: "[crying]",
            category: TagCategory::Emotion,
            use_for: "sadness or overwhelmed character dialogue",
            example: "[crying] I did not think anyone remembered.",
        },
        Tag {
            tag: "[very fast]",
            category: TagCategory::Pace,
            use_for: "rapid promo, urgency, comedic speed",
            example: "[very fast] Terms apply, check the repo, ship the patch.",
        },
        Tag {
            tag: "[very slow]",
            category: TagCategory::Pace,
            use_for: "dramatic emphasis or careful instruction",
            example: "[very slow] Do not delete the production database.",
        },
        Tag {
            tag: "[one painfully slow word at a time]",
            category: TagCategory::Pace,
            use_for: "comic frustration or heavy emphasis",
            example: "[one painfully slow word at a time] Read. The. Error. Message.",
        },
        Tag {
            tag: "[shouting]",
            category: TagCategory::Volume,
            use_for: "projected emphasis, not necessarily anger",
            example: "[shouting] Turn this up.",
        },
        Tag {
            tag: "[whispers]",
            category: TagCategory::Volume,
            use_for: "quiet aside, suspense, intimacy",
            example: "[whispers] This is the hidden part.",
        },
        Tag {
            tag: "[softly]",
            category: TagCategory::Volume,
            use_for: "gentle or close-mic delivery",
            example: "[softly] Take a breath before the next step.",
        },
        Tag {
            tag: "[short pause]",
            category: TagCategory::Pause,
            use_for: "small rhythmic pause",
            example: "First, check the key. [short pause] Then run doctor.",
        },
        Tag {
            tag: "[medium pause]",
            category: TagCategory::Pause,
            use_for: "sentence-level separation",
            example: "The audio is ready. [medium pause] Now listen once.",
        },
        Tag {
            tag: "[long pause]",
            category: TagCategory::Pause,
            use_for: "dramatic beat or section break",
            example: "Everything went quiet. [long pause] Then the alert fired.",
        },
        Tag {
            tag: "[laughs]",
            category: TagCategory::Nonverbal,
            use_for: "humanizing amusement",
            example: "[laughs] No, that is not how OAuth works.",
        },
        Tag {
            tag: "[giggles]",
            category: TagCategory::Nonverbal,
            use_for: "light, playful amusement",
            example: "[giggles] Fine, that one was actually clever.",
        },
        Tag {
            tag: "[sighs]",
            category: TagCategory::Nonverbal,
            use_for: "resignation, fatigue, realism",
            example: "[sighs] We need to update the token again.",
        },
        Tag {
            tag: "[gasp]",
            category: TagCategory::Nonverbal,
            use_for: "surprise or sudden realization",
            example: "[gasp] The preview deploy is public.",
        },
        Tag {
            tag: "[cough]",
            category: TagCategory::Nonverbal,
            use_for: "awkwardness, interruption, character texture",
            example: "[cough] Maybe do not ship that comment.",
        },
        Tag {
            tag: "[like a radio DJ]",
            category: TagCategory::Character,
            use_for: "high-energy announcer delivery",
            example: "[like a radio DJ] Good morning London.",
        },
        Tag {
            tag: "[like a documentary narrator]",
            category: TagCategory::Character,
            use_for: "measured informative storytelling",
            example: "[like a documentary narrator] The first commit seemed harmless.",
        },
        Tag {
            tag: "[like dracula]",
            category: TagCategory::Character,
            use_for: "gothic or theatrical character voice",
            example: "[like dracula] Welcome to the production logs.",
        },
        Tag {
            tag: "[British English accent]",
            category: TagCategory::Accent,
            use_for: "broad accent steer; specific accents work better",
            example: "[British English accent] The schedule has changed.",
        },
        Tag {
            tag: "[Croydon, England accent]",
            category: TagCategory::Accent,
            use_for: "specific regional accent direction",
            example: "[Croydon, England accent] Meet me at the station.",
        },
        Tag {
            tag: "[Southern California accent]",
            category: TagCategory::Accent,
            use_for: "bright US regional delivery",
            example: "[Southern California accent] That update is actually kind of perfect.",
        },
    ];
    assert(res@ =~= tag_table());
    res
}

/// The language and locale hints, in catalog order.
pub open spec fn language_table() -> Seq<Language> {
    seq![
        Language {
            code: "af-za",
            name: "Afrikaans",
            hint: "Use English tags with Afrikaans transcript.",
        },
        Language {
            code: "am-et",
            name: "Amharic",
            hint: "Keep tags in English for best control.",
        },
        Language {
            code: "ar-001",
            name: "Arabic",
            hint: "General Arabic locale hint.",
        },
        Language {
            code: "ar-eg",
            name: "Arabic (Egypt)",
            hint: "Specify Egyptian Arabic if dialect matters.",
        },
        Language {
            code: "az-az",
            name: "Azerbaijani",
            hint: "Use a clear language note in director notes.",
        },
        Language {
            code: "bg-bg",
            name: "Bulgarian",
            hint: "Use English control tags.",
        },
        Language {
            code: "bn-bd",
            name: "Bengali",
            hint: "Use English tags with Bengali text.",
        },
        Language {
            code: "ca-es",
            name: "Catalan",
            hint: "Add region if accent matters.",
        },
        Language {
            code: "cmn-cn",
            name: "Chinese Mandarin (China)",
            hint: "Use Mandarin Chinese transcript.",
        },
        Language {
            code: "cmn-tw",
            name: "Chinese Mandarin (Taiwan)",
            hint: "Use Taiwan Mandarin phrasing.",
        },
        Language {
            code: "cs-cz",
            name: "Czech",
            hint: "Use English tags.",
        },
        Language {
            code: "da-dk",
            name: "Danish",
            hint: "Add Danish language note.",
        },
        Language {
            code: "de-de",
            name: "German",
            hint: "Specify standard German or regional accent.",
        },
        Language {
            code: "el-gr",
            name: "Greek",
            hint: "Use Greek transcript with English tags.",
        },
        Language {
            code: "en-au",
            name: "English (Australia)",
            hint: "Useful for Australian accent direction.",
        },
        Language {
            code: "en-gb",
            name: "English (United Kingdom)",
            hint: "Use with specific accent notes such as London or Croydon.",
        },
        Language {
            code: "en-in",
            name: "English (India)",
            hint: "Use with Indian English accent direction.",
        },
        Language {
            code: "en-us",
            name: "English (United States)",
            hint: "Default US English hint.",
        },
        Language {
            code: "es-419",
            name: "Spanish (Latin America)",
            hint: "General Latin American Spanish.",
        },
        Language {
            code: "es-es",
            name: "Spanish (Spain)",
            hint: "Castilian Spanish direction.",
        },
        Language {
            code: "es-mx",
            name: "Spanish (Mexico)",
            hint: "Mexican Spanish direction.",
        },
        Language {
            code: "es-us",
            name: "Spanish (United States)",
            hint: "US Spanish direction.",
        },
        Language {
            code: "fa-ir",
            name: "Persian",
            hint: "Use Persian transcript with English tags.",
        },
        Language {
            code: "fi-fi",
            name: "Finnish",
            hint: "Use English tags.",
        },
        Language {
            code: "fil-ph",
            name: "Filipino",
            hint: "Specify Filipino or Tagalog phrasing.",
        },
        Language {
            code: "fr-ca",
            name: "French (Canada)",
            hint: "Canadian French direction.",
        },
        Language {
            code: "fr-fr",
            name: "French (France)",
            hint: "French from France direction.",
        },
        Language {
            code: "he-il",
            name: "Hebrew",
            hint: "Use Hebrew transcript with English tags.",
        },
        Language {
            code: "hi-in",
            name: "Hindi",
            hint: "Hindi transcript with English tags.",
        },
        Language {
            code: "id-id",
            name: "Indonesian",
            hint: "Use Indonesian transcript.",
        },
        Language {
            code: "it-it",
            name: "Italian",
            hint: "Standard Italian direction.",
        },
        Language {
            code: "ja-jp",
            name: "Japanese",
            hint: "Japanese transcript with English tags.",
        },
        Language {
            code: "ko-kr",
            name: "Korean",
            hint: "Korean transcript with English tags.",
        },
        Language {
            code: "nl-nl",
            name: "Dutch",
            hint: "Dutch transcript.",
        },
        Language {
            code: "pl-pl",
            name: "Polish",
            hint: "Polish transcript.",
        },
        Language {
            code: "pt-br",
            name: "Portuguese (Brazil)",
            hint: "Brazilian Portuguese direction.",
        },
        Language {
            code: "pt-pt",
            name: "Portuguese (Portugal)",
            hint: "European Portuguese direction.",
        },
        Language {
            code: "ro-ro",
            name: "Romanian",
            hint: "Romanian transcript.",
        },
        Language {
            code: "ru-ru",
            name: "Russian",
            hint: "Russian transcript.",
        },
        Language {
            code: "sv-se",
            name: "Swedish",
            hint: "Swedish transcript.",
        },
        Language {
            code: "ta-in",
            name: "Tamil",
            hint: "Tamil transcript with English tags.",
        },
        Language {
            code: "te-in",
            name: "Telugu",
            hint: "Telugu transcript with English tags.",
        },
        Language {
            code: "th-th",
            name: "Thai",
            hint: "Thai transcript with English tags.",
        },
        Language {
            code: "tr-tr",
            name: "Turkish",
            hint: "Turkish transcript.",
        },
        Language {
            code: "uk-ua",
            name: "Ukrainian",
            hint: "Ukrainian transcript.",
        },
        Language {
            code: "ur-pk",
            name: "Urdu",
            hint: "Urdu transcript with English tags.",
        },
        Language {
            code: "vi-vn",
            name: "Vietnamese",
            hint: "Vietnamese transcript.",
        },
    ]
}

/// The language and locale hints, in catalog order.
pub fn languages() -> (res: Vec<Language>)
    ensures
        res@ == language_table(),
{
    let res = vec![
        Language {
            code: "af-za",
            name: "Afrikaans",
            hint: "Use English tags with Afrikaans transcript.",
        },
        Language {
            code: "am-et",
            name: "Amharic",
            hint: "Keep tags in English for best control.",
        },
        Language {
            code: "ar-001",
            name: "Arabic",
            hint: "General Arabic locale hint.",
        },
        Language {
            code: "ar-eg",
            name: "Arabic (Egypt)",
            hint: "Specify Egyptian Arabic if dialect matters.",
        },
        Language {
            code: "az-az",
            name: "Azerbaijani",
            hint: "Use a clear language note in director notes.",
        },
        Language {
            code: "bg-bg",
            name: "Bulgarian",
            hint: "Use English control tags.",
        },
        Language {
            code: "bn-bd",
            name: "Bengali",
            hint: "Use English tags with Bengali text.",
        },
        Language {
            code: "ca-es",
            name: "Catalan",
            hint: "Add region if accent matters.",
        },
        Language {
            code: "cmn-cn",
            name: "Chinese Mandarin (China)",
            hint: "Use Mandarin Chinese transcript.",
        },
        Language {
            code: "cmn-tw",
            name: "Chinese Mandarin (Taiwan)",
            hint: "Use Taiwan Mandarin phrasing.",
        },
        Language {
            code: "cs-cz",
            name: "Czech",
            hint: "Use English tags.",
        },
        Language {
            code: "da-dk",
            name: "Danish",
            hint: "Add Danish language note.",
        },
        Language {
            code: "de-de",
            name: "German",
            hint: "Specify standard German or regional accent.",
        },
        Language {
            code: "el-gr",
            name: "Greek",
            hint: "Use Greek transcript with English tags.",
        },
        Language {
            code: "en-au",
            name: "English (Australia)",
            hint: "Useful for Australian accent direction.",
        },
        Language {
            code: "en-gb",
            name: "English (United Kingdom)",
            hint: "Use with specific accent notes such as London or Croydon.",
        },
        Language {
            code: "en-in",
            name: "English (India)",
            hint: "Use with Indian English accent direction.",
        },
        Language {
            code: "en-us",
            name: "English (United States)",
            hint: "Default US English hint.",
        },
        Language {
            code: "es-419",
            name: "Spanish (Latin America)",
            hint: "General Latin American Spanish.",
        },
        Language {
            code: "es-es",
            name: "Spanish (Spain)",
            hint: "Castilian Spanish direction.",
        },
        Language {
            code: "es-mx",
            name: "Spanish (Mexico)",
            hint: "Mexican Spanish direction.",
        },
        Language {
            code: "es-us",
            name: "Spanish (United States)",
            hint: "US Spanish direction.",
        },
        Language {
            code: "fa-ir",
            name: "Persian",
            hint: "Use Persian transcript with English tags.",
        },
        Language {
            code: "fi-fi",
            name: "Finnish",
            hint: "Use English tags.",
        },
        Language {
            code: "fil-ph",
            name: "Filipino",
            hint: "Specify Filipino or Tagalog phrasing.",
        },
        Language {
            code: "fr-ca",
            name: "French (Canada)",
            hint: "Canadian French direction.",
        },
        Language {
            code: "fr-fr",
            name: "French (France)",
            hint: "French from France direction.",
        },
        Language {
            code: "he-il",
            name: "Hebrew",
            hint: "Use Hebrew transcript with English tags.",
        },
        Language {
            code: "hi-in",
            name: "Hindi",
            hint: "Hindi transcript with English tags.",
        },
        Language {
            code: "id-id",
            name: "Indonesian",
            hint: "Use Indonesian transcript.",
        },
        Language {
            code: "it-it",
            name: "Italian",
            hint: "Standard Italian direction.",
        },
        Language {
            code: "ja-jp",
            name: "Japanese",
            hint: "Japanese transcript with English tags.",
        },
        Language {
            code: "ko-kr",
            name: "Korean",
            hint: "Korean transcript with English tags.",
        },
        Language {
            code: "nl-nl",
            name: "Dutch",
            hint: "Dutch transcript.",
        },
        Language {
            code: "pl-pl",
            name: "Polish",
            hint: "Polish transcript.",
        },
        Language {
            code: "pt-br",
            name: "Portuguese (Brazil)",
            hint: "Brazilian Portuguese direction.",
        },
        Language {
            code: "pt-pt",
            name: "Portuguese (Portugal)",
            hint: "European Portuguese direction.",
        },
        Language {
            code: "ro-ro",
            name: "Romanian",
            hint: "Romanian transcript.",
        },
        Language {
            code: "ru-ru",
            name: "Russian",
            hint: "Russian transcript.",
        },
        Language {
            code: "sv-se",
            name: "Swedish",
            hint: "Swedish transcript.",
        },
        Language {
            code: "ta-in",
            name: "Tamil",
            hint: "Tamil transcript with English tags.",
        },
        Language {
            code: "te-in",
            name: "Telugu",
            hint: "Telugu transcript with English tags.",
        },
        Language {
            code: "th-th",
            name: "Thai",
            hint: "Thai transcript with English tags.",
        },
        Language {
            code: "tr-tr",
            name: "Turkish",
            hint: "Turkish transcript.",
        },
        Language {
            code: "uk-ua",
            name: "Ukrainian",
            hint: "Ukrainian transcript.",
        },
        Language {
            code: "ur-pk",
            name: "Urdu",
            hint: "Urdu transcript with English tags.",
        },
        Language {
            code: "vi-vn",
            name: "Vietnamese",
            hint: "Vietnamese transcript.",
        },
    ];
    assert(res@ =~= language_table());
    res
}

/// The prompt recipes, in catalog order.
pub open spec fn recipe_table() -> Seq<Recipe> {
    seq![
        Recipe {
            name: "agent-status",
            use_case: "Short agent status update that sounds clear but not theatrical.",
            voice_hints: &["Kore", "Erinome", "Iapetus"],
            prompt: "# AUDIO PROFILE: Precise agent narrator\n### DIRECTOR'S NOTES\nStyle: calm, useful, concise.\nPacing: medium-fast, no drama.\nAccent: neutral.\n#### TRANSCRIPT\n[clearly] Build passed. [short pause] Two checks still need review.",
        },
        Recipe {
            name: "podcast-dialogue",
            use_case: "Two-speaker podcast or explainer conversation.",
            voice_hints: &["Kore", "Puck", "Laomedeia"],
            prompt: "Use --speaker Host=Kore --speaker Guest=Puck and format transcript lines as Host: ... / Guest: ...",
        },
        Recipe {
            name: "audiobook",
            use_case: "Long-form narration where stability matters.",
            voice_hints: &["Schedar", "Despina", "Achernar"],
            prompt: "Style: grounded, intimate, emotionally restrained. Pacing: slower than normal with clean paragraph pauses. Tags: [softly], [long pause], [whispers] only at key moments.",
        },
        Recipe {
            name: "promo",
            use_case: "Fast short-form announcement or product launch.",
            voice_hints: &["Fenrir", "Puck", "Zephyr", "Pulcherrima"],
            prompt: "Style: infectious enthusiasm and vocal smile. Pacing: fast, punchy, no dead air. Tags: [excitedly], [shouting], [very fast], [short pause].",
        },
        Recipe {
            name: "sensitive-guidance",
            use_case: "Medical, personal, or careful support content.",
            voice_hints: &["Sulafat", "Vindemiatrix", "Achernar"],
            prompt: "Style: warm, careful, non-judgmental. Pacing: slow enough to process. Avoid jokes. Tags: [warmly], [softly], [short pause].",
        },
    ]
}

/// The prompt recipes, in catalog order.
pub fn recipes() -> (res: Vec<Recipe>)
    ensures
        res@ == recipe_table(),
{
    let res = vec![
        Recipe {
            name: "agent-status",
            use_case: "Short agent status update that sounds clear but not theatrical.",
            voice_hints: &["Kore", "Erinome", "Iapetus"],
            prompt: "# AUDIO PROFILE: Precise agent narrator\n### DIRECTOR'S NOTES\nStyle: calm, useful, concise.\nPacing: medium-fast, no drama.\nAccent: neutral.\n#### TRANSCRIPT\n[clearly] Build passed. [short pause] Two checks still need review.",
        },
        Recipe {
            name: "podcast-dialogue",
            use_case: "Two-speaker podcast or explainer conversation.",
            voice_hints: &["Kore", "Puck", "Laomedeia"],
            prompt: "Use --speaker Host=Kore --speaker Guest=Puck and format transcript lines as Host: ... / Guest: ...",
        },
        Recipe {
            name: "audiobook",
            use_case: "Long-form narration where stability matters.",
            voice_hints: &["Schedar", "Despina", "Achernar"],
            prompt: "Style: grounded, intimate, emotionally restrained. Pacing: slower than normal with clean paragraph pauses. Tags: [softly], [long pause], [whispers] only at key moments.",
        },
        Recipe {
            name: "promo",
            use_case: "Fast short-form announcement or product launch.",
            voice_hints: &["Fenrir", "Puck", "Zephyr", "Pulcherrima"],
            prompt: "Style: infectious enthusiasm and vocal smile. Pacing: fast, punchy, no dead air. Tags: [excitedly], [shouting], [very fast], [short pause].",
        },
        Recipe {
            name: "sensitive-guidance",
            use_case: "Medical, personal, or careful support content.",
            voice_hints: &["Sulafat", "Vindemiatrix", "Achernar"],
            prompt: "Style: warm, careful, non-judgmental. Pacing: slow enough to process. Avoid jokes. Tags: [warmly], [softly], [short pause].",
        },
    ];
    assert(res@ =~= recipe_table());
    res
}


/// The `h`-th voice hint of recipe `r` is catalog voice `v`.
pub open spec fn recipe_hint_is_voice(r: int, h: int, v: int) -> bool {
    0 <= v < voice_table().len() && voice_table()[v].name@ == recipe_table()[r].voice_hints@[h]@
}

/// Every recipe suggests at least one voice, every suggested voice is a
/// catalog voice, and the recipe names are distinct.
pub proof fn recipes_suggest_catalog_voices()
    ensures
        forall|r: int| 0 <= r < recipe_table().len() ==> (#[trigger] recipe_table()[r]).voice_hints@.len() > 0,
        forall|r: int, h: int|
            #![trigger recipe_table()[r].voice_hints@[h]]
            0 <= r < recipe_table().len() && 0 <= h < recipe_table()[r].voice_hints@.len() ==> exists|v: int|
                #[trigger] recipe_hint_is_voice(r, h, v),
        forall|x: int, y: int| 0 <= x < y < recipe_table().len() ==> (#[trigger] recipe_table()[x]).name@
            != (#[trigger] recipe_table()[y]).name@,
{
    assert(recipe_table()[0].voice_hints@.len() == 3);
    assert(recipe_hint_is_voice(0, 0, 15));
    assert(recipe_hint_is_voice(0, 1, 11));
    assert(recipe_hint_is_voice(0, 2, 14));
    assert(recipe_table()[1].voice_hints@.len() == 3);
    assert(recipe_hint_is_voice(1, 0, 15));
    assert(recipe_hint_is_voice(1, 1, 19));
    assert(recipe_hint_is_voice(1, 2, 16));
    assert(recipe_table()[2].voice_hints@.len() == 3);
    assert(recipe_hint_is_voice(2, 0, 24));
    assert(recipe_hint_is_voice(2, 1, 9));
    assert(recipe_hint_is_voice(2, 2, 0));
    assert(recipe_table()[3].voice_hints@.len() == 4);
    assert(recipe_hint_is_voice(3, 0, 12));
    assert(recipe_hint_is_voice(3, 1, 19));
    assert(recipe_hint_is_voice(3, 2, 28));
    assert(recipe_hint_is_voice(3, 3, 20));
    assert(recipe_table()[4].voice_hints@.len() == 3);
    assert(recipe_hint_is_voice(4, 0, 25));
    assert(recipe_hint_is_voice(4, 1, 27));
    assert(recipe_hint_is_voice(4, 2, 0));
    reveal_strlit("agent-status");
    reveal_strlit("podcast-dialogue");
    reveal_strlit("audiobook");
    reveal_strlit("promo");
    reveal_strlit("sensitive-guidance");
    assert forall|x: int, y: int| 0 <= x < y < recipe_table().len() implies (#[trigger] recipe_table()[x]).name@
        != (#[trigger] recipe_table()[y]).name@ by {
        let (a, b) = (recipe_table()[x].name@, recipe_table()[y].name@);
        assert(a.len() != b.len() || a[0] != b[0]);
    }
}

// ---------------------------------------------------------------------------
// Voice names
// ---------------------------------------------------------------------------

proof fn lemma_voice_names_step()
    ensures
        forall|i: int| 0 <= i < voice_table().len() - 1 ==> seq_less(
            #[trigger] voice_table()[i].name@,
            voice_table()[i + 1].name@,
        ),
{
    reveal_strlit("Achernar");
    reveal_strlit("Achird");
    reveal_strlit("Algenib");
    reveal_strlit("Algieba");
    reveal_strlit("Alnilam");
    reveal_strlit("Aoede");
    reveal_strlit("Autonoe");
    reveal_strlit("Callirrhoe");
    reveal_strlit("Charon");
    reveal_strlit("Despina");
    reveal_strlit("Enceladus");
    reveal_strlit("Erinome");
    reveal_strlit("Fenrir");
    reveal_strlit("Gacrux");
    reveal_strlit("Iapetus");
    reveal_strlit("Kore");
    reveal_strlit("Laomedeia");
    reveal_strlit("Leda");
    reveal_strlit("Orus");
    reveal_strlit("Puck");
    reveal_strlit("Pulcherrima");
    reveal_strlit("Rasalgethi");
    reveal_strlit("Sadachbia");
    reveal_strlit("Sadaltager");
    reveal_strlit("Schedar");
    reveal_strlit("Sulafat");
    reveal_strlit("Umbriel");
    reveal_strlit("Vindemiatrix");
    reveal_strlit("Zephyr");
    reveal_strlit("Zubenelgenubi");
    reveal_with_fuel(seq_less, 6);
}

proof fn lemma_voice_names_sorted_from(i: int, j: int)
    requires
        0 <= i < j < voice_table().len(),
    ensures
        seq_less(voice_table()[i].name@, voice_table()[j].name@),
    decreases j - i,
{
    lemma_voice_names_step();
    if j > i + 1 {
        lemma_voice_names_sorted_from(i, j - 1);
        assert(seq_less(voice_table()[j - 1].name@, voice_table()[j].name@));
        lemma_seq_less_transitive(voice_table()[i].name@, voice_table()[j - 1].name@, voice_table()[j].name@);
    }
}

/// The catalog lists its voices in strictly increasing name order, so no
/// two catalog voices share a name.
pub proof fn voice_names_are_sorted_and_distinct()
    ensures
        forall|i: int, j: int| 0 <= i < j < voice_table().len() ==> seq_less(
            #[trigger] voice_table()[i].name@,
            #[trigger] voice_table()[j].name@,
        ) && voice_table()[i].name@ != voice_table()[j].name@,
{
    assert forall|i: int, j: int| 0 <= i < j < voice_table().len() implies seq_less(
        #[trigger] voice_table()[i].name@,
        #[trigger] voice_table()[j].name@,
    ) && voice_table()[i].name@ != voice_table()[j].name@ by {
        lemma_voice_names_sorted_from(i, j);
        lemma_seq_less_asymmetric(voice_table()[i].name@, voice_table()[j].name@);
    }
}

/// The first catalog voice, among `t`, whose name equals `v` ignoring ASCII case.
pub open spec fn find_voice(t: Seq<Voice>, v: Seq<char>) -> Option<&'static str>
    decreases t.len(),
{
    if t.len() == 0 {
        None
    } else if lower(t[0].name@) == lower(v) {
        Some(t[0].name)
    } else {
        find_voice(t.drop_first(), v)
    }
}

/// The catalog spelling of a voice name given in any ASCII case.
pub open spec fn canonical_voice(v: Seq<char>) -> Option<&'static str> {
    find_voice(voice_table(), v)
}

/// The canonical name of a catalog voice, matched ignoring ASCII case; `None`
/// when the name is not a prebuilt voice.
pub fn canonical_voice_name(value: &str) -> (r: Option<&'static str>)
    ensures
        r == canonical_voice(value@),
{
    let table = voices();
    let v = lower_chars(&to_chars(value));
    let mut i: usize = 0;
    assert(voice_table().skip(0) =~= voice_table());
    while i < table.len()
        invariant
            table@ == voice_table(),
            v@ == lower(value@),
            i <= table.len(),
            find_voice(voice_table(), value@) == find_voice(voice_table().skip(i as int), value@),
        decreases table.len() - i,
    {
        assert(voice_table().skip(i as int).drop_first() =~= voice_table().skip(i + 1));
        let name = lower_chars(&to_chars(table[i].name));
        if chars_eq(&name, &v) {
            return Some(table[i].name);
        }
        i = i + 1;
    }
    None
}

/// The names of all catalog voices, in catalog order.
pub open spec fn voice_name_list() -> Seq<Seq<char>> {
    voice_table().map_values(|v: Voice| v.name@)
}

/// The names of all catalog voices.
pub fn voice_names() -> (res: Vec<&'static str>)
    ensures
        res@.map_values(|s: &'static str| s@) == voice_name_list(),
{
    let table = voices();
    let mut res: Vec<&'static str> = Vec::new();
    let mut i: usize = 0;
    while i < table.len()
        invariant
            table@ == voice_table(),
            i <= table.len(),
            res@.len() == i,
            forall|k: int| 0 <= k < i ==> #[trigger] res@[k] == table@[k].name,
        decreases table.len() - i,
    {
        res.push(table[i].name);
        i = i + 1;
    }
    assert(res@.map_values(|s: &'static str| s@) =~= voice_name_list());
    res
}

proof fn lemma_find_voice_ignores_case(t: Seq<Voice>, a: Seq<char>, b: Seq<char>)
    requires
        lower(a) == lower(b),
    ensures
        find_voice(t, a) == find_voice(t, b),
    decreases t.len(),
{
    if t.len() > 0 {
        lemma_find_voice_ignores_case(t.drop_first(), a, b);
    }
}

proof fn lemma_find_voice_matches(t: Seq<Voice>, v: Seq<char>)
    ensures
        match find_voice(t, v) {
            Some(n) => lower(n@) == lower(v),
            None => true,
        },
    decreases t.len(),
{
    if t.len() > 0 {
        lemma_find_voice_matches(t.drop_first(), v);
    }
}

/// A voice name is recognised in any ASCII case and answered in catalog
/// spelling, and that spelling is recognised as itself.
pub proof fn canonical_voice_is_stable(v: Seq<char>)
    ensures
        match canonical_voice(v) {
            Some(n) => lower(n@) == lower(v) && canonical_voice(n@) == Some(n),
            None => true,
        },
{
    lemma_find_voice_matches(voice_table(), v);
    if let Some(n) = canonical_voice(v) {
        lemma_find_voice_ignores_case(voice_table(), n@, v);
    }
}

/// The message listing every valid voice name.
pub open spec fn voice_list_text() -> Seq<char> {
    join(voice_name_list(), ", "@)
}

/// The error for a voice name that is not in the catalog.
pub open spec fn unsupported_voice_message(value: Seq<char>) -> Seq<char> {
    "unsupported Gemini TTS voice "@ + debug_str(value) + ". Valid voices: "@ + voice_list_text()
}

/// Reports an unsupported voice name, listing the valid ones.
pub fn unsupported_voice(value: &str) -> (r: AppError)
    ensures
        r matches AppError::InvalidInput(m) && m@ == unsupported_voice_message(value@),
{
    let names = voice_names();
    let mut m = owned("unsupported Gemini TTS voice ");
    let q = debug_quoted(value);
    push_str(&mut m, q.as_str());
    push_str(&mut m, ". Valid voices: ");
    let mut i: usize = 0;
    let ghost prefix = m@;
    while i < names.len()
        invariant
            i <= names.len(),
            names@.map_values(|s: &'static str| s@) == voice_name_list(),
            m@ == prefix + join(voice_name_list().take(i as int), ", "@),
        decreases names.len() - i,
    {
        if i != 0 {
            push_str(&mut m, ", ");
        }
        push_str(&mut m, names[i]);
        assert(voice_name_list().take(i + 1).drop_last() =~= voice_name_list().take(i as int));
        assert(voice_name_list()[i as int] == names@[i as int]@);
        i = i + 1;
    }
    assert(voice_name_list().take(names.len() as int) =~= voice_name_list());
    AppError::InvalidInput(m)
}

// ---------------------------------------------------------------------------
// Search
// ---------------------------------------------------------------------------

/// Case-insensitive (ASCII) substring match.
pub open spec fn matches_query(haystack: Seq<char>, query: Seq<char>) -> bool {
    seq_contains(lower(haystack), lower(query))
}

/// Whether `query` occurs in `haystack`, ignoring ASCII case.
pub fn filter_text(haystack: &str, query: &str) -> (r: bool)
    ensures
        r == matches_query(haystack@, query@),
{
    let h = lower_chars(&to_chars(haystack));
    let q = lower_chars(&to_chars(query));
    chars_contains(&h, &q)
}

/// The ASCII uppercase of one character.
pub open spec fn upper_char(c: char) -> char {
    if 'a' <= c && c <= 'z' {
        ((c as u32) - 32) as char
    } else {
        c
    }
}

/// The ASCII uppercase of a character sequence, as `str::to_ascii_uppercase`.
pub open spec fn upper(s: Seq<char>) -> Seq<char> {
    s.map_values(|c: char| upper_char(c))
}

proof fn lemma_lower_absorbs_case(s: Seq<char>)
    ensures
        lower(upper(s)) == lower(s),
        lower(lower(s)) == lower(s),
{
    assert forall|i: int| 0 <= i < s.len() implies lower_char(upper_char(s[i])) == lower_char(s[i])
        && lower_char(lower_char(s[i])) == lower_char(s[i]) by {
        let c = s[i];
        if 'a' <= c && c <= 'z' {
            assert(((((c as u32) - 32) as char) as u32) == (c as u32) - 32);
        }
        if 'A' <= c && c <= 'Z' {
            assert(((((c as u32) + 32) as char) as u32) == (c as u32) + 32);
        }
    }
    assert(lower(upper(s)) =~= lower(s));
    assert(lower(lower(s)) =~= lower(s));
}

/// Every text matches the empty query, and matching ignores ASCII case:
/// upper- or lowercasing the text or the query does not change the answer.
pub proof fn query_matching_ignores_case(h: Seq<char>, q: Seq<char>)
    ensures
        matches_query(h, Seq::empty()),
        matches_query(upper(h), q) == matches_query(h, q),
        matches_query(lower(h), q) == matches_query(h, q),
        matches_query(h, upper(q)) == matches_query(h, q),
        matches_query(h, lower(q)) == matches_query(h, q),
{
    lemma_lower_absorbs_case(h);
    lemma_lower_absorbs_case(q);
    assert(lower(Seq::<char>::empty()) =~= Seq::<char>::empty());
    assert(lower(h).subrange(0, 0) =~= Seq::<char>::empty());
    assert(occurs_at(lower(h), lower(Seq::<char>::empty()), 0));
}

/// The searchable text of a voice: its fields separated by spaces.
pub open spec fn voice_blob(v: Voice) -> Seq<char> {
    v.name@ + " "@ + v.character@ + " "@ + v.best_for@ + " "@ + v.notes@
}

/// The searchable text of a tag, with its category's variant name.
pub open spec fn tag_blob(t: Tag) -> Seq<char> {
    t.tag@ + " "@ + category_variant_name(t.category) + " "@ + t.use_for@ + " "@ + t.example@
}

/// The searchable text of a language hint.
pub open spec fn language_blob(l: Language) -> Seq<char> {
    l.code@ + " "@ + l.name@ + " "@ + l.hint@
}

fn voice_blob_exec(v: &Voice) -> (r: String)
    ensures
        r@ == voice_blob(*v),
{
    let mut r = owned(v.name);
    push_str(&mut r, " ");
    push_str(&mut r, v.character);
    push_str(&mut r, " ");
    push_str(&mut r, v.best_for);
    push_str(&mut r, " ");
    push_str(&mut r, v.notes);
    r
}

fn tag_blob_exec(t: &Tag) -> (r: String)
    ensures
        r@ == tag_blob(*t),
{
    let mut r = owned(t.tag);
    push_str(&mut r, " ");
    push_str(&mut r, t.category.variant_name());
    push_str(&mut r, " ");
    push_str(&mut r, t.use_for);
    push_str(&mut r, " ");
    push_str(&mut r, t.example);
    r
}

fn language_blob_exec(l: &Language) -> (r: String)
    ensures
        r@ == language_blob(*l),
{
    let mut r = owned(l.code);
    push_str(&mut r, " ");
    push_str(&mut r, l.name);
    push_str(&mut r, " ");
    push_str(&mut r, l.hint);
    r
}

/// The catalog voices whose text matches an optional query.
pub open spec fn voices_matching(query: Option<Seq<char>>) -> Seq<Voice> {
    match query {
        None => voice_table(),
        Some(q) => voice_table().filter(|v: Voice| matches_query(voice_blob(v), q)),
    }
}

/// Lists the voices, filtered by a query when one is given.
pub fn filter_voices(query: Option<&str>) -> (res: Vec<Voice>)
    ensures
        res@ == voices_matching(match query {
            Some(q) => Some(q@),
            None => None::<Seq<char>>,
        }),
{
    let table = voices();
    match query {
        None => table,
        Some(q) => {
            let ghost pred = |v: Voice| matches_query(voice_blob(v), q@);
            let mut res: Vec<Voice> = Vec::new();
            let mut i: usize = 0;
            proof {
                lemma_filter_take_zero(table@, pred);
            }
            while i < table.len()
                invariant
                    table@ == voice_table(),
                    i <= table.len(),
                    res@ == table@.take(i as int).filter(pred),
                    pred == (|v: Voice| matches_query(voice_blob(v), q@)),
                decreases table.len() - i,
            {
                proof {
                    lemma_filter_take_step(table@, pred, i as int);
                }
                let blob = voice_blob_exec(&table[i]);
                if filter_text(blob.as_str(), q) {
                    res.push(table[i]);
                }
                i = i + 1;
            }
            assert(table@.take(table.len() as int) =~= table@);
            res
        },
    }
}

/// The catalog tags, restricted to one category when one is given.
pub open spec fn tags_in_category(category: Option<TagCategory>) -> Seq<Tag> {
    match category {
        None => tag_table(),
        Some(c) => tag_table().filter(|t: Tag| t.category == c),
    }
}

/// Lists the tags, restricted to one category when one is given.
pub fn filter_tags(category: Option<TagCategory>) -> (res: Vec<Tag>)
    ensures
        res@ == tags_in_category(category),
{
    let table = tags();
    match category {
        None => table,
        Some(c) => {
            let ghost pred = |t: Tag| t.category == c;
            let mut res: Vec<Tag> = Vec::new();
            let mut i: usize = 0;
            proof {
                lemma_filter_take_zero(table@, pred);
            }
            while i < table.len()
                invariant
                    table@ == tag_table(),
                    i <= table.len(),
                    res@ == table@.take(i as int).filter(pred),
                    pred == (|t: Tag| t.category == c),
                decreases table.len() - i,
            {
                proof {
                    lemma_filter_take_step(table@, pred, i as int);
                }
                if table[i].category == c {
                    res.push(table[i]);
                }
                i = i + 1;
            }
            assert(table@.take(table.len() as int) =~= table@);
            res
        },
    }
}

/// The catalog tags whose text matches a query.
pub open spec fn tags_matching(query: Seq<char>) -> Seq<Tag> {
    tag_table().filter(|t: Tag| matches_query(tag_blob(t), query))
}

/// Searches the tags by word or use case.
pub fn search_tags(query: &str) -> (res: Vec<Tag>)
    ensures
        res@ == tags_matching(query@),
{
    let table = tags();
    let ghost pred = |t: Tag| matches_query(tag_blob(t), query@);
    let mut res: Vec<Tag> = Vec::new();
    let mut i: usize = 0;
    proof {
        lemma_filter_take_zero(table@, pred);
    }
    while i < table.len()
        invariant
            table@ == tag_table(),
            i <= table.len(),
            res@ == table@.take(i as int).filter(pred),
            pred == (|t: Tag| matches_query(tag_blob(t), query@)),
        decreases table.len() - i,
    {
        proof {
            lemma_filter_take_step(table@, pred, i as int);
        }
        let blob = tag_blob_exec(&table[i]);
        if filter_text(blob.as_str(), query) {
            res.push(table[i]);
        }
        i = i + 1;
    }
    assert(table@.take(table.len() as int) =~= table@);
    res
}

/// The catalog languages whose text matches an optional query.
pub open spec fn languages_matching(query: Option<Seq<char>>) -> Seq<Language> {
    match query {
        None => language_table(),
        Some(q) => language_table().filter(|l: Language| matches_query(language_blob(l), q)),
    }
}

/// Lists the languages, filtered by a query when one is given.
pub fn filter_languages(query: Option<&str>) -> (res: Vec<Language>)
    ensures
        res@ == languages_matching(match query {
            Some(q) => Some(q@),
            None => None::<Seq<char>>,
        }),
{
    let table = languages();
    match query {
        None => table,
        Some(q) => {
            let ghost pred = |l: Language| matches_query(language_blob(l), q@);
            let mut res: Vec<Language> = Vec::new();
            let mut i: usize = 0;
            proof {
                lemma_filter_take_zero(table@, pred);
            }
            while i < table.len()
                invariant
                    table@ == language_table(),
                    i <= table.len(),
                    res@ == table@.take(i as int).filter(pred),
                    pred == (|l: Language| matches_query(language_blob(l), q@)),
                decreases table.len() - i,
            {
                proof {
                    lemma_filter_take_step(table@, pred, i as int);
                }
                let blob = language_blob_exec(&table[i]);
                if filter_text(blob.as_str(), q) {
                    res.push(table[i]);
                }
                i = i + 1;
            }
            assert(table@.take(table.len() as int) =~= table@);
            res
        },
    }
}


// ---------------------------------------------------------------------------
// Recommendation
// ---------------------------------------------------------------------------

/// Whether a character is alphabetic or numeric in Unicode.
pub uninterp spec fn is_alphanumeric(c: char) -> bool;

/// Whether a character is alphanumeric.
///
/// Trusted: calls `char::is_alphanumeric`. The contract only names the
/// result; the Unicode `Alphabetic` and `Numeric` tables are not restated.
#[verifier::external_body]
fn alphanumeric(c: char) -> (r: bool)
    ensures
        r == is_alphanumeric(c),
{
    c.is_alphanumeric()
}

/// Words found so far, and the word being read, after reading `s`.
pub open spec fn split_state(s: Seq<char>) -> (Seq<Seq<char>>, Seq<char>)
    decreases s.len(),
{
    if s.len() == 0 {
        (Seq::empty(), Seq::empty())
    } else {
        let (words, cur) = split_state(s.drop_last());
        let c = s.last();
        if is_alphanumeric(c) {
            (words, cur.push(c))
        } else if cur.len() > 0 {
            (words.push(cur), Seq::empty())
        } else {
            (words, Seq::empty())
        }
    }
}

/// The maximal non-empty runs of alphanumeric characters of `s`, in order.
pub open spec fn alnum_words(s: Seq<char>) -> Seq<Seq<char>> {
    let (words, cur) = split_state(s);
    if cur.len() > 0 {
        words.push(cur)
    } else {
        words
    }
}

/// The words of a brief: its ASCII-lowercased alphanumeric runs.
pub open spec fn brief_words(brief: Seq<char>) -> Seq<Seq<char>> {
    alnum_words(lower(brief))
}

/// Splits a brief into lowercase words.
fn split_brief(brief: &str) -> (res: Vec<Vec<char>>)
    ensures
        res@.map_values(|w: Vec<char>| w@) == brief_words(brief@),
{
    let s = lower_chars(&to_chars(brief));
    let mut words: Vec<Vec<char>> = Vec::new();
    let mut cur: Vec<char> = Vec::new();
    let mut i: usize = 0;
    assert(s@.take(0) =~= Seq::<char>::empty());
    while i < s.len()
        invariant
            i <= s.len(),
            s@ == lower(brief@),
            (words@.map_values(|w: Vec<char>| w@), cur@) == split_state(s@.take(i as int)),
        decreases s.len() - i,
    {
        let c = s[i];
        assert(s@.take(i + 1).drop_last() =~= s@.take(i as int));
        assert(s@.take(i + 1).last() == c);
        if alphanumeric(c) {
            cur.push(c);
        } else if cur.len() > 0 {
            let w = cur;
            words.push(w);
            cur = Vec::new();
            assert(words@.map_values(|w: Vec<char>| w@) =~= split_state(s@.take(i + 1)).0);
        } else {
            assert(cur@ =~= Seq::<char>::empty());
        }
        i = i + 1;
    }
    assert(s@.take(s.len() as int) =~= s@);
    if cur.len() > 0 {
        words.push(cur);
        assert(words@.map_values(|w: Vec<char>| w@) =~= brief_words(brief@));
    }
    words
}

/// Whether `w` is one of the given literal words.
pub open spec fn word_in(w: Seq<char>, set: Seq<&'static str>) -> bool {
    exists|i: int| 0 <= i < set.len() && set[i]@ == w
}

/// Whether any needle occurs in `blob`.
pub open spec fn any_occurs(blob: Seq<char>, needles: Seq<&'static str>) -> bool {
    exists|i: int| 0 <= i < needles.len() && seq_contains(blob, needles[i]@)
}

/// Whether any of `needles` occurs in `blob`.
fn any_contains(blob: &Vec<char>, needles: &Vec<&'static str>) -> (r: bool)
    ensures
        r == any_occurs(blob@, needles@),
{
    let mut i: usize = 0;
    while i < needles.len()
        invariant
            i <= needles@.len(),
            forall|k: int| 0 <= k < i ==> !seq_contains(blob@, #[trigger] needles@[k]@),
        decreases needles@.len() - i,
    {
        if chars_contains(blob, &to_chars(needles[i])) {
            return true;
        }
        i = i + 1;
    }
    false
}

/// Whether `w` equals one of `set`.
fn word_is_one_of(w: &Vec<char>, set: &Vec<&'static str>) -> (r: bool)
    ensures
        r == word_in(w@, set@),
{
    let mut i: usize = 0;
    while i < set.len()
        invariant
            i <= set@.len(),
            forall|k: int| 0 <= k < i ==> (#[trigger] set@[k])@ != w@,
        decreases set@.len() - i,
    {
        if chars_eq(w, &to_chars(set[i])) {
            return true;
        }
        i = i + 1;
    }
    false
}

pub open spec fn upbeat_words() -> Seq<&'static str> {
    seq!["happy", "excited", "energetic", "podcast", "promo", "launch"]
}

pub open spec fn upbeat_traits() -> Seq<&'static str> {
    seq!["upbeat", "excitable", "bright", "lively"]
}

pub open spec fn gentle_words() -> Seq<&'static str> {
    seq!["calm", "sleep", "soft", "gentle", "warm", "sensitive"]
}

pub open spec fn gentle_traits() -> Seq<&'static str> {
    seq!["soft", "gentle", "warm", "smooth"]
}

pub open spec fn clear_words() -> Seq<&'static str> {
    seq!["technical", "agent", "clear", "training", "doctor", "medical"]
}

pub open spec fn clear_traits() -> Seq<&'static str> {
    seq!["clear", "informative", "knowledgeable", "firm"]
}

pub open spec fn dramatic_words() -> Seq<&'static str> {
    seq!["dramatic", "trailer", "noir", "character"]
}

pub open spec fn dramatic_traits() -> Seq<&'static str> {
    seq!["gravelly", "mature", "forward"]
}

/// The heuristic bonus one brief word earns a voice: 4 for each theme the
/// word names whose traits appear in the voice's text.
pub open spec fn word_bonus(blob: Seq<char>, w: Seq<char>) -> nat {
    (if word_in(w, upbeat_words()) && any_occurs(blob, upbeat_traits()) { 4nat } else { 0nat })
        + (if word_in(w, gentle_words()) && any_occurs(blob, gentle_traits()) { 4nat } else { 0nat })
        + (if word_in(w, clear_words()) && any_occurs(blob, clear_traits()) { 4nat } else { 0nat })
        + (if word_in(w, dramatic_words()) && any_occurs(blob, dramatic_traits()) { 4nat } else { 0nat })
}

/// The heuristic bonus: a brief word earns a voice 4 points for each theme
/// it names whose traits the voice's text shows (upbeat: happy, excited,
/// energetic, podcast, promo, launch with upbeat, excitable, bright, lively;
/// gentle: calm, sleep, soft, gentle, warm, sensitive with soft, gentle,
/// warm, smooth; clear: technical, agent, clear, training, doctor, medical
/// with clear, informative, knowledgeable, firm; dramatic: dramatic,
/// trailer, noir, character with gravelly, mature, forward); any other word
/// earns nothing.
pub proof fn theme_bonus_law(blob: Seq<char>, w: Seq<char>)
    ensures
        (w == "happy"@ || w == "excited"@ || w == "energetic"@ || w == "podcast"@ || w == "promo"@ || w == "launch"@) && (seq_contains(blob, "upbeat"@) || seq_contains(blob, "excitable"@) || seq_contains(blob, "bright"@) || seq_contains(blob, "lively"@)) ==> word_bonus(blob, w) >= 4,
        (w == "calm"@ || w == "sleep"@ || w == "soft"@ || w == "gentle"@ || w == "warm"@ || w == "sensitive"@) && (seq_contains(blob, "soft"@) || seq_contains(blob, "gentle"@) || seq_contains(blob, "warm"@) || seq_contains(blob, "smooth"@)) ==> word_bonus(blob, w) >= 4,
        (w == "technical"@ || w == "agent"@ || w == "clear"@ || w == "training"@ || w == "doctor"@ || w == "medical"@) && (seq_contains(blob, "clear"@) || seq_contains(blob, "informative"@) || seq_contains(blob, "knowledgeable"@) || seq_contains(blob, "firm"@)) ==> word_bonus(blob, w) >= 4,
        (w == "dramatic"@ || w == "trailer"@ || w == "noir"@ || w == "character"@) && (seq_contains(blob, "gravelly"@) || seq_contains(blob, "mature"@) || seq_contains(blob, "forward"@)) ==> word_bonus(blob, w) >= 4,
        word_bonus(blob, w) > 0 ==> (w == "happy"@ || w == "excited"@ || w == "energetic"@ || w == "podcast"@ || w == "promo"@ || w == "launch"@ || w == "calm"@ || w == "sleep"@ || w == "soft"@ || w == "gentle"@ || w == "warm"@ || w == "sensitive"@ || w == "technical"@ || w == "agent"@ || w == "clear"@ || w == "training"@ || w == "doctor"@ || w == "medical"@ || w == "dramatic"@ || w == "trailer"@ || w == "noir"@ || w == "character"@),
{
    if w == "happy"@ { assert(upbeat_words()[0]@ == w); }
    if w == "excited"@ { assert(upbeat_words()[1]@ == w); }
    if w == "energetic"@ { assert(upbeat_words()[2]@ == w); }
    if w == "podcast"@ { assert(upbeat_words()[3]@ == w); }
    if w == "promo"@ { assert(upbeat_words()[4]@ == w); }
    if w == "launch"@ { assert(upbeat_words()[5]@ == w); }
    if seq_contains(blob, "upbeat"@) { assert(seq_contains(blob, upbeat_traits()[0]@)); }
    if seq_contains(blob, "excitable"@) { assert(seq_contains(blob, upbeat_traits()[1]@)); }
    if seq_contains(blob, "bright"@) { assert(seq_contains(blob, upbeat_traits()[2]@)); }
    if seq_contains(blob, "lively"@) { assert(seq_contains(blob, upbeat_traits()[3]@)); }
    assert forall|i: int| 0 <= i < upbeat_words().len() implies ((upbeat_words()[i])@ == "happy"@ || (upbeat_words()[i])@ == "excited"@ || (upbeat_words()[i])@ == "energetic"@ || (upbeat_words()[i])@ == "podcast"@ || (upbeat_words()[i])@ == "promo"@ || (upbeat_words()[i])@ == "launch"@) by {}
    if w == "calm"@ { assert(gentle_words()[0]@ == w); }
    if w == "sleep"@ { assert(gentle_words()[1]@ == w); }
    if w == "soft"@ { assert(gentle_words()[2]@ == w); }
    if w == "gentle"@ { assert(gentle_words()[3]@ == w); }
    if w == "warm"@ { assert(gentle_words()[4]@ == w); }
    if w == "sensitive"@ { assert(gentle_words()[5]@ == w); }
    if seq_contains(blob, "soft"@) { assert(seq_contains(blob, gentle_traits()[0]@)); }
    if seq_contains(blob, "gentle"@) { assert(seq_contains(blob, gentle_traits()[1]@)); }
    if seq_contains(blob, "warm"@) { assert(seq_contains(blob, gentle_traits()[2]@)); }
    if seq_contains(blob, "smooth"@) { assert(seq_contains(blob, gentle_traits()[3]@)); }
    assert forall|i: int| 0 <= i < gentle_words().len() implies ((gentle_words()[i])@ == "calm"@ || (gentle_words()[i])@ == "sleep"@ || (gentle_words()[i])@ == "soft"@ || (gentle_words()[i])@ == "gentle"@ || (gentle_words()[i])@ == "warm"@ || (gentle_words()[i])@ == "sensitive"@) by {}
    if w == "technical"@ { assert(clear_words()[0]@ == w); }
    if w == "agent"@ { assert(clear_words()[1]@ == w); }
    if w == "clear"@ { assert(clear_words()[2]@ == w); }
    if w == "training"@ { assert(clear_words()[3]@ == w); }
    if w == "doctor"@ { assert(clear_words()[4]@ == w); }
    if w == "medical"@ { assert(clear_words()[5]@ == w); }
    if seq_contains(blob, "clear"@) { assert(seq_contains(blob, clear_traits()[0]@)); }
    if seq_contains(blob, "informative"@) { assert(seq_contains(blob, clear_traits()[1]@)); }
    if seq_contains(blob, "knowledgeable"@) { assert(seq_contains(blob, clear_traits()[2]@)); }
    if seq_contains(blob, "firm"@) { assert(seq_contains(blob, clear_traits()[3]@)); }
    assert forall|i: int| 0 <= i < clear_words().len() implies ((clear_words()[i])@ == "technical"@ || (clear_words()[i])@ == "agent"@ || (clear_words()[i])@ == "clear"@ || (clear_words()[i])@ == "training"@ || (clear_words()[i])@ == "doctor"@ || (clear_words()[i])@ == "medical"@) by {}
    if w == "dramatic"@ { assert(dramatic_words()[0]@ == w); }
    if w == "trailer"@ { assert(dramatic_words()[1]@ == w); }
    if w == "noir"@ { assert(dramatic_words()[2]@ == w); }
    if w == "character"@ { assert(dramatic_words()[3]@ == w); }
    if seq_contains(blob, "gravelly"@) { assert(seq_contains(blob, dramatic_traits()[0]@)); }
    if seq_contains(blob, "mature"@) { assert(seq_contains(blob, dramatic_traits()[1]@)); }
    if seq_contains(blob, "forward"@) { assert(seq_contains(blob, dramatic_traits()[2]@)); }
    assert forall|i: int| 0 <= i < dramatic_words().len() implies ((dramatic_words()[i])@ == "dramatic"@ || (dramatic_words()[i])@ == "trailer"@ || (dramatic_words()[i])@ == "noir"@ || (dramatic_words()[i])@ == "character"@) by {}
}

/// The heuristic score of a voice text for a list of brief words.
pub open spec fn heuristic(blob: Seq<char>, words: Seq<Seq<char>>) -> nat
    decreases words.len(),
{
    if words.len() == 0 {
        0
    } else {
        heuristic(blob, words.drop_last()) + word_bonus(blob, words.last())
    }
}

/// Three points for every brief word that occurs in the voice text.
pub open spec fn hit_score(blob: Seq<char>, words: Seq<Seq<char>>) -> nat
    decreases words.len(),
{
    if words.len() == 0 {
        0
    } else {
        hit_score(blob, words.drop_last()) + if seq_contains(blob, words.last()) {
            3nat
        } else {
            0nat
        }
    }
}

/// The score of a voice for a brief.
pub open spec fn voice_score(v: Voice, words: Seq<Seq<char>>) -> nat {
    let blob = lower(voice_blob(v));
    hit_score(blob, words) + heuristic(blob, words)
}

proof fn lemma_word_bonus_bound(blob: Seq<char>, w: Seq<char>)
    ensures
        word_bonus(blob, w) <= 16,
{
}

/// The heuristic score of a voice text for the given words.
fn heuristic_score(blob: &Vec<char>, words: &Vec<Vec<char>>) -> (r: u128)
    ensures
        r == heuristic(blob@, words@.map_values(|w: Vec<char>| w@)),
        r <= 16 * words.len(),
{
    let ghost ws = words@.map_values(|w: Vec<char>| w@);
    let mut score: u128 = 0;
    let mut i: usize = 0;
    while i < words.len()
        invariant
            i <= words.len(),
            ws == words@.map_values(|w: Vec<char>| w@),
            score == heuristic(blob@, ws.take(i as int)),
            score <= 16 * i,
        decreases words.len() - i,
    {
        let w = &words[i];
        proof {
            assert(ws.take(i + 1).drop_last() =~= ws.take(i as int));
            assert(ws.take(i + 1).last() == w@);
            lemma_word_bonus_bound(blob@, w@);
        }
        let upbeat: Vec<&'static str> = vec!["happy", "excited", "energetic", "podcast", "promo", "launch"];
        let upbeat_t: Vec<&'static str> = vec!["upbeat", "excitable", "bright", "lively"];
        let gentle: Vec<&'static str> = vec!["calm", "sleep", "soft", "gentle", "warm", "sensitive"];
        let gentle_t: Vec<&'static str> = vec!["soft", "gentle", "warm", "smooth"];
        let clear: Vec<&'static str> = vec!["technical", "agent", "clear", "training", "doctor", "medical"];
        let clear_t: Vec<&'static str> = vec!["clear", "informative", "knowledgeable", "firm"];
        let dramatic: Vec<&'static str> = vec!["dramatic", "trailer", "noir", "character"];
        let dramatic_t: Vec<&'static str> = vec!["gravelly", "mature", "forward"];
        assert(upbeat@ =~= upbeat_words());
        assert(upbeat_t@ =~= upbeat_traits());
        assert(gentle@ =~= gentle_words());
        assert(gentle_t@ =~= gentle_traits());
        assert(clear@ =~= clear_words());
        assert(clear_t@ =~= clear_traits());
        assert(dramatic@ =~= dramatic_words());
        assert(dramatic_t@ =~= dramatic_traits());
        if word_is_one_of(w, &upbeat) && any_contains(blob, &upbeat_t) {
            score = score + 4;
        }
        if word_is_one_of(w, &gentle) && any_contains(blob, &gentle_t) {
            score = score + 4;
        }
        if word_is_one_of(w, &clear) && any_contains(blob, &clear_t) {
            score = score + 4;
        }
        if word_is_one_of(w, &dramatic) && any_contains(blob, &dramatic_t) {
            score = score + 4;
        }
        i = i + 1;
    }
    assert(ws.take(words.len() as int) =~= ws);
    score
}


/// Three points for every word that occurs in the blob.
fn hit_points(blob: &Vec<char>, words: &Vec<Vec<char>>) -> (r: u128)
    ensures
        r == hit_score(blob@, words@.map_values(|w: Vec<char>| w@)),
        r <= 3 * words.len(),
{
    let ghost ws = words@.map_values(|w: Vec<char>| w@);
    let mut score: u128 = 0;
    let mut i: usize = 0;
    while i < words.len()
        invariant
            i <= words.len(),
            ws == words@.map_values(|w: Vec<char>| w@),
            score == hit_score(blob@, ws.take(i as int)),
            score <= 3 * i,
        decreases words.len() - i,
    {
        proof {
            assert(ws.take(i + 1).drop_last() =~= ws.take(i as int));
            assert(ws.take(i + 1).last() == words@[i as int]@);
        }
        if chars_contains(blob, &words[i]) {
            score = score + 3;
        }
        i = i + 1;
    }
    assert(ws.take(words.len() as int) =~= ws);
    score
}

/// The score of one voice for the brief words.
fn score_voice(v: &Voice, words: &Vec<Vec<char>>) -> (r: u128)
    ensures
        r == voice_score(*v, words@.map_values(|w: Vec<char>| w@)),
{
    let blob = lower_chars(&to_chars(voice_blob_exec(v).as_str()));
    let hits = hit_points(&blob, words);
    let bonus = heuristic_score(&blob, words);
    hits + bonus
}

/// Voice `i` of the catalog ranks before voice `j` for the brief words:
/// higher score first, then name order, then catalog order.
pub open spec fn ranks_before(words: Seq<Seq<char>>, i: int, j: int) -> bool {
    let si = voice_score(voice_table()[i], words);
    let sj = voice_score(voice_table()[j], words);
    si > sj || (si == sj && (seq_less(voice_table()[i].name@, voice_table()[j].name@) || (
    voice_table()[i].name@ == voice_table()[j].name@ && i < j)))
}

proof fn lemma_ranks_before_transitive(words: Seq<Seq<char>>, i: int, j: int, k: int)
    requires
        ranks_before(words, i, j),
        ranks_before(words, j, k),
    ensures
        ranks_before(words, i, k),
{
    let (a, b, c) = (voice_table()[i].name@, voice_table()[j].name@, voice_table()[k].name@);
    if seq_less(a, b) && seq_less(b, c) {
        lemma_seq_less_transitive(a, b, c);
    }
}

proof fn lemma_ranks_before_total(words: Seq<Seq<char>>, i: int, j: int)
    requires
        i != j,
    ensures
        ranks_before(words, i, j) || ranks_before(words, j, i),
{
    let (a, b) = (voice_table()[i].name@, voice_table()[j].name@);
    if a != b {
        lemma_seq_less_total(a, b);
    }
}

/// A valid ranking: `p` lists catalog indices of positive-scoring voices,
/// best first, at most `k` of them, and any positive-scoring voice left out
/// means the list is full and every listed voice ranks before it.
pub open spec fn is_ranking(words: Seq<Seq<char>>, k: nat, p: Seq<int>) -> bool {
    &&& p.len() <= k
    &&& forall|i: int| 0 <= i < p.len() ==> 0 <= #[trigger] p[i] < voice_table().len()
        && voice_score(voice_table()[p[i]], words) > 0
    &&& forall|i: int, j: int| 0 <= i < j < p.len() ==> ranks_before(words, #[trigger] p[i], #[trigger] p[j])
    &&& forall|j: int| 0 <= j < voice_table().len() && voice_score(voice_table()[j], words) > 0
        && !p.contains(j) ==> p.len() == k && forall|i: int| 0 <= i < p.len() ==> ranks_before(words, #[trigger] p[i], j)
}

proof fn lemma_ranks_before_asymmetric(words: Seq<Seq<char>>, a: int, b: int)
    requires
        ranks_before(words, a, b),
    ensures
        !ranks_before(words, b, a),
{
    let (na, nb) = (voice_table()[a].name@, voice_table()[b].name@);
    if seq_less(na, nb) {
        lemma_seq_less_asymmetric(na, nb);
    }
    if seq_less(nb, na) {
        lemma_seq_less_asymmetric(nb, na);
    }
}

/// A ranking lists each catalog voice at most once, and never more than
/// `k` of them.
pub proof fn ranking_is_distinct(words: Seq<Seq<char>>, k: nat, p: Seq<int>)
    requires
        is_ranking(words, k, p),
    ensures
        p.len() <= k,
        forall|i: int, j: int| 0 <= i < j < p.len() ==> p[i] != p[j],
{
    assert forall|i: int, j: int| 0 <= i < j < p.len() implies p[i] != p[j] by {
        if p[i] == p[j] {
            assert(ranks_before(words, p[i], p[j]));
            lemma_ranks_before_asymmetric(words, p[i], p[j]);
        }
    }
}

proof fn lemma_ranking_agrees_upto(words: Seq<Seq<char>>, k1: nat, k2: nat, p: Seq<int>, q: Seq<int>, n: int)
    requires
        k1 <= k2,
        is_ranking(words, k1, p),
        is_ranking(words, k2, q),
        0 <= n <= p.len(),
    ensures
        n <= q.len(),
        forall|j: int| 0 <= j < n ==> p[j] == q[j],
    decreases n,
{
    if n > 0 {
        let i = n - 1;
        lemma_ranking_agrees_upto(words, k1, k2, p, q, i);
        ranking_is_distinct(words, k1, p);
        ranking_is_distinct(words, k2, q);
        let a = p[i];
        if q.len() <= i {
            assert(!q.contains(a)) by {
                if q.contains(a) {
                    let m = choose|m: int| 0 <= m < q.len() && q[m] == a;
                    assert(p[m] == q[m]);
                }
            }
            assert(false);
        }
        let b = q[i];
        if a != b {
            assert(ranks_before(words, a, b)) by {
                if p.contains(b) {
                    let m = choose|m: int| 0 <= m < p.len() && p[m] == b;
                    if m < i {
                        assert(q[m] == b);
                    }
                    assert(m != i);
                }
            }
            assert(ranks_before(words, b, a)) by {
                if q.contains(a) {
                    let m = choose|m: int| 0 <= m < q.len() && q[m] == a;
                    if m < i {
                        assert(p[m] == a);
                    }
                    assert(m != i);
                }
            }
            lemma_ranks_before_asymmetric(words, a, b);
        }
    }
}

/// Asking for more voices only adds voices after the ones already given:
/// a ranking of `k1` voices is a prefix of a ranking of `k2 >= k1` voices
/// for the same brief. With `k1 == k2` the ranking is unique.
pub proof fn ranking_extends(words: Seq<Seq<char>>, k1: nat, k2: nat, p: Seq<int>, q: Seq<int>)
    requires
        k1 <= k2,
        is_ranking(words, k1, p),
        is_ranking(words, k2, q),
    ensures
        p.len() <= q.len(),
        p == q.take(p.len() as int),
{
    lemma_ranking_agrees_upto(words, k1, k2, p, q, p.len() as int);
    assert(p =~= q.take(p.len() as int));
}

/// A ranking never names a voice twice.
pub proof fn ranking_names_are_distinct(words: Seq<Seq<char>>, k: nat, p: Seq<int>)
    requires
        is_ranking(words, k, p),
    ensures
        forall|i: int, j: int| 0 <= i < j < p.len() ==> voice_table()[#[trigger] p[i]].name@ != voice_table()[#[trigger] p[j]].name@,
{
    ranking_is_distinct(words, k, p);
    voice_names_are_sorted_and_distinct();
    assert forall|i: int, j: int| 0 <= i < j < p.len() implies voice_table()[#[trigger] p[i]].name@
        != voice_table()[#[trigger] p[j]].name@ by {
        if p[i] < p[j] {
            assert(voice_table()[p[i]].name@ != voice_table()[p[j]].name@);
        } else {
            assert(voice_table()[p[j]].name@ != voice_table()[p[i]].name@);
        }
    }
}

proof fn lemma_split_state_without_alphanumerics(s: Seq<char>)
    requires
        forall|i: int| 0 <= i < s.len() ==> !is_alphanumeric(#[trigger] s[i]),
    ensures
        split_state(s).0.len() == 0,
        split_state(s).1.len() == 0,
    decreases s.len(),
{
    if s.len() > 0 {
        assert(forall|i: int| 0 <= i < s.drop_last().len() ==> s.drop_last()[i] == s[i]);
        lemma_split_state_without_alphanumerics(s.drop_last());
        assert(!is_alphanumeric(s[s.len() - 1]));
    }
}

/// A brief whose (lowercased) characters are none of them alphanumeric has
/// no words, and so no voice is recommended for it.
pub proof fn brief_without_alphanumerics_recommends_nothing(brief: Seq<char>, k: nat, p: Seq<int>)
    requires
        forall|i: int| 0 <= i < brief.len() ==> !is_alphanumeric(lower_char(#[trigger] brief[i])),
        is_ranking(brief_words(brief), k, p),
    ensures
        brief_words(brief).len() == 0,
        p.len() == 0,
{
    let l = lower(brief);
    assert forall|i: int| 0 <= i < l.len() implies !is_alphanumeric(#[trigger] l[i]) by {
        assert(l[i] == lower_char(brief[i]));
    }
    lemma_split_state_without_alphanumerics(l);
    assert(brief_words(brief) =~= Seq::<Seq<char>>::empty());
    no_words_no_recommendation(k, p);
}

/// A brief without words recommends nothing.
pub proof fn no_words_no_recommendation(k: nat, p: Seq<int>)
    requires
        is_ranking(Seq::empty(), k, p),
    ensures
        p.len() == 0,
{
    if p.len() > 0 {
        assert(voice_score(voice_table()[p[0]], Seq::empty()) > 0);
    }
}

/// Whether index `t` is among the picked indices.
pub open spec fn picked_has(picked: Seq<usize>, t: int) -> bool {
    exists|i: int| 0 <= i < picked.len() && picked[i] as int == t
}

proof fn lemma_picked_push(picked: Seq<usize>, b: usize, t: int)
    ensures
        picked_has(picked.push(b), t) <==> (picked_has(picked, t) || t == b as int),
{
    if picked_has(picked.push(b), t) {
        let w = choose|w: int| 0 <= w < picked.push(b).len() && picked.push(b)[w] as int == t;
        if w < picked.len() {
            assert(picked[w] as int == t);
        }
    }
    if picked_has(picked, t) {
        let w = choose|w: int| 0 <= w < picked.len() && picked[w] as int == t;
        assert(picked.push(b)[w] as int == t);
    }
    if t == b as int {
        assert(picked.push(b)[picked.len() as int] as int == t);
    }
}

proof fn lemma_picked_has_contains(picked: Seq<usize>, t: int)
    ensures
        picked_has(picked, t) <==> picked.map_values(|i: usize| i as int).contains(t),
{
    let p = picked.map_values(|i: usize| i as int);
    if picked_has(picked, t) {
        let w = choose|w: int| 0 <= w < picked.len() && picked[w] as int == t;
        assert(p[w] == t);
    }
    if p.contains(t) {
        let w = choose|w: int| 0 <= w < p.len() && p[w] == t;
        assert(picked[w] as int == t);
    }
}

/// The catalog indices of the best `k` voices for the brief words.
fn rank_voices(table: &Vec<Voice>, words: &Vec<Vec<char>>, k: usize) -> (res: Vec<usize>)
    requires
        table@ == voice_table(),
    ensures
        is_ranking(words@.map_values(|w: Vec<char>| w@), k as nat, res@.map_values(|i: usize| i as int)),
{
    let ghost ws = words@.map_values(|w: Vec<char>| w@);
    let n = table.len();
    let mut scores: Vec<u128> = Vec::new();
    let mut names: Vec<Vec<char>> = Vec::new();
    let mut taken: Vec<bool> = Vec::new();
    let mut j: usize = 0;
    while j < n
        invariant
            n == table.len(),
            table@ == voice_table(),
            ws == words@.map_values(|w: Vec<char>| w@),
            j <= n,
            scores.len() == j,
            names.len() == j,
            taken.len() == j,
            forall|t: int| 0 <= t < j ==> #[trigger] scores@[t] == voice_score(voice_table()[t], ws),
            forall|t: int| 0 <= t < j ==> #[trigger] names@[t]@ == voice_table()[t].name@,
            forall|t: int| 0 <= t < j ==> !#[trigger] taken@[t],
        decreases n - j,
    {
        scores.push(score_voice(&table[j], words));
        names.push(to_chars(table[j].name));
        taken.push(false);
        j = j + 1;
    }
    let mut picked: Vec<usize> = Vec::new();
    let mut done = false;
    while !done && picked.len() < k
        invariant
            done ==> forall|t: int| 0 <= t < n ==> taken@[t] || scores@[t] == 0,
            n == table.len(),
            table@ == voice_table(),
            ws == words@.map_values(|w: Vec<char>| w@),
            scores.len() == n,
            names.len() == n,
            taken.len() == n,
            picked.len() <= k,
            forall|t: int| 0 <= t < n ==> #[trigger] scores@[t] == voice_score(voice_table()[t], ws),
            forall|t: int| 0 <= t < n ==> #[trigger] names@[t]@ == voice_table()[t].name@,
            forall|i: int| 0 <= i < picked.len() ==> #[trigger] picked@[i] < n && scores@[picked@[i] as int] > 0,
            forall|t: int| 0 <= t < n ==> (#[trigger] taken@[t] <==> picked_has(picked@, t)),
            forall|i: int, l: int| 0 <= i < l < picked.len() ==> ranks_before(ws, #[trigger] picked@[i] as int, #[trigger] picked@[l] as int),
            forall|t: int| 0 <= t < n && !taken@[t] && scores@[t] > 0 ==> forall|i: int| 0 <= i < picked.len() ==> ranks_before(ws, #[trigger] picked@[i] as int, t),
        decreases k - picked.len(), if done { 0nat } else { 1nat },
    {
        let mut best: Option<usize> = None;
        let mut c: usize = 0;
        while c < n
            invariant
                n == table.len(),
                table@ == voice_table(),
                ws == words@.map_values(|w: Vec<char>| w@),
                scores.len() == n,
                names.len() == n,
                taken.len() == n,
                c <= n,
                forall|t: int| 0 <= t < n ==> #[trigger] scores@[t] == voice_score(voice_table()[t], ws),
                forall|t: int| 0 <= t < n ==> #[trigger] names@[t]@ == voice_table()[t].name@,
                best matches Some(b) ==> b < c && !taken@[b as int] && scores@[b as int] > 0,
                best is None ==> forall|t: int| 0 <= t < c ==> taken@[t] || scores@[t] == 0,
                best matches Some(b) ==> forall|t: int| 0 <= t < c && !taken@[t] && scores@[t] > 0 && t != b ==> ranks_before(ws, b as int, t),
            decreases n - c,
        {
            if !taken[c] && scores[c] > 0 {
                match best {
                    None => {
                        best = Some(c);
                    },
                    Some(b) => {
                        let better = scores[c] > scores[b] || (scores[c] == scores[b] && chars_less(&names[c], &names[b]));
                        proof {
                            if better {
                                assert(ranks_before(ws, c as int, b as int));
                                assert forall|t: int| 0 <= t < c && !taken@[t] && scores@[t] > 0 && t != c implies ranks_before(ws, c as int, t) by {
                                    if t != b {
                                        lemma_ranks_before_transitive(ws, c as int, b as int, t);
                                    }
                                }
                            } else {
                                lemma_ranks_before_total(ws, b as int, c as int);
                                if ranks_before(ws, c as int, b as int) {
                                    let (x, y) = (voice_table()[c as int].name@, voice_table()[b as int].name@);
                                    if seq_less(y, x) {
                                        lemma_seq_less_asymmetric(y, x);
                                    }
                                    assert(false);
                                }
                            }
                        }
                        if better {
                            best = Some(c);
                        }
                    },
                }
            }
            c = c + 1;
        }
        match best {
            None => {
                done = true;
            },
            Some(b) => {
                let ghost old_picked = picked@;
                picked.push(b);
                taken.set(b, true);
                proof {
                    assert forall|t: int| 0 <= t < n implies (#[trigger] taken@[t] <==> picked_has(picked@, t)) by {
                        lemma_picked_push(old_picked, b, t);
                    }
                    assert forall|i: int, l: int| 0 <= i < l < picked.len() implies ranks_before(ws, #[trigger] picked@[i] as int, #[trigger] picked@[l] as int) by {
                        if l == old_picked.len() {
                            assert(!taken@[b as int] || true);
                        }
                    }
                }
            },
        }
    }
    proof {
        let p = picked@.map_values(|i: usize| i as int);
        assert forall|i: int, l: int| 0 <= i < l < p.len() implies ranks_before(ws, #[trigger] p[i], #[trigger] p[l]) by {
            assert(p[i] == picked@[i] as int);
            assert(p[l] == picked@[l] as int);
        }
        assert forall|i: int| 0 <= i < p.len() implies 0 <= #[trigger] p[i] < voice_table().len()
            && voice_score(voice_table()[p[i]], ws) > 0 by {
            assert(p[i] == picked@[i] as int);
        }
        assert forall|t: int| 0 <= t < voice_table().len() && voice_score(voice_table()[t], ws) > 0
            && !p.contains(t) implies p.len() == k && forall|i: int| 0 <= i < p.len() ==> ranks_before(ws, #[trigger] p[i], t) by {
            lemma_picked_has_contains(picked@, t);
            assert(!taken@[t]);
            assert forall|i: int| 0 <= i < p.len() implies ranks_before(ws, #[trigger] p[i], t) by {
                assert(p[i] == picked@[i] as int);
            }
        }
    }
    picked
}

/// Recommends up to `count` voices for a natural-language brief, best
/// first; only voices scoring above zero are recommended.
pub fn recommend_voices(brief: &str, count: usize) -> (res: Vec<Voice>)
    ensures
        exists|p: Seq<int>| #[trigger] is_ranking(brief_words(brief@), count as nat, p)
            && p.len() == res@.len()
            && forall|i: int| 0 <= i < p.len() ==> res@[i] == voice_table()[#[trigger] p[i]],
{
    let words = split_brief(brief);
    let table = voices();
    let picked = rank_voices(&table, &words, count);
    let mut res: Vec<Voice> = Vec::new();
    let mut i: usize = 0;
    while i < picked.len()
        invariant
            table@ == voice_table(),
            i <= picked.len(),
            res@.len() == i,
            is_ranking(words@.map_values(|w: Vec<char>| w@), count as nat, picked@.map_values(|x: usize| x as int)),
            forall|t: int| 0 <= t < i ==> #[trigger] res@[t] == voice_table()[picked@[t] as int],
        decreases picked.len() - i,
    {
        let ghost p = picked@.map_values(|x: usize| x as int);
        assert(p[i as int] == picked@[i as int] as int);
        res.push(table[picked[i]]);
        i = i + 1;
    }
    let ghost p = picked@.map_values(|x: usize| x as int);
    assert forall|t: int| 0 <= t < p.len() implies res@[t] == voice_table()[#[trigger] p[t]] by {
        assert(p[t] == picked@[t] as int);
    }
    assert(is_ranking(brief_words(brief@), count as nat, p));
    res
}


/// Some catalog voice scores above zero for the brief.
pub open spec fn any_voice_scores(brief: Seq<char>) -> bool {
    exists|j: int| 0 <= j < voice_table().len() && voice_score(voice_table()[j], brief_words(brief)) > 0
}

/// Recommends up to `count` voices for a brief; when no voice scores, the
/// first `count` catalog voices instead.
pub fn recommend_or_first(brief: &str, count: usize) -> (res: Vec<Voice>)
    ensures
        count > 0 && any_voice_scores(brief@) ==> exists|p: Seq<int>| #[trigger] is_ranking(brief_words(brief@), count as nat, p)
            && p.len() == res@.len()
            && forall|i: int| 0 <= i < p.len() ==> res@[i] == voice_table()[#[trigger] p[i]],
        !(count > 0 && any_voice_scores(brief@)) ==> res@ == voice_table().take(
            if count < voice_table().len() { count as int } else { voice_table().len() as int },
        ),
{
    let recommended = recommend_voices(brief, count);
    if recommended.len() > 0 {
        proof {
            let p = choose|p: Seq<int>| #[trigger] is_ranking(brief_words(brief@), count as nat, p)
                && p.len() == recommended@.len()
                && forall|i: int| 0 <= i < p.len() ==> recommended@[i] == voice_table()[#[trigger] p[i]];
            assert(voice_score(voice_table()[p[0]], brief_words(brief@)) > 0);
        }
        return recommended;
    }
    proof {
        if count > 0 && any_voice_scores(brief@) {
            let j = choose|j: int| 0 <= j < voice_table().len() && voice_score(voice_table()[j], brief_words(brief@)) > 0;
            let p = choose|p: Seq<int>| #[trigger] is_ranking(brief_words(brief@), count as nat, p)
                && p.len() == recommended@.len()
                && forall|i: int| 0 <= i < p.len() ==> recommended@[i] == voice_table()[#[trigger] p[i]];
            assert(!p.contains(j));
        }
    }
    let table = voices();
    let n = if count < table.len() { count } else { table.len() };
    let mut res: Vec<Voice> = Vec::new();
    let mut i: usize = 0;
    while i < n
        invariant
            table@ == voice_table(),
            n <= table.len(),
            i <= n,
            res@ == voice_table().take(i as int),
        decreases n - i,
    {
        res.push(table[i]);
        assert(res@ =~= voice_table().take(i + 1));
        i = i + 1;
    }
    res
}

} // verus!

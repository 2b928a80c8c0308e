//! Token accounting for generated audio: what the API reports, estimates
//! where it reports nothing, and totals over the usage ledger.
//!
//! Durations and costs are floating-point and computed by the caller; the
//! duration-based token estimate is handed in as a whole number.

use vstd::prelude::*;
use crate::config::path_join;
use crate::json::{JsonValue, json_get, json_u64};
use crate::text::owned;

verus! {

/// Token counts that the Gemini API reported for a generation.
pub struct ApiUsageMetadata {
    pub prompt_token_count: Option<u64>,
    pub candidates_token_count: Option<u64>,
    pub total_token_count: Option<u64>,
}

impl Default for ApiUsageMetadata {
    fn default() -> (r: Self)
        ensures
            r.prompt_token_count is None,
            r.candidates_token_count is None,
            r.total_token_count is None,
    {
        ApiUsageMetadata { prompt_token_count: None, candidates_token_count: None, total_token_count: None }
    }
}

/// The usage ledger inside the state directory.
pub fn usage_path(state_dir: &str) -> (r: String)
    ensures
        r@ == path_join(state_dir@, "usage.jsonl"@),
{
    crate::config::join_path(state_dir, "usage.jsonl")
}

/// A count under its camel-case name, else under its snake-case name.
pub open spec fn read_count(usage: JsonValue, camel: Seq<char>, snake: Seq<char>) -> Option<u64> {
    json_u64(
        if json_get(usage, camel) is Some {
            json_get(usage, camel)
        } else {
            json_get(usage, snake)
        },
    )
}

fn read_u64(usage: &JsonValue, camel: &str, snake: &str) -> (r: Option<u64>)
    ensures
        r == read_count(*usage, camel@, snake@),
{
    let v = match usage.get(camel) {
        Some(v) => Some(v),
        None => usage.get(snake),
    };
    match v {
        Some(v) => v.as_u64(),
        None => None,
    }
}

/// The usage object of a response, under either spelling.
pub open spec fn usage_object(response: JsonValue) -> Option<JsonValue> {
    if json_get(response, "usageMetadata"@) is Some {
        json_get(response, "usageMetadata"@)
    } else {
        json_get(response, "usage_metadata"@)
    }
}

/// Reads the token counts of a `generateContent` response; all absent when
/// the response has no usage metadata.
pub fn api_usage_from_response(json: &JsonValue) -> (r: ApiUsageMetadata)
    ensures
        match usage_object(*json) {
            None => r.prompt_token_count is None && r.candidates_token_count is None
                && r.total_token_count is None,
            Some(u) => r.prompt_token_count == read_count(u, "promptTokenCount"@, "prompt_token_count"@)
                && r.candidates_token_count == read_count(u, "candidatesTokenCount"@, "candidates_token_count"@)
                && r.total_token_count == read_count(u, "totalTokenCount"@, "total_token_count"@),
        },
{
    let usage = match json.get("usageMetadata") {
        Some(u) => Some(u),
        None => json.get("usage_metadata"),
    };
    match usage {
        None => ApiUsageMetadata::default(),
        Some(u) => ApiUsageMetadata {
            prompt_token_count: read_u64(u, "promptTokenCount", "prompt_token_count"),
            candidates_token_count: read_u64(u, "candidatesTokenCount", "candidates_token_count"),
            total_token_count: read_u64(u, "totalTokenCount", "total_token_count"),
        },
    }
}

/// Seconds since the Unix epoch.
///
/// Trusted: reads `SystemTime::now()` and its distance from `UNIX_EPOCH`;
/// `None` when the clock is before the epoch. Nothing is stated of the value.
#[verifier::external_body]
fn seconds_since_epoch() -> (r: Option<u64>) {
    std::time::SystemTime::now().duration_since(std::time::UNIX_EPOCH).ok().map(|d| d.as_secs())
}

/// Seconds since the epoch from a clock reading, 0 when the clock read
/// before the epoch.
pub fn seconds_or_zero(reading: Option<u64>) -> (r: u64)
    ensures
        r == match reading {
            Some(s) => s,
            None => 0,
        },
{
    match reading {
        Some(s) => s,
        None => 0,
    }
}

/// The current Unix time in seconds, 0 when the clock is before the epoch.
pub fn now_unix_seconds() -> (r: u64) {
    seconds_or_zero(seconds_since_epoch())
}

/// Text tokens estimated from characters: a quarter, rounded up, at least 1.
pub open spec fn text_tokens(chars: nat) -> nat {
    let t = (chars + 3) / 4;
    if t < 1 {
        1
    } else {
        t
    }
}

/// Estimates text tokens from a character count.
pub fn estimate_text_tokens(chars: usize) -> (r: u64)
    ensures
        r == text_tokens(chars as nat),
{
    let t: u64 = ((chars as u64) / 4) + if (chars as u64) % 4 == 0 {
        0
    } else {
        1
    };
    if t < 1 {
        1
    } else {
        t
    }
}

/// Token counts of one generation and where each came from.
pub struct TokenEstimate {
    pub input_tokens: u64,
    pub input_tokens_source: String,
    pub audio_output_tokens: u64,
    pub audio_output_tokens_source: String,
    pub total_billable_tokens: u64,
}

/// Input tokens: the API's count when reported, else the character estimate.
pub open spec fn chosen_input(api: ApiUsageMetadata, prompt_chars: nat) -> nat {
    match api.prompt_token_count {
        Some(t) => t as nat,
        None => text_tokens(prompt_chars),
    }
}

/// Audio tokens: the API's count when reported, else the duration estimate.
pub open spec fn chosen_audio(api: ApiUsageMetadata, duration_tokens: u64) -> nat {
    match api.candidates_token_count {
        Some(t) => t as nat,
        None => duration_tokens as nat,
    }
}

/// Where the input count came from.
pub open spec fn input_source(api: ApiUsageMetadata) -> Seq<char> {
    if api.prompt_token_count is Some {
        "api_usage_metadata"@
    } else {
        "estimated_from_chars"@
    }
}

/// Where the audio count came from.
pub open spec fn audio_source(api: ApiUsageMetadata) -> Seq<char> {
    if api.candidates_token_count is Some {
        "api_usage_metadata"@
    } else {
        "estimated_from_pcm_duration"@
    }
}

/// Token counts for a generation, preferring the API's own counts.
///
/// `duration_tokens` is the audio-token estimate from the PCM duration.
pub fn estimate_tokens(duration_tokens: u64, prompt_chars: usize, api_usage: &ApiUsageMetadata) -> (r: TokenEstimate)
    requires
        chosen_input(*api_usage, prompt_chars as nat) + chosen_audio(*api_usage, duration_tokens) <= u64::MAX,
    ensures
        r.input_tokens == chosen_input(*api_usage, prompt_chars as nat),
        r.input_tokens_source@ == input_source(*api_usage),
        r.audio_output_tokens == chosen_audio(*api_usage, duration_tokens),
        r.audio_output_tokens_source@ == audio_source(*api_usage),
        r.total_billable_tokens == r.input_tokens + r.audio_output_tokens,
{
    let (audio, audio_src) = match api_usage.candidates_token_count {
        Some(t) => (t, owned("api_usage_metadata")),
        None => (duration_tokens, owned("estimated_from_pcm_duration")),
    };
    let (input, input_src) = match api_usage.prompt_token_count {
        Some(t) => (t, owned("api_usage_metadata")),
        None => (estimate_text_tokens(prompt_chars), owned("estimated_from_chars")),
    };
    TokenEstimate {
        input_tokens: input,
        input_tokens_source: input_src,
        audio_output_tokens: audio,
        audio_output_tokens_source: audio_src,
        total_billable_tokens: input + audio,
    }
}

/// The input count after bringing an older record up to date.
pub open spec fn normalized_input(e: TokenEstimate, api: ApiUsageMetadata) -> u64 {
    match api.prompt_token_count {
        Some(t) => t,
        None => e.input_tokens,
    }
}

/// The audio count after bringing an older record up to date.
pub open spec fn normalized_audio(e: TokenEstimate, api: ApiUsageMetadata) -> u64 {
    match api.candidates_token_count {
        Some(t) => t,
        None => e.audio_output_tokens,
    }
}

/// Brings a stored estimate up to date with the API counts stored beside it,
/// and recomputes the total.
pub fn normalize_tokens(estimate: &mut TokenEstimate, api_usage: &ApiUsageMetadata)
    requires
        normalized_input(*old(estimate), *api_usage) + normalized_audio(*old(estimate), *api_usage) <= u64::MAX,
    ensures
        final(estimate).input_tokens == normalized_input(*old(estimate), *api_usage),
        final(estimate).audio_output_tokens == normalized_audio(*old(estimate), *api_usage),
        api_usage.prompt_token_count is Some ==> final(estimate).input_tokens_source@ == "api_usage_metadata"@,
        api_usage.prompt_token_count is None ==> final(estimate).input_tokens_source == old(estimate).input_tokens_source,
        api_usage.candidates_token_count is Some ==> final(estimate).audio_output_tokens_source@ == "api_usage_metadata"@,
        api_usage.candidates_token_count is None ==> final(estimate).audio_output_tokens_source == old(estimate).audio_output_tokens_source,
        final(estimate).total_billable_tokens == final(estimate).input_tokens + final(estimate).audio_output_tokens,
{
    if let Some(t) = api_usage.prompt_token_count {
        estimate.input_tokens = t;
        estimate.input_tokens_source = owned("api_usage_metadata");
    }
    if let Some(t) = api_usage.candidates_token_count {
        estimate.audio_output_tokens = t;
        estimate.audio_output_tokens_source = owned("api_usage_metadata");
    }
    estimate.total_billable_tokens = estimate.input_tokens + estimate.audio_output_tokens;
}

/// Normalising twice is normalising once.
pub proof fn normalizing_is_idempotent(e: TokenEstimate, api: ApiUsageMetadata)
    ensures
        normalized_input(TokenEstimate { input_tokens: normalized_input(e, api), ..e }, api) == normalized_input(e, api),
        normalized_audio(TokenEstimate { audio_output_tokens: normalized_audio(e, api), ..e }, api) == normalized_audio(e, api),
{
}

/// Token totals over a ledger.
pub struct TokenTotals {
    pub records: usize,
    pub input_tokens: u64,
    pub audio_output_tokens: u64,
    pub total_billable_tokens: u64,
}

/// The sum of the input counts.
pub open spec fn sum_input(s: Seq<TokenEstimate>) -> nat
    decreases s.len(),
{
    if s.len() == 0 {
        0
    } else {
        sum_input(s.drop_last()) + s.last().input_tokens as nat
    }
}

/// The sum of the audio counts.
pub open spec fn sum_audio(s: Seq<TokenEstimate>) -> nat
    decreases s.len(),
{
    if s.len() == 0 {
        0
    } else {
        sum_audio(s.drop_last()) + s.last().audio_output_tokens as nat
    }
}

/// The sum of the billable totals.
pub open spec fn sum_billable(s: Seq<TokenEstimate>) -> nat
    decreases s.len(),
{
    if s.len() == 0 {
        0
    } else {
        sum_billable(s.drop_last()) + s.last().total_billable_tokens as nat
    }
}

proof fn lemma_sums_monotone(s: Seq<TokenEstimate>, i: int)
    requires
        0 <= i <= s.len(),
    ensures
        sum_input(s.take(i)) <= sum_input(s),
        sum_audio(s.take(i)) <= sum_audio(s),
        sum_billable(s.take(i)) <= sum_billable(s),
    decreases s.len() - i,
{
    if i < s.len() {
        lemma_sums_monotone(s, i + 1);
        assert(s.take(i + 1).drop_last() =~= s.take(i));
    } else {
        assert(s.take(i) =~= s);
    }
}

/// Totals the token counts of ledger records.
pub fn token_totals(estimates: &Vec<TokenEstimate>) -> (r: TokenTotals)
    requires
        sum_input(estimates@) <= u64::MAX,
        sum_audio(estimates@) <= u64::MAX,
        sum_billable(estimates@) <= u64::MAX,
    ensures
        r.records == estimates.len(),
        r.input_tokens == sum_input(estimates@),
        r.audio_output_tokens == sum_audio(estimates@),
        r.total_billable_tokens == sum_billable(estimates@),
{
    let mut input: u64 = 0;
    let mut audio: u64 = 0;
    let mut billable: u64 = 0;
    let mut i: usize = 0;
    while i < estimates.len()
        invariant
            i <= estimates.len(),
            sum_input(estimates@) <= u64::MAX,
            sum_audio(estimates@) <= u64::MAX,
            sum_billable(estimates@) <= u64::MAX,
            input == sum_input(estimates@.take(i as int)),
            audio == sum_audio(estimates@.take(i as int)),
            billable == sum_billable(estimates@.take(i as int)),
        decreases estimates.len() - i,
    {
        proof {
            lemma_sums_monotone(estimates@, i + 1);
            assert(estimates@.take(i + 1).drop_last() =~= estimates@.take(i as int));
        }
        input = input + estimates[i].input_tokens;
        audio = audio + estimates[i].audio_output_tokens;
        billable = billable + estimates[i].total_billable_tokens;
        i = i + 1;
    }
    assert(estimates@.take(estimates.len() as int) =~= estimates@);
    TokenTotals { records: estimates.len(), input_tokens: input, audio_output_tokens: audio, total_billable_tokens: billable }
}

/// Where the most recent `limit` of `len` records start.
pub fn recent_start(len: usize, limit: usize) -> (r: usize)
    ensures
        r == (if len > limit { len - limit } else { 0 }),
{
    if len > limit {
        len - limit
    } else {
        0
    }
}

} // verus!

//! Diagnostics: the individual checks that `doctor` reports, their summary,
//! and the summary of lint findings.

use vstd::prelude::*;
use crate::config::{mask, key_pair_view};
use crate::error::{AppError, exit_code_of, message_of};
use crate::json::JsonValue;
use crate::prompt::{LintFinding, FindingView, findings_view};
use crate::text::{owned, push_str, push_decimal, decimal, str_eq};

verus! {

/// One diagnostic check.
pub struct DoctorCheck {
    pub name: String,
    /// `pass`, `warn` or `fail`.
    pub status: String,
    pub message: String,
    pub suggestion: Option<String>,
    pub details: Option<JsonValue>,
}

/// How many checks passed, warned and failed.
pub struct DoctorSummary {
    pub pass: usize,
    pub warn: usize,
    pub fail: usize,
}

/// All checks and their summary.
pub struct DoctorResult {
    pub checks: Vec<DoctorCheck>,
    pub summary: DoctorSummary,
}

/// The optional suggestion's characters.
pub open spec fn opt_text(o: Option<String>) -> Option<Seq<char>> {
    match o {
        Some(s) => Some(s@),
        None => None,
    }
}

/// A check has these name, status, message and suggestion, and no details.
pub open spec fn check_is(c: DoctorCheck, name: Seq<char>, status: Seq<char>, message: Seq<char>, suggestion: Option<Seq<char>>) -> bool {
    c.name@ == name && c.status@ == status && c.message@ == message && opt_text(c.suggestion) == suggestion
        && c.details is None
}

fn check(name: &str, status: &str, message: String, suggestion: Option<String>) -> (r: DoctorCheck)
    ensures
        check_is(r, name@, status@, message@, opt_text(suggestion)),
{
    DoctorCheck { name: owned(name), status: owned(status), message, suggestion, details: None }
}

/// The configuration file check for a path and the path found on disk.
pub open spec fn is_config_file_check(c: DoctorCheck, path: Seq<char>, existing: Option<Seq<char>>) -> bool {
    match existing {
        Some(p) => check_is(c, "config_file"@, "pass"@, p, None),
        None => check_is(c, "config_file"@, "warn"@, path + " does not exist; defaults/env will be used"@,
            Some("Run gemtts config init"@)),
    }
}

/// The configuration file check: passes when the file exists.
pub fn config_file_check(path: &str, existing: Option<&str>) -> (r: DoctorCheck)
    ensures
        is_config_file_check(r, path@, match existing {
            Some(p) => Some(p@),
            None => None,
        }),
{
    match existing {
        Some(p) => check("config_file", "pass", owned(p), None),
        None => {
            let mut m = owned(path);
            push_str(&mut m, " does not exist; defaults/env will be used");
            check("config_file", "warn", m, Some(owned("Run gemtts config init")))
        },
    }
}

/// The API key check for the key in effect and its source.
pub open spec fn is_api_key_check(c: DoctorCheck, key: Option<(Seq<char>, Seq<char>)>) -> bool {
    match key {
        Some((source, value)) => check_is(c, "api_key"@, "pass"@, mask(value) + " ("@ + source + ")"@, None),
        None => check_is(c, "api_key"@, "fail"@, "not configured"@,
            Some("Set GEMINI_API_KEY or run gemtts auth set --api-key <key>"@)),
    }
}

/// The API key check: passes with the masked key and its source.
pub fn api_key_check(key: &Option<(String, String)>) -> (r: DoctorCheck)
    ensures
        is_api_key_check(r, key_pair_view(*key)),
{
    match key {
        Some((source, value)) => {
            let mut m = crate::config::mask_secret(value.as_str());
            push_str(&mut m, " (");
            push_str(&mut m, source.as_str());
            push_str(&mut m, ")");
            check("api_key", "pass", m, None)
        },
        None => check(
            "api_key",
            "fail",
            owned("not configured"),
            Some(owned("Set GEMINI_API_KEY or run gemtts auth set --api-key <key>")),
        ),
    }
}

/// The ffmpeg check: passes when ffmpeg runs; otherwise fails when it is
/// required and warns when it is not.
pub open spec fn is_ffmpeg_check(c: DoctorCheck, available: bool, require_ffmpeg: bool) -> bool {
    &&& available ==> check_is(c, "ffmpeg"@, "pass"@, "ffmpeg is available for mp3/m4a/flac"@, None)
    &&& !available ==> check_is(c, "ffmpeg"@, if require_ffmpeg { "fail"@ } else { "warn"@ },
        "ffmpeg not found; wav and pcm still work"@,
        Some("Install ffmpeg for compressed audio: brew install ffmpeg"@))
}

/// The ffmpeg check.
pub fn ffmpeg_check(available: bool, require_ffmpeg: bool) -> (r: DoctorCheck)
    ensures
        is_ffmpeg_check(r, available, require_ffmpeg),
{
    if available {
        check("ffmpeg", "pass", owned("ffmpeg is available for mp3/m4a/flac"), None)
    } else if require_ffmpeg {
        check("ffmpeg", "fail", owned("ffmpeg not found; wav and pcm still work"), Some(owned("Install ffmpeg for compressed audio: brew install ffmpeg")))
    } else {
        check("ffmpeg", "warn", owned("ffmpeg not found; wav and pcm still work"), Some(owned("Install ffmpeg for compressed audio: brew install ffmpeg")))
    }
}

/// The live model check passed with the model's name.
pub fn live_model_check(name: String) -> (r: DoctorCheck)
    ensures
        check_is(r, "live_model"@, "pass"@, name@, None),
{
    check("live_model", "pass", name, None)
}

/// The live audio check passed: the byte count, the MIME type and whether
/// the usage was logged.
pub fn live_audio_check(bytes: usize, mime_type: &str, logged: bool) -> (r: DoctorCheck)
    ensures
        check_is(r, "live_audio"@, "pass"@, decimal(bytes as nat) + " bytes, "@ + mime_type@ + "; "@
            + if logged { "usage logged"@ } else { "usage logging failed"@ }, None),
{
    let mut m = String::new();
    push_decimal(&mut m, bytes as u128);
    push_str(&mut m, " bytes, ");
    push_str(&mut m, mime_type);
    push_str(&mut m, "; ");
    if logged {
        push_str(&mut m, "usage logged");
    } else {
        push_str(&mut m, "usage logging failed");
    }
    check("live_audio", "pass", m, None)
}

/// The live audio check failed because no audio came back.
pub fn empty_audio_check() -> (r: DoctorCheck)
    ensures
        check_is(r, "live_audio"@, "fail"@, "Gemini returned empty audio data"@,
            Some("Retry once; if it repeats, check model/key status."@)),
{
    check("live_audio", "fail", owned("Gemini returned empty audio data"), Some(owned("Retry once; if it repeats, check model/key status.")))
}

/// The checks reported for the live audio request that returned `bytes` of
/// audio: a failure when there is none; otherwise, when logging the usage
/// failed with `ledger_error`, a failed ledger check before the passing
/// audio check.
pub fn live_audio_checks(bytes: usize, mime_type: &str, ledger_error: Option<String>) -> (r: Vec<DoctorCheck>)
    ensures
        bytes == 0 ==> r@.len() == 1 && check_is(r@[0], "live_audio"@, "fail"@, "Gemini returned empty audio data"@,
            Some("Retry once; if it repeats, check model/key status."@)),
        bytes > 0 ==> match ledger_error {
            None => r@.len() == 1 && check_is(r@[0], "live_audio"@, "pass"@, decimal(bytes as nat) + " bytes, "@
                + mime_type@ + "; "@ + "usage logged"@, None),
            Some(m) => r@.len() == 2 && check_is(r@[0], "usage_ledger"@, "fail"@, m@,
                Some("Check write permissions for the gemtts state directory."@)) && check_is(r@[1],
                "live_audio"@, "pass"@, decimal(bytes as nat) + " bytes, "@ + mime_type@ + "; "@
                + "usage logging failed"@, None),
        },
{
    let mut r: Vec<DoctorCheck> = Vec::new();
    if bytes == 0 {
        r.push(empty_audio_check());
        return r;
    }
    match ledger_error {
        None => {
            r.push(live_audio_check(bytes, mime_type, true));
        },
        Some(m) => {
            r.push(usage_ledger_check(m));
            r.push(live_audio_check(bytes, mime_type, false));
        },
    }
    r
}

/// Writing the usage ledger failed.
pub fn usage_ledger_check(message: String) -> (r: DoctorCheck)
    ensures
        check_is(r, "usage_ledger"@, "fail"@, message@,
            Some("Check write permissions for the gemtts state directory."@)),
{
    check("usage_ledger", "fail", message, Some(owned("Check write permissions for the gemtts state directory.")))
}

/// A check failed with an error: rate limiting only warns, anything else
/// fails; the message is the error's rendering.
pub fn error_check(name: &str, error: &AppError, suggestion: String, details: Option<JsonValue>) -> (r: DoctorCheck)
    ensures
        r.name@ == name@,
        r.status@ == (if exit_code_of(*error) == 4 { "warn"@ } else { "fail"@ }),
        r.message@ == message_of(*error),
        opt_text(r.suggestion) == Some(suggestion@),
        r.details == details,
{
    let status = if error.exit_code() == 4 {
        "warn"
    } else {
        "fail"
    };
    DoctorCheck { name: owned(name), status: owned(status), message: error.message(), suggestion: Some(suggestion), details }
}

/// The number of checks with the given status.
pub open spec fn count_status(checks: Seq<DoctorCheck>, status: Seq<char>) -> nat
    decreases checks.len(),
{
    if checks.len() == 0 {
        0
    } else {
        count_status(checks.drop_last(), status) + if checks.last().status@ == status {
            1nat
        } else {
            0nat
        }
    }
}

proof fn lemma_count_status_bound(checks: Seq<DoctorCheck>, status: Seq<char>)
    ensures
        count_status(checks, status) <= checks.len(),
    decreases checks.len(),
{
    if checks.len() > 0 {
        lemma_count_status_bound(checks.drop_last(), status);
    }
}

/// Counts the checks by status.
pub fn summarize_checks(checks: &Vec<DoctorCheck>) -> (r: DoctorSummary)
    ensures
        r.pass == count_status(checks@, "pass"@),
        r.warn == count_status(checks@, "warn"@),
        r.fail == count_status(checks@, "fail"@),
{
    let mut pass: usize = 0;
    let mut warn: usize = 0;
    let mut fail: usize = 0;
    let mut i: usize = 0;
    while i < checks.len()
        invariant
            i <= checks.len(),
            pass == count_status(checks@.take(i as int), "pass"@),
            warn == count_status(checks@.take(i as int), "warn"@),
            fail == count_status(checks@.take(i as int), "fail"@),
        decreases checks.len() - i,
    {
        proof {
            assert(checks@.take(i + 1).drop_last() =~= checks@.take(i as int));
            lemma_count_status_bound(checks@.take(i as int), "pass"@);
            lemma_count_status_bound(checks@.take(i as int), "warn"@);
            lemma_count_status_bound(checks@.take(i as int), "fail"@);
        }
        let s = checks[i].status.as_str();
        if str_eq(s, "pass") {
            pass = pass + 1;
        }
        if str_eq(s, "warn") {
            warn = warn + 1;
        }
        if str_eq(s, "fail") {
            fail = fail + 1;
        }
        i = i + 1;
    }
    assert(checks@.take(checks.len() as int) =~= checks@);
    DoctorSummary { pass, warn, fail }
}

/// A check's status is one of `pass`, `warn` and `fail`.
pub open spec fn status_ok(c: DoctorCheck) -> bool {
    c.status@ == "pass"@ || c.status@ == "warn"@ || c.status@ == "fail"@
}

/// The live part of the report: the model check, then the audio checks.
pub open spec fn live_part(live_checks: Option<(DoctorCheck, Vec<DoctorCheck>)>) -> Seq<DoctorCheck> {
    match live_checks {
        Some((model_check, audio_checks)) => seq![model_check] + audio_checks@,
        None => Seq::empty(),
    }
}

/// The checks `doctor` reports, in order: the configuration file, the API
/// key and ffmpeg; then, only when `--live` is set and a key is present,
/// the model check followed by the live audio checks.
pub fn doctor_checks(
    path: &str,
    existing: Option<&str>,
    key: &Option<(String, String)>,
    ffmpeg_available: bool,
    require_ffmpeg: bool,
    live: bool,
    live_checks: Option<(DoctorCheck, Vec<DoctorCheck>)>,
) -> (r: Vec<DoctorCheck>)
    requires
        live_checks is Some <==> (live && key is Some),
    ensures
        r@.len() == 3 + live_part(live_checks).len(),
        is_config_file_check(r@[0], path@, match existing {
            Some(p) => Some(p@),
            None => None,
        }),
        is_api_key_check(r@[1], key_pair_view(*key)),
        is_ffmpeg_check(r@[2], ffmpeg_available, require_ffmpeg),
        r@.skip(3) == live_part(live_checks),
        !(live && key is Some) ==> r@.len() == 3 && r@[0].name@ == "config_file"@ && r@[1].name@ == "api_key"@
            && r@[2].name@ == "ffmpeg"@,
        (forall|i: int| 0 <= i < live_part(live_checks).len() ==> status_ok(#[trigger] live_part(live_checks)[i]))
            ==> forall|i: int| 0 <= i < r@.len() ==> status_ok(#[trigger] r@[i]),
{
    let mut r: Vec<DoctorCheck> = Vec::new();
    r.push(config_file_check(path, existing));
    r.push(api_key_check(key));
    r.push(ffmpeg_check(ffmpeg_available, require_ffmpeg));
    let ghost base = r@;
    match live_checks {
        Some((model_check, audio_checks)) => {
            r.push(model_check);
            let mut audio_checks = audio_checks;
            let ghost audio = audio_checks@;
            r.append(&mut audio_checks);
            assert(r@ =~= base + (seq![model_check] + audio));
        },
        None => {
            assert(r@ =~= base + Seq::<DoctorCheck>::empty());
        },
    }
    assert(r@.skip(3) =~= live_part(live_checks));
    proof {
        reveal_strlit("pass");
        reveal_strlit("warn");
        reveal_strlit("fail");
        if forall|i: int| 0 <= i < live_part(live_checks).len() ==> status_ok(#[trigger] live_part(live_checks)[i]) {
            assert forall|i: int| 0 <= i < r@.len() implies status_ok(#[trigger] r@[i]) by {
                if i >= 3 {
                    assert(r@[i] == r@.skip(3)[i - 3]);
                }
            }
        }
    }
    r
}

/// `doctor` exits with the configuration error code 2 when a check failed,
/// and succeeds otherwise.
pub fn doctor_exit_code(summary: &DoctorSummary) -> (r: i32)
    ensures
        r == (if summary.fail > 0 { 2i32 } else { 0i32 }),
{
    if summary.fail > 0 {
        2
    } else {
        0
    }
}

proof fn lemma_fail_count_positive(checks: Seq<DoctorCheck>)
    ensures
        (count_status(checks, "fail"@) > 0) <==> exists|i: int| 0 <= i < checks.len() && (#[trigger] checks[i]).status@
            == "fail"@,
    decreases checks.len(),
{
    if checks.len() > 0 {
        let init = checks.drop_last();
        lemma_fail_count_positive(init);
        if exists|i: int| 0 <= i < init.len() && (#[trigger] init[i]).status@ == "fail"@ {
            let i = choose|i: int| 0 <= i < init.len() && (#[trigger] init[i]).status@ == "fail"@;
            assert(checks[i] == init[i]);
        }
        if exists|i: int| 0 <= i < checks.len() && (#[trigger] checks[i]).status@ == "fail"@ {
            let i = choose|i: int| 0 <= i < checks.len() && (#[trigger] checks[i]).status@ == "fail"@;
            if i < init.len() {
                assert(init[i] == checks[i]);
            }
        }
    }
}

/// The doctor report as a whole: when every check has one of the three
/// statuses, the summary counts each check once, and `doctor` exits with 2
/// exactly when some check failed.
pub proof fn doctor_report_law(checks: Seq<DoctorCheck>)
    requires
        forall|i: int| 0 <= i < checks.len() ==> status_ok(#[trigger] checks[i]),
    ensures
        count_status(checks, "pass"@) + count_status(checks, "warn"@) + count_status(checks, "fail"@) == checks.len(),
        (if count_status(checks, "fail"@) > 0 { 2i32 } else { 0i32 }) == 2 <==> exists|i: int| 0 <= i < checks.len()
            && (#[trigger] checks[i]).status@ == "fail"@,
{
    assert forall|i: int| 0 <= i < checks.len() implies (#[trigger] checks[i].status@ == "pass"@ || checks[i].status@
        == "warn"@ || checks[i].status@ == "fail"@) by {
        assert(status_ok(checks[i]));
    }
    summary_counts_every_check(checks);
    lemma_fail_count_positive(checks);
}

/// Every check has exactly one of the three statuses, so the summary counts
/// each check once.
pub proof fn summary_counts_every_check(checks: Seq<DoctorCheck>)
    requires
        forall|i: int| 0 <= i < checks.len() ==> (#[trigger] checks[i].status@ == "pass"@ || checks[i].status@
            == "warn"@ || checks[i].status@ == "fail"@),
    ensures
        count_status(checks, "pass"@) + count_status(checks, "warn"@) + count_status(checks, "fail"@)
            == checks.len(),
    decreases checks.len(),
{
    reveal_strlit("pass");
    reveal_strlit("warn");
    reveal_strlit("fail");
    if checks.len() > 0 {
        let s = checks.last().status@;
        assert(checks[checks.len() - 1].status@ == s);
        summary_counts_every_check(checks.drop_last());
        assert("pass"@[0] != "warn"@[0] && "pass"@[0] != "fail"@[0] && "warn"@[0] != "fail"@[0]);
    }
}

/// How many findings warn and inform, and whether none warns.
pub struct LintSummary {
    pub ok: bool,
    pub warn: usize,
    pub info: usize,
}

/// The number of findings with the given severity.
pub open spec fn count_severity(f: Seq<FindingView>, severity: Seq<char>) -> nat
    decreases f.len(),
{
    if f.len() == 0 {
        0
    } else {
        count_severity(f.drop_last(), severity) + if f.last().severity == severity {
            1nat
        } else {
            0nat
        }
    }
}

proof fn lemma_count_severity_bound(f: Seq<FindingView>, severity: Seq<char>)
    ensures
        count_severity(f, severity) <= f.len(),
    decreases f.len(),
{
    if f.len() > 0 {
        lemma_count_severity_bound(f.drop_last(), severity);
    }
}

/// Summarizes lint findings.
pub fn lint_summary(findings: &Vec<LintFinding>) -> (r: LintSummary)
    ensures
        r.warn == count_severity(findings_view(findings@), "warn"@),
        r.info == count_severity(findings_view(findings@), "info"@),
        r.ok == (r.warn == 0),
{
    let ghost fv = findings_view(findings@);
    let mut warn: usize = 0;
    let mut info: usize = 0;
    let mut i: usize = 0;
    while i < findings.len()
        invariant
            i <= findings.len(),
            fv == findings_view(findings@),
            warn == count_severity(fv.take(i as int), "warn"@),
            info == count_severity(fv.take(i as int), "info"@),
        decreases findings.len() - i,
    {
        proof {
            assert(fv.take(i + 1).drop_last() =~= fv.take(i as int));
            assert(fv.take(i + 1).last() == fv[i as int]);
            lemma_count_severity_bound(fv.take(i as int), "warn"@);
            lemma_count_severity_bound(fv.take(i as int), "info"@);
        }
        if str_eq(findings[i].severity, "warn") {
            warn = warn + 1;
        }
        if str_eq(findings[i].severity, "info") {
            info = info + 1;
        }
        i = i + 1;
    }
    assert(fv.take(findings.len() as int) =~= fv);
    LintSummary { ok: warn == 0, warn, info }
}

} // verus!

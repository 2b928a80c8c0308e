//! API key checks and the status report of the configured key.

use vstd::prelude::*;
use crate::config::{AppConfig, api_key, api_key_spec, env_key_view, mask, mask_secret};
use crate::error::AppError;
use crate::text::{trim, trim_str, to_chars, owned, is_ws, is_whitespace};

verus! {

/// Whether an API key is configured, where it comes from, its masked form,
/// and the configuration file path.
pub struct AuthResult {
    pub configured: bool,
    pub source: String,
    pub api_key: String,
    pub path: String,
}

/// Reports the API key in effect.
pub fn auth_result(config: &AppConfig, env_key: Option<(&'static str, String)>, path: &str) -> (r: AuthResult)
    ensures
        r.path@ == path@,
        match api_key_spec(config@, env_key_view(env_key)) {
            Some((s, k)) => r.configured && r.source@ == s && r.api_key@ == mask(k),
            None => !r.configured && r.source@ == "none"@ && r.api_key@ == "not_set"@,
        },
{
    match api_key(config, env_key) {
        Some((source, key)) => AuthResult {
            configured: true,
            source,
            api_key: mask_secret(key.as_str()),
            path: owned(path),
        },
        None => AuthResult { configured: false, source: owned("none"), api_key: owned("not_set"), path: owned(path) },
    }
}

/// The number of bytes a character takes in UTF-8.
pub open spec fn utf8_width(c: char) -> nat {
    let u = c as u32;
    if u < 0x80 {
        1
    } else if u < 0x800 {
        2
    } else if u < 0x10000 {
        3
    } else {
        4
    }
}

/// The UTF-8 length of a character sequence.
pub open spec fn utf8_len(s: Seq<char>) -> nat
    decreases s.len(),
{
    if s.len() == 0 {
        0
    } else {
        utf8_len(s.drop_last()) + utf8_width(s.last())
    }
}

/// Whether a sequence has a whitespace character.
pub open spec fn has_ws(s: Seq<char>) -> bool {
    exists|i: int| 0 <= i < s.len() && is_ws(s[i])
}

/// Why a key is rejected, if it is: fewer than 20 bytes once trimmed, or
/// whitespace inside.
pub open spec fn key_problem(key: Seq<char>) -> Option<Seq<char>> {
    let t = trim(key);
    if utf8_len(t) < 20 {
        Some("Gemini API key looks too short"@)
    } else if has_ws(t) {
        Some("Gemini API key must not contain whitespace"@)
    } else {
        None
    }
}

/// Checks that an API key looks plausible.
pub fn validate_key(api_key: &str) -> (r: Result<(), AppError>)
    ensures
        match key_problem(api_key@) {
            None => r is Ok,
            Some(msg) => r matches Err(AppError::InvalidInput(m)) && m@ == msg,
        },
{
    let t = to_chars(trim_str(api_key).as_str());
    let mut bytes: u128 = 0;
    let mut white = false;
    let mut i: usize = 0;
    while i < t.len()
        invariant
            i <= t.len(),
            bytes == utf8_len(t@.take(i as int)),
            bytes <= 4 * i,
            white == has_ws(t@.take(i as int)),
        decreases t.len() - i,
    {
        let c = t[i];
        let u = c as u32;
        let w: u128 = if u < 0x80 {
            1
        } else if u < 0x800 {
            2
        } else if u < 0x10000 {
            3
        } else {
            4
        };
        assert(t@.take(i + 1).drop_last() =~= t@.take(i as int));
        if is_whitespace(c) {
            white = true;
            assert(t@.take(i + 1)[i as int] == c);
        } else if white {
            proof {
                let k = choose|k: int| 0 <= k < i && is_ws(t@.take(i as int)[k]);
                assert(t@.take(i + 1)[k] == t@.take(i as int)[k]);
            }
        } else {
            assert forall|k: int| 0 <= k < i + 1 implies !is_ws(#[trigger] t@.take(i + 1)[k]) by {
                if k < i {
                    assert(t@.take(i + 1)[k] == t@.take(i as int)[k]);
                }
            }
        }
        bytes = bytes + w;
        i = i + 1;
    }
    assert(t@.take(t.len() as int) =~= t@);
    if bytes < 20 {
        return Err(AppError::InvalidInput(owned("Gemini API key looks too short")));
    }
    if white {
        return Err(AppError::InvalidInput(owned("Gemini API key must not contain whitespace")));
    }
    Ok(())
}

/// The key to import from the environment: a configuration error when no
/// API-key variable is set, otherwise the key once it passes
/// `validate_key`, with the variable's name.
pub fn key_to_import(env_key: Option<(&'static str, String)>) -> (r: Result<(&'static str, String), AppError>)
    ensures
        match env_key {
            None => r matches Err(AppError::Config(m)) && m@
                == "no key found in GEMINI_API_KEY, GOOGLE_API_KEY, or GOOGLE_AI_API_KEY"@,
            Some((source, key)) => match key_problem(key@) {
                None => r matches Ok((s, k)) && s == source && k@ == key@,
                Some(msg) => r matches Err(AppError::InvalidInput(m)) && m@ == msg,
            },
        },
{
    match env_key {
        None => Err(AppError::Config(owned("no key found in GEMINI_API_KEY, GOOGLE_API_KEY, or GOOGLE_AI_API_KEY"))),
        Some((source, key)) => {
            validate_key(key.as_str())?;
            Ok((source, key))
        },
    }
}

} // verus!

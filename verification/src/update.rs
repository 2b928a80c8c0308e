//! Version comparison and update guidance.

use vstd::prelude::*;
use std::cmp::Ordering;
use crate::text::{
    to_chars, from_char_range, parse_unsigned, parse_unsigned_spec, owned, push_str, seq_contains,
    chars_contains, str_contains, trim, trim_str,
};
use crate::error::AppError;

verus! {

/// `s` without its leading `v` characters.
pub open spec fn strip_v(s: Seq<char>) -> Seq<char>
    decreases s.len(),
{
    if s.len() > 0 && s[0] == 'v' {
        strip_v(s.drop_first())
    } else {
        s
    }
}

/// The pieces of `s` between `.` separators, as `str::split('.')` gives
/// them (empty pieces included, at least one piece).
pub open spec fn split_dots(s: Seq<char>) -> Seq<Seq<char>>
    decreases s.len(),
{
    if s.len() == 0 {
        seq![Seq::empty()]
    } else {
        let parts = split_dots(s.drop_last());
        if s.last() == '.' {
            parts.push(Seq::empty())
        } else {
            parts.update(parts.len() - 1, parts.last().push(s.last()))
        }
    }
}

proof fn lemma_split_dots_nonempty(s: Seq<char>)
    ensures
        split_dots(s).len() > 0,
    decreases s.len(),
{
    if s.len() > 0 {
        lemma_split_dots_nonempty(s.drop_last());
    }
}

/// The leading ASCII digits of `s`.
pub open spec fn leading_digits(s: Seq<char>) -> Seq<char>
    decreases s.len(),
{
    if s.len() > 0 && '0' <= s[0] && s[0] <= '9' {
        seq![s[0]] + leading_digits(s.drop_first())
    } else {
        Seq::empty()
    }
}

/// The number a version component starts with; 0 when it starts with no
/// digit or the number does not fit 64 bits.
pub open spec fn component_value(p: Seq<char>) -> u64 {
    match parse_unsigned_spec(leading_digits(p), u64::MAX as nat) {
        Some(v) => v as u64,
        None => 0,
    }
}

/// The numeric components of a version such as `v1.2.3`.
pub open spec fn version_parts(s: Seq<char>) -> Seq<u64> {
    split_dots(strip_v(s)).map_values(|p: Seq<char>| component_value(p))
}

proof fn lemma_leading_digits(s: Seq<char>, k: int)
    requires
        0 <= k <= s.len(),
        forall|j: int| 0 <= j < k ==> '0' <= #[trigger] s[j] && s[j] <= '9',
        k == s.len() || !('0' <= s[k] && s[k] <= '9'),
    ensures
        leading_digits(s) == s.take(k),
    decreases k,
{
    if k == 0 {
        assert(s.take(0) =~= Seq::<char>::empty());
    } else {
        lemma_leading_digits(s.drop_first(), k - 1);
        assert(seq![s[0]] + s.drop_first().take(k - 1) =~= s.take(k));
    }
}

/// The number a component starts with.
fn component(p: &Vec<char>) -> (r: u64)
    ensures
        r == component_value(p@),
{
    let mut k: usize = 0;
    while k < p.len() && '0' <= p[k] && p[k] <= '9'
        invariant
            k <= p.len(),
            forall|j: int| 0 <= j < k ==> '0' <= #[trigger] p@[j] && p@[j] <= '9',
        decreases p.len() - k,
    {
        k = k + 1;
    }
    proof {
        lemma_leading_digits(p@, k as int);
    }
    let digits = to_chars(from_char_range(p, 0, k).as_str());
    assert(p@.subrange(0, k as int) =~= p@.take(k as int));
    match parse_unsigned(&digits, 0xffff_ffff_ffff_ffff) {
        Some(v) => v,
        None => 0,
    }
}

proof fn lemma_strip_v_skip(s: Seq<char>, k: int)
    requires
        0 <= k <= s.len(),
        forall|j: int| 0 <= j < k ==> s[j] == 'v',
        k == s.len() || s[k] != 'v',
    ensures
        strip_v(s) == s.skip(k),
    decreases k,
{
    if k == 0 {
        assert(s.skip(0) =~= s);
    } else {
        lemma_strip_v_skip(s.drop_first(), k - 1);
        assert(s.drop_first().skip(k - 1) =~= s.skip(k));
    }
}

/// Reads the numeric components of a version string.
pub fn parse_version(version: &str) -> (r: Vec<u64>)
    ensures
        r@ == version_parts(version@),
{
    let cs = to_chars(version);
    let mut start: usize = 0;
    while start < cs.len() && cs[start] == 'v'
        invariant
            start <= cs.len(),
            forall|j: int| 0 <= j < start ==> cs@[j] == 'v',
        decreases cs.len() - start,
    {
        start = start + 1;
    }
    proof {
        lemma_strip_v_skip(cs@, start as int);
    }
    let ghost body = cs@.skip(start as int);
    let mut parts: Vec<u64> = Vec::new();
    let mut cur: Vec<char> = Vec::new();
    let mut i: usize = start;
    assert(body.take(0) =~= Seq::<char>::empty());
    while i < cs.len()
        invariant
            start <= i <= cs.len(),
            body == cs@.skip(start as int),
            split_dots(body.take(i - start)).len() == parts@.len() + 1,
            forall|j: int| 0 <= j < parts@.len() ==> #[trigger] parts@[j] == component_value(split_dots(body.take(i - start))[j]),
            cur@ == split_dots(body.take(i - start)).last(),
        decreases cs.len() - i,
    {
        let c = cs[i];
        let ghost prev = split_dots(body.take(i - start));
        assert(body.take(i - start + 1).drop_last() =~= body.take(i - start));
        assert(body.take(i - start + 1).last() == c);
        if c == '.' {
            parts.push(component(&cur));
            cur = Vec::new();
        } else {
            cur.push(c);
        }
        i = i + 1;
    }
    parts.push(component(&cur));
    assert(body.take(cs.len() - start) =~= body);
    assert(parts@ =~= version_parts(version@));
    parts
}

/// Lexicographic comparison of component lists as -1, 0 or 1 (less, equal,
/// greater); a proper prefix comes first.
pub open spec fn version_code(a: Seq<u64>, b: Seq<u64>) -> int
    decreases a.len(),
{
    if a.len() == 0 && b.len() == 0 {
        0
    } else if a.len() == 0 {
        -1
    } else if b.len() == 0 {
        1
    } else if a[0] < b[0] {
        -1
    } else if a[0] > b[0] {
        1
    } else {
        version_code(a.drop_first(), b.drop_first())
    }
}

/// The order a comparison code stands for.
pub open spec fn order_of(code: int) -> Ordering {
    if code < 0 {
        Ordering::Less
    } else if code == 0 {
        Ordering::Equal
    } else {
        Ordering::Greater
    }
}

/// Lexicographic order of component lists.
pub open spec fn version_order(a: Seq<u64>, b: Seq<u64>) -> Ordering {
    order_of(version_code(a, b))
}

fn compare_parts(a: &Vec<u64>, b: &Vec<u64>) -> (r: i8)
    ensures
        r as int == version_code(a@, b@),
{
    let mut i: usize = 0;
    assert(a@.skip(0) =~= a@);
    assert(b@.skip(0) =~= b@);
    while i < a.len() && i < b.len()
        invariant
            i <= a.len(),
            i <= b.len(),
            version_code(a@, b@) == version_code(a@.skip(i as int), b@.skip(i as int)),
        decreases a.len() - i,
    {
        if a[i] < b[i] {
            return -1;
        }
        if a[i] > b[i] {
            return 1;
        }
        assert(a@.skip(i as int).drop_first() =~= a@.skip(i + 1));
        assert(b@.skip(i as int).drop_first() =~= b@.skip(i + 1));
        i = i + 1;
    }
    if i < a.len() {
        1
    } else if i < b.len() {
        -1
    } else {
        0
    }
}

/// Compares two version strings component by component.
pub fn compare_versions(current: &str, latest: &str) -> (r: Ordering)
    ensures
        r == version_order(version_parts(current@), version_parts(latest@)),
{
    let a = parse_version(current);
    let b = parse_version(latest);
    let code = compare_parts(&a, &b);
    if code < 0 {
        Ordering::Less
    } else if code == 0 {
        Ordering::Equal
    } else {
        Ordering::Greater
    }
}

/// Comparing the other way round gives the opposite order.
pub proof fn version_order_flips(a: Seq<u64>, b: Seq<u64>)
    ensures
        version_code(b, a) == -version_code(a, b),
    decreases a.len(),
{
    if a.len() > 0 && b.len() > 0 && a[0] == b[0] {
        version_order_flips(a.drop_first(), b.drop_first());
    }
}

/// Every version is equal to itself.
pub proof fn version_order_reflexive(a: Seq<u64>)
    ensures
        version_code(a, a) == 0,
    decreases a.len(),
{
    if a.len() > 0 {
        version_order_reflexive(a.drop_first());
    }
}

/// A leading `v` does not change a version.
pub proof fn leading_v_is_ignored(s: Seq<char>)
    ensures
        version_parts(seq!['v'] + s) == version_parts(s),
{
    assert((seq!['v'] + s).drop_first() =~= s);
}

/// The update status for a version order and whether only a check was
/// asked for.
pub open spec fn update_status_spec(order: Ordering, check: bool) -> Seq<char> {
    match order {
        Ordering::Equal => "up_to_date"@,
        Ordering::Less => if check {
            "update_available"@
        } else {
            "manual_update_required"@
        },
        Ordering::Greater => "ahead_of_registry"@,
    }
}

/// The update status.
pub fn update_status(order: Ordering, check: bool) -> (r: &'static str)
    ensures
        r@ == update_status_spec(order, check),
{
    match order {
        Ordering::Equal => "up_to_date",
        Ordering::Less => if check {
            "update_available"
        } else {
            "manual_update_required"
        },
        Ordering::Greater => "ahead_of_registry",
    }
}

/// The update message for users.
pub open spec fn update_message_spec(order: Ordering, check: bool, name: Seq<char>, command: Seq<char>) -> Seq<char> {
    if check {
        match order {
            Ordering::Equal => name + " is up to date."@,
            Ordering::Less => "Update available. Run: "@ + command,
            Ordering::Greater => name + " is newer than the latest crates.io version; publish before packaging."@,
        }
    } else {
        "Use the package manager that installed this binary: "@ + command
    }
}

/// The update message.
pub fn update_message(order: Ordering, check: bool, name: &str, command: &str) -> (r: String)
    ensures
        r@ == update_message_spec(order, check, name@, command@),
{
    let mut m = String::new();
    if check {
        match order {
            Ordering::Equal => {
                push_str(&mut m, name);
                push_str(&mut m, " is up to date.");
            },
            Ordering::Less => {
                push_str(&mut m, "Update available. Run: ");
                push_str(&mut m, command);
            },
            Ordering::Greater => {
                push_str(&mut m, name);
                push_str(&mut m, " is newer than the latest crates.io version; publish before packaging.");
            },
        }
    } else {
        push_str(&mut m, "Use the package manager that installed this binary: ");
        push_str(&mut m, command);
    }
    m
}

/// How the binary was installed, judged by its path, and the matching
/// update command.
pub open spec fn install_source_spec(exe: Seq<char>, name: Seq<char>) -> (Seq<char>, Seq<char>) {
    if seq_contains(exe, "/Cellar/"@) || seq_contains(exe, "homebrew"@) {
        ("homebrew"@, "brew upgrade paperfoot/tap/"@ + name)
    } else if seq_contains(exe, ".cargo/bin"@) {
        ("cargo"@, "cargo install "@ + name + " --force"@)
    } else {
        ("local-build"@, "cargo install "@ + name + " --force"@)
    }
}

/// Detects the install source from the executable's path.
pub fn install_source(exe: &str, name: &str) -> (r: (&'static str, String))
    ensures
        (r.0@, r.1@) == install_source_spec(exe@, name@),
{
    if str_contains(exe, "/Cellar/") || str_contains(exe, "homebrew") {
        let mut c = owned("brew upgrade paperfoot/tap/");
        push_str(&mut c, name);
        ("homebrew", c)
    } else {
        let mut c = owned("cargo install ");
        push_str(&mut c, name);
        push_str(&mut c, " --force");
        if str_contains(exe, ".cargo/bin") {
            ("cargo", c)
        } else {
            ("local-build", c)
        }
    }
}

/// Reads the answer of the crates.io crate endpoint: on a 2xx status the
/// crate's `max_version` (`max_version` is the body read as
/// `{"crate": {"max_version": ...}}`, or the reader's message), otherwise a
/// transient error with the status and the trimmed body.
pub fn interpret_crates_response(status: u16, status_text: &str, body: &str, max_version: Result<
    String,
    String,
>) -> (r: Result<String, AppError>)
    ensures
        !(200 <= status <= 299) ==> (r matches Err(AppError::Transient(m)) && m@
            == "crates.io version check failed ("@ + status_text@ + "): "@ + trim(body@)),
        200 <= status <= 299 ==> match max_version {
            Ok(v) => r matches Ok(x) && x@ == v@,
            Err(e) => r matches Err(AppError::Transient(m)) && m@ == "crates.io returned invalid JSON: "@ + e@,
        },
{
    if !(200 <= status && status <= 299) {
        let mut m = owned("crates.io version check failed (");
        push_str(&mut m, status_text);
        push_str(&mut m, "): ");
        let t = trim_str(body);
        push_str(&mut m, t.as_str());
        return Err(AppError::Transient(m));
    }
    match max_version {
        Ok(v) => Ok(v),
        Err(e) => {
            let mut m = owned("crates.io returned invalid JSON: ");
            push_str(&mut m, e.as_str());
            Err(AppError::Transient(m))
        },
    }
}

} // verus!

//! Detection: interpreting the managed tool's response to a version query.
//!
//! The surrounding application runs `git --version` and hands the observed
//! outcome to [`status_from_probe`]; everything from there on is verified.
//! The reported version is the third whitespace-delimited token of the
//! captured standard output (`"git version 2.43.0"` yields `"2.43.0"`).

use vstd::prelude::*;

verus! {

/// One entry of the environment report: the managed tool, whether it was
/// found, whether it is required, and the version it reported.
#[derive(Debug, Clone)]
pub struct EnvItem {
    pub name: String,
    pub installed: bool,
    pub required: bool,
    pub version: Option<String>,
}

/// What the version probe observed: either the binary could not be spawned,
/// or it exited, with its success flag and captured standard output.
#[derive(Debug, Clone)]
pub enum ProbeOutcome {
    SpawnError,
    Exited { success: bool, stdout: String },
}

/// The view of an optional string.
pub open spec fn opt_view(v: Option<String>) -> Option<Seq<char>> {
    match v {
        Some(s) => Some(s@),
        None => None,
    }
}

/// The whitespace characters that delimit tokens of the probe output.
pub open spec fn is_space(c: char) -> bool {
    c == ' ' || c == '\t' || c == '\n' || c == '\r'
}

/// The first index at or after `i` holding a non-space character, or the end.
pub open spec fn skip_spaces(s: Seq<char>, i: nat) -> nat
    recommends
        i <= s.len(),
    decreases s.len() - i,
{
    if i >= s.len() || !is_space(s[i as int]) {
        i
    } else {
        skip_spaces(s, i + 1)
    }
}

/// The first index at or after `i` holding a space, or the end: where the
/// token starting at `i` ends.
pub open spec fn skip_token(s: Seq<char>, i: nat) -> nat
    recommends
        i <= s.len(),
    decreases s.len() - i,
{
    if i >= s.len() || is_space(s[i as int]) {
        i
    } else {
        skip_token(s, i + 1)
    }
}

/// Where the `k`-th (0-based) whitespace-delimited token of `s` starts; the
/// end of `s` when there are not that many tokens.
pub open spec fn token_start(s: Seq<char>, k: nat) -> nat
    decreases k,
{
    if k == 0 {
        skip_spaces(s, 0)
    } else {
        skip_spaces(s, skip_token(s, token_start(s, (k - 1) as nat)))
    }
}

/// The `k`-th whitespace-delimited token of `s`, if `s` has that many.
pub open spec fn nth_token(s: Seq<char>, k: nat) -> Option<Seq<char>> {
    if token_start(s, k) < s.len() {
        Some(s.subrange(token_start(s, k) as int, skip_token(s, token_start(s, k)) as int))
    } else {
        None
    }
}

pub proof fn lemma_skip_spaces_bounds(s: Seq<char>, i: nat)
    requires
        i <= s.len(),
    ensures
        i <= skip_spaces(s, i) <= s.len(),
        skip_spaces(s, i) < s.len() ==> !is_space(s[skip_spaces(s, i) as int]),
    decreases s.len() - i,
{
    if i >= s.len() || !is_space(s[i as int]) {
    } else {
        lemma_skip_spaces_bounds(s, i + 1);
    }
}

pub proof fn lemma_skip_token_bounds(s: Seq<char>, i: nat)
    requires
        i <= s.len(),
    ensures
        i <= skip_token(s, i) <= s.len(),
    decreases s.len() - i,
{
    if i >= s.len() || is_space(s[i as int]) {
    } else {
        lemma_skip_token_bounds(s, i + 1);
    }
}

pub proof fn lemma_token_start_bounds(s: Seq<char>, k: nat)
    ensures
        token_start(s, k) <= s.len(),
        token_start(s, k) < s.len() ==> !is_space(s[token_start(s, k) as int]),
    decreases k,
{
    if k == 0 {
        lemma_skip_spaces_bounds(s, 0);
    } else {
        lemma_token_start_bounds(s, (k - 1) as nat);
        lemma_skip_token_bounds(s, token_start(s, (k - 1) as nat));
        lemma_skip_spaces_bounds(s, skip_token(s, token_start(s, (k - 1) as nat)));
    }
}

/// A token that exists is never empty: tokens start at a non-space
/// character, so their end lies strictly beyond their start.
pub proof fn lemma_nth_token_nonempty(s: Seq<char>, k: nat)
    requires
        nth_token(s, k) is Some,
    ensures
        nth_token(s, k)->Some_0.len() > 0,
{
    lemma_token_start_bounds(s, k);
    lemma_skip_token_bounds(s, (token_start(s, k) + 1) as nat);
    assert(skip_token(s, token_start(s, k)) > token_start(s, k));
}

fn is_space_char(c: char) -> (r: bool)
    ensures
        r == is_space(c),
{
    c == ' ' || c == '\t' || c == '\n' || c == '\r'
}

fn skip_spaces_exec(s: &str, from: usize, n: usize) -> (r: usize)
    requires
        from <= n,
        n == s@.len(),
    ensures
        r == skip_spaces(s@, from as nat),
        from <= r <= n,
{
    let mut i: usize = from;
    loop
        invariant
            from <= i <= n,
            n == s@.len(),
            skip_spaces(s@, from as nat) == skip_spaces(s@, i as nat),
        ensures
            i == skip_spaces(s@, from as nat),
        decreases n - i,
    {
        if i >= n {
            break ;
        }
        if !is_space_char(s.get_char(i)) {
            break ;
        }
        i = i + 1;
    }
    i
}

fn skip_token_exec(s: &str, from: usize, n: usize) -> (r: usize)
    requires
        from <= n,
        n == s@.len(),
    ensures
        r == skip_token(s@, from as nat),
        from <= r <= n,
{
    let mut i: usize = from;
    loop
        invariant
            from <= i <= n,
            n == s@.len(),
            skip_token(s@, from as nat) == skip_token(s@, i as nat),
        ensures
            i == skip_token(s@, from as nat),
        decreases n - i,
    {
        if i >= n {
            break ;
        }
        if is_space_char(s.get_char(i)) {
            break ;
        }
        i = i + 1;
    }
    i
}

/// Extracts the reported version from the probe's standard output: the third
/// whitespace-delimited token, or `None` when the output holds fewer than
/// three tokens.
pub fn parse_version(output: &str) -> (r: Option<String>)
    ensures
        opt_view(r) == nth_token(output@, 2),
{
    let n = output.unicode_len();
    let i0 = skip_spaces_exec(output, 0, n);
    let i1 = skip_token_exec(output, i0, n);
    let i2 = skip_spaces_exec(output, i1, n);
    let i3 = skip_token_exec(output, i2, n);
    let start = skip_spaces_exec(output, i3, n);
    proof {
        assert(i0 == token_start(output@, 0));
        assert(i2 == token_start(output@, 1));
        assert(start == token_start(output@, 2));
    }
    if start < n {
        let end = skip_token_exec(output, start, n);
        let tok = output.substring_char(start, end);
        Some(String::from_str(tok))
    } else {
        None
    }
}

/// Whether the probe saw the binary answer its version query successfully.
pub open spec fn probe_success(p: ProbeOutcome) -> bool {
    p matches ProbeOutcome::Exited { success, .. } && success
}

/// The version the detector reports for a probe: the third token of the
/// output on success, nothing otherwise.
pub open spec fn detected_version(p: ProbeOutcome) -> Option<Seq<char>> {
    match p {
        ProbeOutcome::SpawnError => None,
        ProbeOutcome::Exited { success, stdout } => if success {
            nth_token(stdout@, 2)
        } else {
            None
        },
    }
}

/// The detector: folds one probe of the target binary into a fresh status
/// value.  A probe that could not run, or that exited unsuccessfully, yields
/// `installed = false` and no version; a successful probe yields
/// `installed = true` and the version parsed from its output.
pub fn status_from_probe(probe: &ProbeOutcome) -> (r: EnvItem)
    ensures
        r.name@ == "Git"@,
        r.required,
        r.installed == probe_success(*probe),
        opt_view(r.version) == detected_version(*probe),
{
    match probe {
        ProbeOutcome::SpawnError => EnvItem {
            name: String::from_str("Git"),
            installed: false,
            required: true,
            version: None,
        },
        ProbeOutcome::Exited { success, stdout } => {
            let version = if *success {
                parse_version(stdout.as_str())
            } else {
                None
            };
            EnvItem { name: String::from_str("Git"), installed: *success, required: true, version }
        },
    }
}

/// The environment report: every dependency this service manages, which is
/// exactly the one tool.
pub fn get_env_requirements(git: EnvItem) -> (r: Vec<EnvItem>)
    ensures
        r@.len() == 1,
        r@[0] == git,
{
    let mut items: Vec<EnvItem> = Vec::new();
    items.push(git);
    items
}

/// Law: a probe that failed to run, or whose process exited unsuccessfully,
/// is reported as not installed and carries no version.
pub proof fn lemma_absent_tool_reported_absent(p: ProbeOutcome)
    requires
        !probe_success(p),
    ensures
        detected_version(p) is None,
{
}

/// Law: a probe whose process answered the version query successfully and
/// whose output carries a third whitespace-delimited token is reported as
/// installed, with a non-empty version.
pub proof fn lemma_present_tool_reported_present(p: ProbeOutcome)
    requires
        probe_success(p),
        p matches ProbeOutcome::Exited { stdout, .. } ==> nth_token(stdout@, 2) is Some,
    ensures
        detected_version(p) is Some,
        detected_version(p)->Some_0.len() > 0,
{
    match p {
        ProbeOutcome::Exited { stdout, .. } => {
            lemma_nth_token_nonempty(stdout@, 2);
        },
        ProbeOutcome::SpawnError => {
        },
    }
}

} // verus!

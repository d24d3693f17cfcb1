//! Process-runner logic: tagging each drained child-process line with its
//! stream of origin, in order, and interpreting the exit status.
//!
//! The application spawns the installer with both output streams piped and
//! drains them concurrently with its wait for the exit; each decoded line is
//! tagged here before being forwarded as a progress event.

use vstd::prelude::*;

verus! {

/// Which stream of the child process a line came from.
#[derive(Debug, Clone, Copy, PartialEq, Eq, Structural)]
pub enum StreamOrigin {
    Stdout,
    Stderr,
}

/// The tag prepended to a relayed line of the given origin.
pub open spec fn origin_tag(o: StreamOrigin) -> Seq<char> {
    match o {
        StreamOrigin::Stdout => "install output: "@,
        StreamOrigin::Stderr => "install error: "@,
    }
}

/// One relayed progress event: the line, tagged with its origin.
pub open spec fn tagged_line(o: StreamOrigin, line: Seq<char>) -> Seq<char> {
    origin_tag(o) + line
}

/// Tags one decoded line with its stream of origin.
pub fn tag_line(origin: StreamOrigin, line: &str) -> (r: String)
    ensures
        r@ == tagged_line(origin, line@),
{
    match origin {
        StreamOrigin::Stdout => String::from_str("install output: ").concat(line),
        StreamOrigin::Stderr => String::from_str("install error: ").concat(line),
    }
}

/// Relays one drained stream: exactly one tagged progress event per decoded
/// line, in the stream's original order.
pub fn relay_lines(origin: StreamOrigin, lines: &Vec<String>) -> (r: Vec<String>)
    ensures
        r@.len() == lines@.len(),
        forall|i: int| 0 <= i < r@.len() ==> r@[i]@ == tagged_line(origin, lines@[i]@),
{
    let mut out: Vec<String> = Vec::new();
    let mut idx: usize = 0;
    while idx < lines.len()
        invariant
            idx <= lines.len(),
            out@.len() == idx,
            forall|i: int| 0 <= i < idx ==> out@[i]@ == tagged_line(origin, lines@[i]@),
        decreases lines.len() - idx,
    {
        out.push(tag_line(origin, lines[idx].as_str()));
        idx = idx + 1;
    }
    out
}

/// The exit of an installer process, as the process runner observed it:
/// whether the exit was successful, and the numeric exit code when the
/// operating system delivered one.
#[derive(Debug, Clone, Copy, PartialEq, Eq)]
pub struct ExitStatus {
    pub success: bool,
    pub code: Option<i32>,
}

/// The exit code used in failure reports: the observed code, or -1 as the
/// unknown-failure sentinel when the child delivered none.  A missing code
/// is never treated as success.
pub open spec fn exit_code_or_unknown(st: ExitStatus) -> int {
    match st.code {
        Some(c) => c as int,
        None => -1,
    }
}

/// Returns the exit code to report for `st`, with -1 for an unknown one.
pub fn exit_code_sentinel(st: &ExitStatus) -> (r: i32)
    ensures
        r as int == exit_code_or_unknown(*st),
{
    match st.code {
        Some(c) => c,
        None => -1,
    }
}

} // verus!

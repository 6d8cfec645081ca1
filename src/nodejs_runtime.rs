//! The line protocol of the download script run under Node.js: which lines
//! report progress, completion, the resolved version or a failure, and what
//! the run amounts to once the process has ended.

use vstd::prelude::*;
use vstd::string::*;
use crate::text::{chars_of, decimal, push_decimal};

verus! {

/// The Node.js interpreter that runs the download scripts.
pub struct NodejsRuntime {
    node_path: String,
}

impl NodejsRuntime {
    /// The interpreter's path.
    pub closed spec fn path(&self) -> Seq<char> {
        self.node_path@
    }

    /// A runtime using the interpreter at `node_path`.
    pub fn with_node_path(node_path: String) -> (r: NodejsRuntime)
        ensures
            r.path() == node_path@,
    {
        NodejsRuntime { node_path }
    }

    /// The interpreter's path.
    pub fn node_path(&self) -> (r: &str)
        ensures
            r@ == self.path(),
    {
        self.node_path.as_str()
    }
}

/// What a line of the script's output says.
#[derive(Debug, Clone, Copy, PartialEq, Eq, Structural)]
pub enum LineKind {
    Progress,
    Completed,
    Version,
    Failure,
    Other,
}

/// A line of the script's output: its kind, and the text after its marker
/// (trimmed, but for progress, whose text is a JSON object).
#[derive(Debug, Clone)]
pub struct ScriptLine {
    pub kind: LineKind,
    pub text: String,
}

/// A character of Unicode's White_Space property, which `char::is_whitespace`
/// and `str::trim` go by.
pub open spec fn is_white_space(c: char) -> bool {
    let u = c as u32;
    (0x09 <= u <= 0x0D) || u == 0x20 || u == 0x85 || u == 0xA0 || u == 0x1680 || (0x2000 <= u
        <= 0x200A) || u == 0x2028 || u == 0x2029 || u == 0x202F || u == 0x205F || u == 0x3000
}

/// `s` without its leading white space.
pub open spec fn trim_start_of(s: Seq<char>) -> Seq<char>
    decreases s.len(),
{
    if s.len() > 0 && is_white_space(s[0]) {
        trim_start_of(s.drop_first())
    } else {
        s
    }
}

/// `s` without its trailing white space.
pub open spec fn trim_end_of(s: Seq<char>) -> Seq<char>
    decreases s.len(),
{
    if s.len() > 0 && is_white_space(s.last()) {
        trim_end_of(s.drop_last())
    } else {
        s
    }
}

/// `s` without leading and trailing white space.
pub open spec fn trimmed_of(s: Seq<char>) -> Seq<char> {
    trim_end_of(trim_start_of(s))
}

fn white_space(c: char) -> (r: bool)
    ensures
        r == is_white_space(c),
{
    let u = c as u32;
    (0x09 <= u && u <= 0x0D) || u == 0x20 || u == 0x85 || u == 0xA0 || u == 0x1680 || (0x2000 <= u
        && u <= 0x200A) || u == 0x2028 || u == 0x2029 || u == 0x202F || u == 0x205F || u == 0x3000
}

/// The text without leading and trailing white space.
fn trim_text(s: &str) -> (r: String)
    ensures
        r@ == trimmed_of(s@),
{
    let cs = chars_of(s);
    let n = cs.len();
    let mut i: usize = 0;
    assert(s@.subrange(0, n as int) =~= s@);
    while i < n && white_space(cs[i])
        invariant
            cs@ == s@,
            n == s@.len(),
            i <= n,
            trim_start_of(s@) == trim_start_of(s@.subrange(i as int, n as int)),
        decreases n - i,
    {
        assert(s@.subrange(i as int, n as int).drop_first() =~= s@.subrange(i + 1, n as int));
        i += 1;
    }
    let ghost rest = s@.subrange(i as int, n as int);
    assert(trim_start_of(s@) == rest);
    let mut j: usize = n;
    assert(rest.subrange(0, (n - i) as int) =~= rest);
    while j > i && white_space(cs[j - 1])
        invariant
            cs@ == s@,
            n == s@.len(),
            i <= j <= n,
            rest == s@.subrange(i as int, n as int),
            trim_end_of(rest) == trim_end_of(s@.subrange(i as int, j as int)),
        decreases j,
    {
        assert(s@.subrange(i as int, j as int).drop_last() =~= s@.subrange(i as int, j - 1));
        j -= 1;
    }
    String::from_str(s.substring_char(i, j))
}

/// `s` starts with `p`.
pub open spec fn starts_with(s: Seq<char>, p: Seq<char>) -> bool {
    p.len() <= s.len() && s.subrange(0, p.len() as int) == p
}

/// What follows prefix `p` in `s`.
pub open spec fn after(s: Seq<char>, p: Seq<char>) -> Seq<char> {
    s.subrange(p.len() as int, s.len() as int)
}

/// The kind of a line, by its marker.
pub open spec fn line_kind_of(line: Seq<char>) -> LineKind {
    if starts_with(line, "PROGRESS:"@) {
        LineKind::Progress
    } else if starts_with(line, "COMPLETED:"@) {
        LineKind::Completed
    } else if starts_with(line, "VERSION:"@) {
        LineKind::Version
    } else if starts_with(line, "ERROR:"@) {
        LineKind::Failure
    } else {
        LineKind::Other
    }
}

/// The text a line carries.
pub open spec fn line_text_of(line: Seq<char>) -> Seq<char> {
    match line_kind_of(line) {
        LineKind::Progress => after(line, "PROGRESS:"@),
        LineKind::Completed => trimmed_of(after(line, "COMPLETED:"@)),
        LineKind::Version => trimmed_of(after(line, "VERSION:"@)),
        LineKind::Failure => trimmed_of(after(line, "ERROR:"@)),
        LineKind::Other => line,
    }
}

fn strip_marker<'a>(line: &'a str, marker: &str) -> (r: Option<&'a str>)
    ensures
        match r {
            Some(rest) => starts_with(line@, marker@) && rest@ == after(line@, marker@),
            None => !starts_with(line@, marker@),
        },
{
    let l = chars_of(line);
    let m = chars_of(marker);
    if m.len() > l.len() {
        return None;
    }
    let mut i: usize = 0;
    while i < m.len()
        invariant
            l@ == line@,
            m@ == marker@,
            m@.len() <= l@.len(),
            i <= m@.len(),
            forall|j: int| 0 <= j < i ==> l@[j] == m@[j],
        decreases m@.len() - i,
    {
        if l[i] != m[i] {
            assert(line@.subrange(0, marker@.len() as int)[i as int] != marker@[i as int]);
            return None;
        }
        i += 1;
    }
    assert(line@.subrange(0, marker@.len() as int) =~= marker@);
    Some(line.substring_char(m.len(), l.len()))
}

/// Reads one line of the script's output.
pub fn parse_script_line(line: &str) -> (r: ScriptLine)
    ensures
        r.kind == line_kind_of(line@),
        r.text@ == line_text_of(line@),
{
    if let Some(rest) = strip_marker(line, "PROGRESS:") {
        return ScriptLine { kind: LineKind::Progress, text: String::from_str(rest) };
    }
    if let Some(rest) = strip_marker(line, "COMPLETED:") {
        return ScriptLine { kind: LineKind::Completed, text: trim_text(rest) };
    }
    if let Some(rest) = strip_marker(line, "VERSION:") {
        return ScriptLine { kind: LineKind::Version, text: trim_text(rest) };
    }
    if let Some(rest) = strip_marker(line, "ERROR:") {
        return ScriptLine { kind: LineKind::Failure, text: trim_text(rest) };
    }
    ScriptLine { kind: LineKind::Other, text: String::from_str(line) }
}

/// What a run of the download script has reported so far.
pub struct ScriptOutcome {
    pub install_path: Option<String>,
    pub actual_version: String,
}

/// A signed number in decimal, with a minus sign where negative.
pub open spec fn signed_decimal(n: int) -> Seq<char> {
    if n < 0 {
        "-"@ + decimal((-n) as nat)
    } else {
        decimal(n as nat)
    }
}

/// The `Debug` form of an optional exit code.
pub open spec fn exit_code_text(code: Option<i32>) -> Seq<char> {
    match code {
        Some(c) => "Some("@ + signed_decimal(c as int) + ")"@,
        None => "None"@,
    }
}

impl ScriptOutcome {
    /// Nothing reported yet; the version is the one asked for until the
    /// script names another.
    pub fn new(requested_version: &str) -> (r: ScriptOutcome)
        ensures
            r.install_path is None,
            r.actual_version@ == requested_version@,
    {
        ScriptOutcome { install_path: None, actual_version: String::from_str(requested_version) }
    }

    /// Takes in one line: a completion line gives the install path, a
    /// version line with text gives the resolved version; other lines change
    /// nothing here.
    pub fn absorb(&mut self, line: &ScriptLine)
        ensures
            line.kind == LineKind::Completed ==> final(self).install_path == Some(line.text)
                && final(self).actual_version == old(self).actual_version,
            line.kind == LineKind::Version && line.text@.len() > 0 ==> final(self).actual_version
                == line.text && final(self).install_path == old(self).install_path,
            line.kind != LineKind::Completed && !(line.kind == LineKind::Version && line.text@.len()
                > 0) ==> *final(self) == *old(self),
    {
        match line.kind {
            LineKind::Completed => {
                self.install_path = Some(line.text.clone());
            },
            LineKind::Version => {
                if line.text.as_str().unicode_len() > 0 {
                    self.actual_version = line.text.clone();
                }
            },
            _ => {},
        }
    }

    /// The result of the run once the process has ended: the install path
    /// and resolved version where it succeeded and named a path.
    pub fn finish(self, exit_success: bool, exit_code: Option<i32>) -> (r: Result<(String, String), String>)
        ensures
            exit_success && self.install_path is Some ==> r == Ok::<(String, String), String>(
                (self.install_path->0, self.actual_version),
            ),
            exit_success && self.install_path is None ==> (r matches Err(e) && e@
                == "Download completed but install path not found"@),
            !exit_success ==> (r matches Err(e) && e@ == "Node.js process failed with exit code: "@
                + exit_code_text(exit_code)),
    {
        if exit_success {
            match self.install_path {
                Some(path) => Ok((path, self.actual_version)),
                None => Err(String::from_str("Download completed but install path not found")),
            }
        } else {
            let mut e = String::from_str("Node.js process failed with exit code: ");
            match exit_code {
                Some(c) => {
                    e.append("Some(");
                    if c < 0 {
                        e.append("-");
                        push_decimal(&mut e, (-(c as i64)) as u64);
                    } else {
                        push_decimal(&mut e, c as u64);
                    }
                    e.append(")");
                },
                None => {
                    e.append("None");
                },
            }
            Err(e)
        }
    }
}

} // verus!

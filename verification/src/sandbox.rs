//! Sandbox configuration, its builder, and the checks a command passes
//! before it runs.

use vstd::prelude::*;
use crate::permissions::{
    PermissionsBuilder, PermissionsBuilderView, Permissions, PermissionsView, slices, BuilderStep, builder_step,
    built,
};
use crate::policy::{PolicyEngine, path_allowed};
use crate::strmap::StrMap;
use crate::text::{
    chars_of, chars_eq, contains, contains_exec, find, find_from_exec, lemma_find_from, occurs_at,
    slice_range, starts_with, starts_with_exec, string_from_chars, strip_prefix_exec,
    strip_prefix_or_self, trim_start_ws, trim_start_ws_exec, words, words_exec, is_whitespace,
};

verus! {

/// `std::path::PathBuf`, carried unread.
#[verifier::external_type_specification]
#[verifier::external_body]
pub struct ExPathBuf(std::path::PathBuf);

/// The duration of `secs` whole seconds.
pub uninterp spec fn seconds(secs: u64) -> std::time::Duration;

/// `std::time::Duration::from_secs`.
#[verifier::external_body]
fn duration_from_secs(secs: u64) -> (r: std::time::Duration)
    ensures
        r == seconds(secs),
{
    std::time::Duration::from_secs(secs)
}

// ---------------------------------------------------------------------------
// Heredoc stripping
// ---------------------------------------------------------------------------

/// Whether `c` is alphanumeric in the sense of `char::is_alphanumeric`.
pub uninterp spec fn char_alphanumeric(c: char) -> bool;

/// `char::is_alphanumeric`; the contract names the result, and states that
/// ASCII letters and digits are alphanumeric.
#[verifier::external_body]
pub(crate) fn is_alphanumeric(c: char) -> (r: bool)
    ensures
        r == char_alphanumeric(c),
        ('a' <= c <= 'z' || 'A' <= c <= 'Z' || '0' <= c <= '9') ==> r,
{
    c.is_alphanumeric()
}

/// A character that may appear in a heredoc tag.
pub open spec fn is_tag_char(c: char) -> bool {
    char_alphanumeric(c) || c == '_'
}

/// The index of the first character at or after `i` that cannot appear in
/// a tag.
pub open spec fn tag_end(s: Seq<char>, i: int) -> int
    decreases s.len() - i,
{
    if i < 0 || i >= s.len() || !is_tag_char(s[i]) {
        i
    } else {
        tag_end(s, i + 1)
    }
}

/// The tag that opens a heredoc, read from the text after `<<` and its
/// optional `-` and whitespace: optional quote, then tag characters, then
/// the matching quote if present. Returns the tag and the text after it;
/// an empty tag means there is no heredoc, and the text is returned whole.
pub open spec fn heredoc_tag(s: Seq<char>) -> (Seq<char>, Seq<char>) {
    let quoted = s.len() > 0 && (s[0] == '\'' || s[0] == '"');
    let start = if quoted {
        s.drop_first()
    } else {
        s
    };
    let end = tag_end(start, 0);
    let tag = start.subrange(0, end);
    if tag.len() == 0 {
        (Seq::empty(), s)
    } else {
        let after = start.subrange(end, start.len() as int);
        let after_quote = if quoted && after.len() > 0 && after[0] == s[0] {
            after.drop_first()
        } else {
            after
        };
        (tag, after_quote)
    }
}

/// A tag ends inside the text it is read from.
pub proof fn lemma_tag_end(s: Seq<char>, i: int)
    requires
        0 <= i <= s.len(),
    ensures
        i <= tag_end(s, i) <= s.len(),
    decreases s.len() - i,
{
    if i < s.len() && is_tag_char(s[i]) {
        lemma_tag_end(s, i + 1);
    }
}

/// The text after a tag is no longer than the text the tag is read from.
pub proof fn lemma_heredoc_tag_len(s: Seq<char>)
    ensures
        heredoc_tag(s).1.len() <= s.len(),
{
    let quoted = s.len() > 0 && (s[0] == '\'' || s[0] == '"');
    let start = if quoted {
        s.drop_first()
    } else {
        s
    };
    lemma_tag_end(start, 0);
}

/// Dropping leading whitespace does not lengthen a text.
pub proof fn lemma_trim_start_ws_len(s: Seq<char>)
    ensures
        trim_start_ws(s).len() <= s.len(),
    decreases s.len(),
{
    if s.len() > 0 && is_whitespace(s[0]) {
        lemma_trim_start_ws_len(s.drop_first());
    }
}

/// The closing line of a heredoc: the tag between two newlines.
pub open spec fn heredoc_end(tag: Seq<char>) -> Seq<char> {
    seq!['\n'] + tag + seq!['\n']
}

/// `rem` with the body of each heredoc removed: everything from a `<<`
/// that opens a heredoc through its closing tag line goes, or through the
/// end of the text when the tag never closes; a `<<` that opens no heredoc
/// stays.
pub open spec fn strip_heredocs(rem: Seq<char>) -> Seq<char>
    decreases rem.len(),
{
    match find(rem, seq!['<', '<']) {
        None => rem,
        Some(pos) => {
            proof {
                lemma_find_from(rem, seq!['<', '<'], 0);
            }
            let after_arrows = rem.subrange(pos + 2, rem.len() as int);
            let after_dash = strip_prefix_or_self(after_arrows, seq!['-']);
            let after_ws = trim_start_ws(after_dash);
            let (tag, after_tag) = heredoc_tag(after_ws);
            if tag.len() == 0 {
                rem.subrange(0, pos) + seq!['<', '<'] + strip_heredocs(after_arrows)
            } else {
                match find(after_tag, heredoc_end(tag)) {
                    Some(p) => {
                        proof {
                            lemma_trim_start_ws_len(after_dash);
                            lemma_heredoc_tag_len(after_ws);
                            lemma_find_from(after_tag, heredoc_end(tag), 0);
                        }
                        rem.subrange(0, pos) + strip_heredocs(
                            after_tag.subrange(p + heredoc_end(tag).len(), after_tag.len() as int),
                        )
                    },
                    None => rem.subrange(0, pos),
                }
            }
        },
    }
}

/// The heredoc tag read from `s`, and the text after it.
pub fn extract_heredoc_tag(s: &[char]) -> (r: (Vec<char>, Vec<char>))
    ensures
        (r.0@, r.1@) == heredoc_tag(s@),
{
    let quoted = s.len() > 0 && (s[0] == '\'' || s[0] == '"');
    let start = if quoted {
        slice_range(s, 1, s.len())
    } else {
        slice_range(s, 0, s.len())
    };
    assert(s@.subrange(0, s@.len() as int) == s@);
    let mut end: usize = 0;
    while end < start.len() && (is_alphanumeric(start[end]) || start[end] == '_')
        invariant
            end <= start@.len(),
            tag_end(start@, 0) == tag_end(start@, end as int),
        decreases start@.len() - end,
    {
        end = end + 1;
    }
    let tag = slice_range(start.as_slice(), 0, end);
    if tag.len() == 0 {
        return (Vec::new(), slice_range(s, 0, s.len()));
    }
    let after = slice_range(start.as_slice(), end, start.len());
    if quoted && after.len() > 0 && after[0] == s[0] {
        (tag, slice_range(after.as_slice(), 1, after.len()))
    } else {
        (tag, after)
    }
}

/// `command` with its heredoc bodies removed.
pub fn strip_heredoc_content(command: &str) -> (r: String)
    ensures
        r@ == strip_heredocs(command@),
{
    let arrows = chars_of("<<");
    let dash = chars_of("-");
    proof {
        reveal_strlit("<<");
        reveal_strlit("-");
        assert(arrows@ =~= seq!['<', '<']);
        assert(dash@ =~= seq!['-']);
    }
    let mut result: Vec<char> = Vec::new();
    let mut remaining = chars_of(command);
    loop
        invariant
            arrows@ == seq!['<', '<'],
            dash@ == seq!['-'],
            result@ + strip_heredocs(remaining@) == strip_heredocs(command@),
        decreases remaining@.len(),
    {
        let ghost rem = remaining@;
        proof {
            lemma_find_from(rem, seq!['<', '<'], 0);
        }
        match find_from_exec(remaining.as_slice(), arrows.as_slice(), 0) {
            None => {
                let mut k: usize = 0;
                let ghost base = result@;
                while k < remaining.len()
                    invariant
                        k <= remaining@.len(),
                        result@ == base + remaining@.subrange(0, k as int),
                    decreases remaining@.len() - k,
                {
                    result.push(remaining[k]);
                    k = k + 1;
                }
                assert(remaining@.subrange(0, remaining@.len() as int) == remaining@);
                return string_from_chars(result.as_slice());
            },
            Some(pos) => {
                assert(arrows@.len() == 2);
                assert(occurs_at(rem, seq!['<', '<'], pos as int));
                let rlen = remaining.len();
                assert(pos + 2 <= rlen);
                let start = pos + 2;
                let before = slice_range(remaining.as_slice(), 0, pos);
                let after_arrows = slice_range(remaining.as_slice(), start, rlen);
                let after_dash = match strip_prefix_exec(after_arrows.as_slice(), dash.as_slice()) {
                    Some(rest) => rest,
                    None => slice_range(after_arrows.as_slice(), 0, after_arrows.len()),
                };
                assert(after_arrows@.subrange(0, after_arrows@.len() as int) == after_arrows@);
                let after_ws = trim_start_ws_exec(after_dash.as_slice());
                let (tag, after_tag) = extract_heredoc_tag(after_ws.as_slice());
                let ghost base = result@;
                let mut k: usize = 0;
                while k < before.len()
                    invariant
                        k <= before@.len(),
                        result@ == base + before@.subrange(0, k as int),
                    decreases before@.len() - k,
                {
                    result.push(before[k]);
                    k = k + 1;
                }
                assert(before@.subrange(0, before@.len() as int) == before@);
                if tag.len() == 0 {
                    result.push('<');
                    result.push('<');
                    assert(result@ == base + (before@ + seq!['<', '<']));
                    remaining = after_arrows;
                } else {
                    let mut end_pattern: Vec<char> = Vec::new();
                    end_pattern.push('\n');
                    let mut j: usize = 0;
                    while j < tag.len()
                        invariant
                            j <= tag@.len(),
                            end_pattern@ == seq!['\n'] + tag@.subrange(0, j as int),
                        decreases tag@.len() - j,
                    {
                        end_pattern.push(tag[j]);
                        j = j + 1;
                    }
                    end_pattern.push('\n');
                    assert(tag@.subrange(0, tag@.len() as int) == tag@);
                    assert(end_pattern@ == heredoc_end(tag@));
                    proof {
                        lemma_find_from(after_tag@, heredoc_end(tag@), 0);
                        lemma_trim_start_ws_len(after_dash@);
                        lemma_heredoc_tag_len(after_ws@);
                    }
                    match find_from_exec(after_tag.as_slice(), end_pattern.as_slice(), 0) {
                        Some(p) => {
                            remaining = slice_range(after_tag.as_slice(), p + end_pattern.len(), after_tag.len());
                        },
                        None => {
                            assert(result@ + strip_heredocs(Seq::empty()) == result@);
                            return string_from_chars(result.as_slice());
                        },
                    }
                }
            },
        }
    }
}

// ---------------------------------------------------------------------------
// Preflight checks
// ---------------------------------------------------------------------------

/// Punctuation stripped from both ends of a word before it is taken as a
/// path.
pub open spec fn is_token_punct(c: char) -> bool {
    c == '\'' || c == '"' || c == ',' || c == ')' || c == '(' || c == '[' || c == ']' || c == '{'
        || c == '}' || c == ';'
}

/// `s` with leading punctuation removed.
pub open spec fn trim_start_punct(s: Seq<char>) -> Seq<char>
    decreases s.len(),
{
    if s.len() > 0 && is_token_punct(s[0]) {
        trim_start_punct(s.drop_first())
    } else {
        s
    }
}

/// `s` with trailing punctuation removed.
pub open spec fn trim_end_punct(s: Seq<char>) -> Seq<char>
    decreases s.len(),
{
    if s.len() > 0 && is_token_punct(s.last()) {
        trim_end_punct(s.drop_last())
    } else {
        s
    }
}

/// A word with punctuation removed from both ends.
pub open spec fn path_token(word: Seq<char>) -> Seq<char> {
    trim_end_punct(trim_start_punct(word))
}

/// An absolute path token (other than a lone `/`) that neither the read
/// nor the write patterns admit.
pub open spec fn token_denied(token: Seq<char>, perms: PermissionsView) -> bool {
    token != seq!['/'] && starts_with(token, seq!['/']) && !path_allowed(token, perms.read)
        && !path_allowed(token, perms.write)
}

/// The first denied path token among the words from index `i`.
pub open spec fn first_denied_from(ws: Seq<Seq<char>>, perms: PermissionsView, i: int) -> Option<
    Seq<char>,
>
    decreases ws.len() - i,
{
    if i < 0 || i >= ws.len() {
        None
    } else if token_denied(path_token(ws[i]), perms) {
        Some(path_token(ws[i]))
    } else {
        first_denied_from(ws, perms, i + 1)
    }
}

/// The command names a URL or starts `curl` or `wget`.
pub open spec fn mentions_network(cmd: Seq<char>) -> bool {
    contains(cmd, "http://"@) || contains(cmd, "https://"@) || contains(cmd, " curl "@)
        || starts_with(cmd, "curl "@) || contains(cmd, " wget "@) || starts_with(cmd, "wget "@)
}

/// The first path token of a command, outside its heredoc bodies, that the
/// permissions deny.
pub open spec fn first_denied_path(cmd: Seq<char>, perms: PermissionsView) -> Option<Seq<char>> {
    first_denied_from(words(strip_heredocs(cmd)), perms, 0)
}

/// Why a command was refused before it ran.
#[derive(Debug)]
pub enum SandboxError {
    /// The command reaches for the network while none is allowed.
    NetworkDenied,
    /// The command names an absolute path that no pattern admits.
    PathDenied(String),
}

impl SandboxError {
    /// The human-readable message of the refusal.
    pub fn message(&self) -> (r: String)
        ensures
            r@ == (match self {
                SandboxError::NetworkDenied => "Network access denied by sandbox policy"@,
                SandboxError::PathDenied(t) => "Path access denied for: "@ + t@,
            }),
    {
        match self {
            SandboxError::NetworkDenied => "Network access denied by sandbox policy".to_owned(),
            SandboxError::PathDenied(t) => crate::policy::concat2("Path access denied for: ", t.as_str()),
        }
    }
}

/// `s` with punctuation removed from both ends.
pub fn path_token_exec(s: &[char]) -> (r: Vec<char>)
    ensures
        r@ == path_token(s@),
{
    let mut i: usize = 0;
    assert(s@.subrange(0, s@.len() as int) == s@);
    while i < s.len() && is_token_punct_exec(s[i])
        invariant
            i <= s@.len(),
            trim_start_punct(s@) == trim_start_punct(s@.subrange(i as int, s@.len() as int)),
        decreases s@.len() - i,
    {
        assert(s@.subrange(i as int, s@.len() as int).drop_first() == s@.subrange(i + 1, s@.len() as int));
        i = i + 1;
    }
    let mut j: usize = s.len();
    assert(s@.subrange(i as int, s@.len() as int) == s@.subrange(i as int, j as int));
    while j > i && is_token_punct_exec(s[j - 1])
        invariant
            i <= j <= s@.len(),
            trim_end_punct(trim_start_punct(s@)) == trim_end_punct(s@.subrange(i as int, j as int)),
        decreases j - i,
    {
        assert(s@.subrange(i as int, j as int).drop_last() == s@.subrange(i as int, j - 1));
        j = j - 1;
    }
    slice_range(s, i, j)
}

/// Whether `c` is stripped from the ends of a word.
pub fn is_token_punct_exec(c: char) -> (r: bool)
    ensures
        r == is_token_punct(c),
{
    c == '\'' || c == '"' || c == ',' || c == ')' || c == '(' || c == '[' || c == ']' || c == '{'
        || c == '}' || c == ';'
}

/// Whether a command mentions the network.
pub fn mentions_network_exec(cmd: &[char]) -> (r: bool)
    ensures
        r == mentions_network(cmd@),
{
    contains_exec(cmd, chars_of("http://").as_slice()) || contains_exec(cmd, chars_of("https://").as_slice())
        || contains_exec(cmd, chars_of(" curl ").as_slice()) || starts_with_exec(
        cmd,
        chars_of("curl ").as_slice(),
    ) || contains_exec(cmd, chars_of(" wget ").as_slice()) || starts_with_exec(
        cmd,
        chars_of("wget ").as_slice(),
    )
}

// ---------------------------------------------------------------------------
// Configuration and sandbox
// ---------------------------------------------------------------------------

/// Configuration for sandbox execution.
#[derive(Debug)]
pub struct SandboxConfig {
    pub permissions: Permissions,
    pub work_dir: std::path::PathBuf,
    pub data_dir: Option<std::path::PathBuf>,
    pub timeout: std::time::Duration,
    pub max_memory_mb: Option<u64>,
    pub env_vars: StrMap<String>,
    pub broker_socket: Option<std::path::PathBuf>,
}

/// Result of running a command.
#[derive(Debug)]
pub struct ExecuteResult {
    pub exit_code: i32,
    pub stdout: String,
    pub stderr: String,
    pub duration: std::time::Duration,
    pub was_killed: bool,
}

impl ExecuteResult {
    /// The result of a command that ended with `code` (or was ended by a
    /// signal, `-1`) after `duration`.
    pub fn finished(code: Option<i32>, stdout: String, stderr: String, duration: std::time::Duration) -> (r: Self)
        ensures
            r.exit_code == match code {
                Some(c) => c as int,
                None => -1int,
            },
            r.stdout == stdout,
            r.stderr == stderr,
            r.duration == duration,
            !r.was_killed,
    {
        let exit_code = match code {
            Some(c) => c,
            None => -1,
        };
        ExecuteResult { exit_code, stdout, stderr, duration, was_killed: false }
    }

    /// The result of a command that was killed when its time ran out.
    pub fn timed_out(duration: std::time::Duration) -> (r: Self)
        ensures
            r.exit_code == -1,
            r.stdout@ == Seq::<char>::empty(),
            r.stderr@ == "Timeout exceeded"@,
            r.duration == duration,
            r.was_killed,
    {
        ExecuteResult {
            exit_code: -1,
            stdout: String::new(),
            stderr: "Timeout exceeded".to_owned(),
            duration,
            was_killed: true,
        }
    }
}

/// A sandbox: a configuration and the policy engine built from its
/// permissions. The directories it names are prepared by the caller.
#[derive(Debug)]
pub struct Sandbox {
    config: SandboxConfig,
    policy: PolicyEngine,
    owns_work_dir: bool,
}

impl Sandbox {
    /// The policy decides by the configured permissions.
    #[verifier::type_invariant]
    spec fn policy_matches_config(self) -> bool {
        self.policy@ == self.config.permissions@
    }

    /// The permissions the sandbox enforces.
    pub closed spec fn spec_permissions(&self) -> PermissionsView {
        self.config.permissions@
    }

    /// The configuration.
    pub closed spec fn spec_config(&self) -> &SandboxConfig {
        &self.config
    }

    /// The permissions the sandbox enforces are those of its configuration.
    pub proof fn lemma_permissions_of_config(&self)
        ensures
            self.spec_permissions() == self.spec_config().permissions@,
    {
    }

    /// Whether the sandbox created its work directory.
    pub closed spec fn spec_owns_work_dir(&self) -> bool {
        self.owns_work_dir
    }

    /// A sandbox over `config`; `owns_work_dir` records whether the work
    /// directory was created for it.
    pub fn new(config: SandboxConfig, owns_work_dir: bool) -> (s: Self)
        ensures
            s.spec_config() == &config,
            s.spec_permissions() == config.permissions@,
            s.spec_owns_work_dir() == owns_work_dir,
    {
        let policy = PolicyEngine::new(config.permissions.clone());
        Sandbox { config, policy, owns_work_dir }
    }

    /// The policy engine.
    pub fn policy(&self) -> (r: &PolicyEngine)
        ensures
            r@ == self.spec_permissions(),
    {
        proof {
            use_type_invariant(self);
        }
        &self.policy
    }

    /// The configuration.
    pub fn config(&self) -> (r: &SandboxConfig)
        ensures
            r == self.spec_config(),
    {
        &self.config
    }

    /// The work directory.
    pub fn work_dir(&self) -> (r: &std::path::PathBuf)
        ensures
            *r == self.spec_config().work_dir,
    {
        &self.config.work_dir
    }

    /// The data directory, if set.
    pub fn data_dir(&self) -> (r: Option<&std::path::PathBuf>)
        ensures
            r == match self.spec_config().data_dir {
                Some(d) => Some(&d),
                None => None::<&std::path::PathBuf>,
            },
    {
        match &self.config.data_dir {
            Some(d) => Some(d),
            None => None,
        }
    }

    /// Whether the sandbox created its work directory.
    pub fn owns_work_dir(&self) -> (r: bool)
        ensures
            r == self.spec_owns_work_dir(),
    {
        self.owns_work_dir
    }

    /// Checks a command before it runs: with no host allowed, a command
    /// that names a URL or starts `curl` or `wget` is refused; then every
    /// word outside heredoc bodies, stripped of surrounding punctuation, that
    /// is an absolute path (other than a lone `/`) must be readable or
    /// writable, and the first that is neither is refused.
    pub fn preflight_command(&self, command: &str) -> (r: Result<(), SandboxError>)
        ensures
            match r {
                Ok(()) => !(self.spec_permissions().allow.len() == 0 && mentions_network(command@))
                    && first_denied_path(command@, self.spec_permissions()) is None,
                Err(SandboxError::NetworkDenied) => self.spec_permissions().allow.len() == 0
                    && mentions_network(command@),
                Err(SandboxError::PathDenied(t)) => !(self.spec_permissions().allow.len() == 0
                    && mentions_network(command@)) && first_denied_path(command@, self.spec_permissions())
                    == Some(t@),
            },
    {
        proof {
            use_type_invariant(self);
        }
        let cmd = chars_of(command);
        if self.config.permissions.network.allow.len() == 0 && mentions_network_exec(cmd.as_slice()) {
            return Err(SandboxError::NetworkDenied);
        }
        assert(self.spec_permissions().allow.len() == self.config.permissions.network.allow@.len());
        let stripped = strip_heredoc_content(command);
        let ws = words_exec(chars_of(stripped.as_str()).as_slice());
        let ghost wsv = ws@.map_values(|w: Vec<char>| w@);
        let ghost perms = self.spec_permissions();
        let slash = chars_of("/");
        proof {
            reveal_strlit("/");
            assert(slash@ =~= seq!['/']);
        }
        let mut i: usize = 0;
        while i < ws.len()
            invariant
                i <= ws@.len(),
                wsv == ws@.map_values(|w: Vec<char>| w@),
                wsv == words(strip_heredocs(command@)),
                perms == self.spec_permissions(),
                self.policy@ == perms,
                slash@ == seq!['/'],
                first_denied_from(wsv, perms, 0) == first_denied_from(wsv, perms, i as int),
                !(perms.allow.len() == 0 && mentions_network(command@)),
            decreases ws@.len() - i,
        {
            let token = path_token_exec(ws[i].as_slice());
            assert(wsv[i as int] == ws@[i as int]@);
            if !chars_eq(token.as_slice(), slash.as_slice()) && starts_with_exec(token.as_slice(), slash.as_slice()) {
                let t = string_from_chars(token.as_slice());
                if !self.policy.check_path_read(t.as_str()) && !self.policy.check_path_write(t.as_str()) {
                    assert(t@ == path_token(wsv[i as int]));
                    assert(token_denied(path_token(wsv[i as int]), perms));
                    assert(first_denied_from(wsv, perms, i as int) == Some(t@));
                    assert(first_denied_path(command@, self.spec_permissions()) == Some(t@));
                    assert(!(self.spec_permissions().allow.len() == 0 && mentions_network(command@)));
                    return Err(SandboxError::PathDenied(t));
                }
            }
            i = i + 1;
        }
        Ok(())
    }
}

// ---------------------------------------------------------------------------
// Builder
// ---------------------------------------------------------------------------

/// Builder for a sandbox configuration.
#[derive(Debug)]
pub struct SandboxBuilder {
    permissions_builder: PermissionsBuilder,
    work_dir: Option<std::path::PathBuf>,
    data_dir: Option<std::path::PathBuf>,
    timeout: std::time::Duration,
    max_memory_mb: Option<u64>,
    env_vars: StrMap<String>,
    broker_socket: Option<std::path::PathBuf>,
}

/// What a sandbox builder holds so far.
pub struct SandboxBuilderView {
    pub permissions: PermissionsBuilderView,
    pub work_dir: Option<std::path::PathBuf>,
    pub data_dir: Option<std::path::PathBuf>,
    pub timeout: std::time::Duration,
    pub max_memory_mb: Option<u64>,
    pub env_vars: Map<Seq<char>, Seq<char>>,
    pub broker_socket: Option<std::path::PathBuf>,
}

/// One call on a sandbox builder, with what it sets or adds.
pub enum SandboxStep {
    Permissions(BuilderStep),
    WorkDir(std::path::PathBuf),
    DataDir(std::path::PathBuf),
    Timeout(std::time::Duration),
    MaxMemoryMb(u64),
    Env(Seq<char>, Seq<char>),
    BrokerSocket(std::path::PathBuf),
}

/// What a sandbox builder holds after one call: a permission call changes
/// the permissions as it does on a permission builder; every other call
/// sets its one field.
pub open spec fn sandbox_step(b: SandboxBuilderView, step: SandboxStep) -> SandboxBuilderView {
    match step {
        SandboxStep::Permissions(p) => SandboxBuilderView { permissions: builder_step(b.permissions, p), ..b },
        SandboxStep::WorkDir(w) => SandboxBuilderView { work_dir: Some(w), ..b },
        SandboxStep::DataDir(d) => SandboxBuilderView { data_dir: Some(d), ..b },
        SandboxStep::Timeout(t) => SandboxBuilderView { timeout: t, ..b },
        SandboxStep::MaxMemoryMb(m) => SandboxBuilderView { max_memory_mb: Some(m), ..b },
        SandboxStep::Env(k, v) => SandboxBuilderView { env_vars: b.env_vars.insert(k, v), ..b },
        SandboxStep::BrokerSocket(p) => SandboxBuilderView { broker_socket: Some(p), ..b },
    }
}

/// What a sandbox builder holds after a chain of calls, in order.
pub open spec fn sandbox_steps(b: SandboxBuilderView, steps: Seq<SandboxStep>) -> SandboxBuilderView
    decreases steps.len(),
{
    if steps.len() == 0 {
        b
    } else {
        sandbox_step(sandbox_steps(b, steps.drop_last()), steps.last())
    }
}

impl View for SandboxBuilder {
    type V = SandboxBuilderView;

    closed spec fn view(&self) -> SandboxBuilderView {
        SandboxBuilderView {
            permissions: self.permissions_builder@,
            work_dir: self.work_dir,
            data_dir: self.data_dir,
            timeout: self.timeout,
            max_memory_mb: self.max_memory_mb,
            env_vars: self.env_vars@,
            broker_socket: self.broker_socket,
        }
    }
}

impl SandboxBuilder {
    /// A builder with no permissions, no directories, no memory limit, no
    /// variables, no broker, and a time limit of thirty seconds.
    pub fn new() -> (b: Self)
        ensures
            b@.permissions == PermissionsBuilder::empty_view(),
            b@.work_dir is None,
            b@.data_dir is None,
            b@.max_memory_mb is None,
            b@.env_vars == Map::<Seq<char>, Seq<char>>::empty(),
            b@.broker_socket is None,
            b@.timeout == seconds(30),
    {
        SandboxBuilder {
            permissions_builder: Permissions::builder(),
            work_dir: None,
            data_dir: None,
            timeout: duration_from_secs(30),
            max_memory_mb: None,
            env_vars: StrMap::new(),
            broker_socket: None,
        }
    }

    /// Adds readable path patterns.
    pub fn fs_read<const N: usize>(self, patterns: [&str; N]) -> (b: Self)
        ensures
            b@ == sandbox_step(self@, SandboxStep::Permissions(BuilderStep::FsRead(slices(patterns@)))),
    {
        let mut b = self;
        b.permissions_builder = b.permissions_builder.fs_read(patterns);
        b
    }

    /// Adds writable path patterns.
    pub fn fs_write<const N: usize>(self, patterns: [&str; N]) -> (b: Self)
        ensures
            b@ == sandbox_step(self@, SandboxStep::Permissions(BuilderStep::FsWrite(slices(patterns@)))),
    {
        let mut b = self;
        b.permissions_builder = b.permissions_builder.fs_write(patterns);
        b
    }

    /// Adds allowed `host:port` patterns.
    pub fn network_allow<const N: usize>(self, hosts: [&str; N]) -> (b: Self)
        ensures
            b@ == sandbox_step(self@, SandboxStep::Permissions(BuilderStep::NetworkAllow(slices(hosts@)))),
    {
        let mut b = self;
        b.permissions_builder = b.permissions_builder.network_allow(hosts);
        b
    }

    /// Denies all network access.
    pub fn network_deny(self) -> (b: Self)
        ensures
            b@ == sandbox_step(self@, SandboxStep::Permissions(BuilderStep::NetworkDeny)),
    {
        let mut b = self;
        b.permissions_builder = b.permissions_builder.network_deny();
        b
    }

    /// Adds allowed executables.
    pub fn exec_allow<const N: usize>(self, cmds: [&str; N]) -> (b: Self)
        ensures
            b@ == sandbox_step(self@, SandboxStep::Permissions(BuilderStep::ExecAllow(slices(cmds@)))),
    {
        let mut b = self;
        b.permissions_builder = b.permissions_builder.exec_allow(cmds);
        b
    }

    /// Sets the work directory.
    pub fn work_dir(self, path: std::path::PathBuf) -> (b: Self)
        ensures
            b@ == sandbox_step(self@, SandboxStep::WorkDir(path)),
    {
        let mut b = self;
        b.work_dir = Some(path);
        b
    }

    /// Sets the data directory.
    pub fn data_dir(self, path: std::path::PathBuf) -> (b: Self)
        ensures
            b@ == sandbox_step(self@, SandboxStep::DataDir(path)),
    {
        let mut b = self;
        b.data_dir = Some(path);
        b
    }

    /// Sets the timeout.
    pub fn timeout(self, duration: std::time::Duration) -> (b: Self)
        ensures
            b@ == sandbox_step(self@, SandboxStep::Timeout(duration)),
    {
        let mut b = self;
        b.timeout = duration;
        b
    }

    /// Sets the memory limit in megabytes.
    pub fn max_memory_mb(self, mb: u64) -> (b: Self)
        ensures
            b@ == sandbox_step(self@, SandboxStep::MaxMemoryMb(mb)),
    {
        let mut b = self;
        b.max_memory_mb = Some(mb);
        b
    }

    /// Sets an environment variable, replacing an earlier value.
    pub fn env(self, key: &str, value: &str) -> (b: Self)
        ensures
            b@ == sandbox_step(self@, SandboxStep::Env(key@, value@)),
    {
        let mut b = self;
        b.env_vars.insert(key.to_owned(), value.to_owned());
        b
    }

    /// Sets the broker socket for service calls.
    pub fn broker_socket(self, path: std::path::PathBuf) -> (b: Self)
        ensures
            b@ == sandbox_step(self@, SandboxStep::BrokerSocket(path)),
    {
        let mut b = self;
        b.broker_socket = Some(path);
        b
    }

    /// The configuration, with `default_work_dir` as work directory unless
    /// one was set.
    pub fn build(self, default_work_dir: std::path::PathBuf) -> (c: SandboxConfig)
        ensures
            c.permissions@ == built(self@.permissions),
            c.work_dir == (match self@.work_dir {
                Some(w) => w,
                None => default_work_dir,
            }),
            c.data_dir == self@.data_dir,
            c.timeout == self@.timeout,
            c.max_memory_mb == self@.max_memory_mb,
            c.env_vars@ == self@.env_vars,
            c.broker_socket == self@.broker_socket,
    {
        let work_dir = match self.work_dir {
            Some(w) => w,
            None => default_work_dir,
        };
        SandboxConfig {
            permissions: self.permissions_builder.build(),
            work_dir,
            data_dir: self.data_dir,
            timeout: self.timeout,
            max_memory_mb: self.max_memory_mb,
            env_vars: self.env_vars,
            broker_socket: self.broker_socket,
        }
    }
}

impl Default for SandboxBuilder {
    fn default() -> (b: Self)
        ensures
            b@.permissions == PermissionsBuilder::empty_view(),
            b@.work_dir is None,
            b@.data_dir is None,
            b@.max_memory_mb is None,
            b@.env_vars == Map::<Seq<char>, Seq<char>>::empty(),
            b@.broker_socket is None,
            b@.timeout == seconds(30),
    {
        Self::new()
    }
}

} // verus!

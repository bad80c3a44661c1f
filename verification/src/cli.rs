//! The logic of the command-line programs: the permission report of
//! `inspect`, the answer of `approve`, the watchdog, the results of a run,
//! and the parameters and replies of `sandbox-call`.

use vstd::prelude::*;
use crate::json::{
    json_member, json_member_items, json_parsed, json_string_value, json_object_value, json_text,
    member, text_of, parse_json, string_value, object_value, null_value, json_null,
};
use crate::manifest::{Manifest, ServicePermissions};
use crate::permissions::strs;
use crate::policy::{concat2, string_of};
use crate::reminders::{trim_ws, trim_ws_exec};
use crate::text::{starts_with, occurs_at, chars_of, decimal, decimal_exec, find, find_from_exec, slice_range, string_from_chars};

verus! {

// ---------------------------------------------------------------------------
// inspect
// ---------------------------------------------------------------------------

/// Each item after a prefix.
pub open spec fn bullets(prefix: Seq<char>, items: Seq<Seq<char>>) -> Seq<Seq<char>> {
    items.map_values(|i: Seq<char>| prefix + i)
}

/// The lines naming the requested services.
pub open spec fn service_lines(s: ServicePermissions) -> Seq<Seq<char>> {
    (if s.reminders is Some {
        seq!["   - Reminders"@]
    } else {
        Seq::empty()
    }) + (if s.calendar is Some {
        seq!["   - Calendar"@]
    } else {
        Seq::empty()
    }) + (if s.browser is Some {
        seq!["   - Browser"@]
    } else {
        Seq::empty()
    }) + (if s.notifications is Some {
        seq!["   - Notifications"@]
    } else {
        Seq::empty()
    }) + (if s.clipboard is Some {
        seq!["   - Clipboard"@]
    } else {
        Seq::empty()
    })
}

/// The report's lines on file access.
pub open spec fn fs_section(p: crate::manifest::Permissions) -> Seq<Seq<char>> {
    match p.fs {
        Some(f) => seq!["📁 File Access:"@] + match f.read {
            Some(r) => seq!["   Read:"@] + bullets("     - "@, strs(r@)),
            None => Seq::empty(),
        } + match f.write {
            Some(w) => seq!["   Write:"@] + bullets("     - "@, strs(w@)),
            None => Seq::empty(),
        } + seq![""@],
        None => Seq::empty(),
    }
}

/// The report's lines on the network.
pub open spec fn network_section(p: crate::manifest::Permissions) -> Seq<Seq<char>> {
    match p.network {
        Some(n) => match n.allow {
            Some(a) => seq!["🌐 Network:"@] + bullets("   - "@, strs(a@)) + seq![""@],
            None => Seq::empty(),
        },
        None => Seq::empty(),
    }
}

/// The report's lines on services.
pub open spec fn services_section(p: crate::manifest::Permissions) -> Seq<Seq<char>> {
    match p.services {
        Some(s) => seq!["🔧 Services:"@] + service_lines(s) + seq![""@],
        None => Seq::empty(),
    }
}

/// The report's lines on a list: a title, each item, and a blank line.
pub open spec fn list_section(title: Seq<char>, items: Option<Vec<String>>) -> Seq<Seq<char>> {
    match items {
        Some(e) => seq![title] + bullets("   - "@, strs(e@)) + seq![""@],
        None => Seq::empty(),
    }
}

/// The permission report of a manifest, line by line.
pub open spec fn inspect_lines(m: Manifest) -> Seq<Seq<char>> {
    let p = m.permissions;
    seq![
        "📦 Skill: "@ + m.name@ + " v"@ + m.version@,
        "   Author: "@ + m.author@,
        "   Description: "@ + m.description@,
        ""@,
        "Permissions requested:"@,
        ""@,
    ] + fs_section(p) + network_section(p) + services_section(p) + list_section(
        "⚙️  Executables:"@,
        p.exec_names,
    ) + list_section("🌍 Environment Variables:"@, p.env)
}

/// Appends a line.
fn push_line(lines: &mut Vec<String>, line: String)
    ensures
        strs(final(lines)@) == strs(old(lines)@).push(line@),
{
    let ghost l = line@;
    lines.push(line);
    proof {
        assert(strs(lines@) =~= strs(old(lines)@).push(l));
    }
}

/// Appends each item after a prefix.
fn push_bullets(lines: &mut Vec<String>, prefix: &str, items: &Vec<String>)
    ensures
        strs(final(lines)@) == strs(old(lines)@) + bullets(prefix@, strs(items@)),
{
    let ghost start = strs(lines@);
    let mut i: usize = 0;
    assert(bullets(prefix@, strs(items@).subrange(0, 0)) =~= Seq::<Seq<char>>::empty());
    assert(start + Seq::<Seq<char>>::empty() =~= start);
    while i < items.len()
        invariant
            i <= items@.len(),
            strs(lines@) == start + bullets(prefix@, strs(items@).subrange(0, i as int)),
        decreases items@.len() - i,
    {
        push_line(lines, concat2(prefix, items[i].as_str()));
        assert(bullets(prefix@, strs(items@).subrange(0, i + 1)) =~= bullets(
            prefix@,
            strs(items@).subrange(0, i as int),
        ).push(prefix@ + items@[i as int]@));
        i = i + 1;
    }
    assert(strs(items@).subrange(0, items@.len() as int) == strs(items@));
}

/// Appends the lines naming the requested services.
fn push_service_lines(lines: &mut Vec<String>, s: &ServicePermissions)
    ensures
        strs(final(lines)@) == strs(old(lines)@) + service_lines(*s),
{
    let ghost start = strs(lines@);
    if s.reminders.is_some() {
        push_line(lines, string_of("   - Reminders"));
    }
    let ghost a = strs(lines@);
    if s.calendar.is_some() {
        push_line(lines, string_of("   - Calendar"));
    }
    let ghost b = strs(lines@);
    if s.browser.is_some() {
        push_line(lines, string_of("   - Browser"));
    }
    let ghost c = strs(lines@);
    if s.notifications.is_some() {
        push_line(lines, string_of("   - Notifications"));
    }
    let ghost d = strs(lines@);
    if s.clipboard.is_some() {
        push_line(lines, string_of("   - Clipboard"));
    }
    assert(strs(lines@) =~= start + service_lines(*s));
}

/// Appends the lines on file access.
fn push_fs_section(lines: &mut Vec<String>, p: &crate::manifest::Permissions)
    ensures
        strs(final(lines)@) == strs(old(lines)@) + fs_section(*p),
{
    let ghost s0 = strs(lines@);
    match &p.fs {
        Some(f) => {
            push_line(lines, string_of("📁 File Access:"));
            let ghost f0 = strs(lines@);
            match &f.read {
                Some(r) => {
                    push_line(lines, string_of("   Read:"));
                    push_bullets(lines, "     - ", r);
                },
                None => {},
            }
            let ghost f1 = strs(lines@);
            assert(f1 =~= f0 + match f.read {
                Some(r) => seq!["   Read:"@] + bullets("     - "@, strs(r@)),
                None => Seq::<Seq<char>>::empty(),
            });
            match &f.write {
                Some(w) => {
                    push_line(lines, string_of("   Write:"));
                    push_bullets(lines, "     - ", w);
                },
                None => {},
            }
            let ghost f2 = strs(lines@);
            assert(f2 =~= f1 + match f.write {
                Some(w) => seq!["   Write:"@] + bullets("     - "@, strs(w@)),
                None => Seq::<Seq<char>>::empty(),
            });
            push_line(lines, string_of(""));
        },
        None => {},
    }
    assert(strs(lines@) =~= s0 + fs_section(*p));
}

/// Appends the lines on the network.
fn push_network_section(lines: &mut Vec<String>, p: &crate::manifest::Permissions)
    ensures
        strs(final(lines)@) == strs(old(lines)@) + network_section(*p),
{
    let ghost s0 = strs(lines@);
    match &p.network {
        Some(n) => match &n.allow {
            Some(a) => {
                push_line(lines, string_of("🌐 Network:"));
                push_bullets(lines, "   - ", a);
                push_line(lines, string_of(""));
            },
            None => {},
        },
        None => {},
    }
    assert(strs(lines@) =~= s0 + network_section(*p));
}

/// Appends the lines on services.
fn push_services_section(lines: &mut Vec<String>, p: &crate::manifest::Permissions)
    ensures
        strs(final(lines)@) == strs(old(lines)@) + services_section(*p),
{
    let ghost s0 = strs(lines@);
    match &p.services {
        Some(s) => {
            push_line(lines, string_of("🔧 Services:"));
            push_service_lines(lines, s);
            push_line(lines, string_of(""));
        },
        None => {},
    }
    assert(strs(lines@) =~= s0 + services_section(*p));
}

/// Appends the lines on a list.
fn push_list_section(lines: &mut Vec<String>, title: &str, items: &Option<Vec<String>>)
    ensures
        strs(final(lines)@) == strs(old(lines)@) + list_section(title@, *items),
{
    let ghost s0 = strs(lines@);
    match items {
        Some(e) => {
            push_line(lines, string_of(title));
            push_bullets(lines, "   - ", e);
            push_line(lines, string_of(""));
        },
        None => {},
    }
    assert(strs(lines@) =~= s0 + list_section(title@, *items));
}

/// The permission report that `inspect` prints, line by line: the skill,
/// then each kind of permission the manifest requests.
pub fn inspect_report(manifest: &Manifest) -> (r: Vec<String>)
    ensures
        strs(r@) == inspect_lines(*manifest),
{
    let mut lines: Vec<String> = Vec::new();
    let mut head = concat2("📦 Skill: ", manifest.name.as_str());
    head.append(" v");
    head.append(manifest.version.as_str());
    push_line(&mut lines, head);
    push_line(&mut lines, concat2("   Author: ", manifest.author.as_str()));
    push_line(&mut lines, concat2("   Description: ", manifest.description.as_str()));
    push_line(&mut lines, string_of(""));
    push_line(&mut lines, string_of("Permissions requested:"));
    push_line(&mut lines, string_of(""));
    let p = &manifest.permissions;
    push_fs_section(&mut lines, p);
    push_network_section(&mut lines, p);
    push_services_section(&mut lines, p);
    push_list_section(&mut lines, "⚙️  Executables:", &p.exec_names);
    push_list_section(&mut lines, "🌍 Environment Variables:", &p.env);
    lines
}

// ---------------------------------------------------------------------------
// approve
// ---------------------------------------------------------------------------

/// `text` in lower case, as `str::to_lowercase` gives it.
pub uninterp spec fn lowercase(text: Seq<char>) -> Seq<char>;

/// `str::to_lowercase`.
#[verifier::external_body]
fn to_lowercase(text: &str) -> (r: String)
    ensures
        r@ == lowercase(text@),
{
    text.to_lowercase()
}

/// Whether an answer to the approval prompt approves: `y` in either case,
/// with any whitespace around it.
pub open spec fn approves(answer: Seq<char>) -> bool {
    lowercase(trim_ws(answer)) == "y"@
}

/// The answer of `approve` to what the user typed: whether the permissions
/// are approved, and the line to print.
pub fn approval(skill_name: &str, answer: &str) -> (r: (bool, String))
    ensures
        r.0 == approves(answer@),
        r.0 ==> r.1@ == "✅ Permissions approved for "@ + skill_name@,
        !r.0 ==> r.1@ == "❌ Permissions denied"@,
{
    let trimmed = trim_ws_exec(answer);
    let lowered = to_lowercase(trimmed.as_str());
    let yes = crate::text::chars_eq(chars_of(lowered.as_str()).as_slice(), chars_of("y").as_slice());
    if yes {
        (true, concat2("✅ Permissions approved for ", skill_name))
    } else {
        (false, string_of("❌ Permissions denied"))
    }
}

// ---------------------------------------------------------------------------
// Watchdog and results
// ---------------------------------------------------------------------------

/// The watchdog of a run. It watches nothing yet; it is started with the
/// manifest and stopped when the skill has finished.
#[derive(Debug)]
pub struct Watchdog {
    manifest: Manifest,
    stopped: bool,
}

impl Watchdog {
    /// Whether the watchdog was stopped.
    pub closed spec fn spec_stopped(&self) -> bool {
        self.stopped
    }

    /// The manifest of the run.
    pub closed spec fn spec_manifest(&self) -> Manifest {
        self.manifest
    }

    /// A running watchdog for `manifest`.
    pub fn new(manifest: Manifest) -> (w: Self)
        ensures
            !w.spec_stopped(),
            w.spec_manifest() == manifest,
    {
        Watchdog { manifest, stopped: false }
    }

    /// Stops the watchdog; stopping never fails.
    pub fn stop(&mut self) -> (r: Result<(), String>)
        ensures
            r is Ok,
            final(self).spec_stopped(),
            final(self).spec_manifest() == old(self).spec_manifest(),
    {
        self.stopped = true;
        Ok(())
    }

    /// Whether the watchdog was stopped.
    pub fn is_stopped(&self) -> (r: bool)
        ensures
            r == self.spec_stopped(),
    {
        self.stopped
    }
}

/// The result of running a skill.
#[derive(Debug)]
pub struct ExecutionResult {
    pub exit_code: i32,
    pub stdout: String,
    pub stderr: String,
}

impl ExecutionResult {
    /// The result of a process that ended with `code`, or `-1` when it was
    /// ended by a signal.
    pub fn from_exit(code: Option<i32>, stdout: String, stderr: String) -> (r: Self)
        ensures
            r.exit_code == match code {
                Some(c) => c as int,
                None => -1int,
            },
            r.stdout == stdout,
            r.stderr == stderr,
    {
        let exit_code = match code {
            Some(c) => c,
            None => -1,
        };
        ExecutionResult { exit_code, stdout, stderr }
    }
}

/// The isolation of skills on Linux.
#[derive(Debug, Clone, Copy, PartialEq, Eq, Structural)]
pub enum LinuxIsolationMode {
    /// Kernel-level isolation with bubblewrap.
    Bwrap,
    /// Interposition with the preloaded library.
    Preload,
}

/// The isolation to use: bubblewrap where it is installed.
pub fn select_mode(bwrap_installed: bool) -> (r: LinuxIsolationMode)
    ensures
        r == (if bwrap_installed {
            LinuxIsolationMode::Bwrap
        } else {
            LinuxIsolationMode::Preload
        }),
{
    if bwrap_installed {
        LinuxIsolationMode::Bwrap
    } else {
        LinuxIsolationMode::Preload
    }
}

// ---------------------------------------------------------------------------
// sandbox-call
// ---------------------------------------------------------------------------

/// The JSON value a parameter's text stands for: the text parsed as JSON,
/// or else the text as a string.
pub open spec fn param_value(text: Seq<char>) -> serde_json::Value {
    match json_parsed(text) {
        Some(v) => v,
        None => json_string_value(text),
    }
}

/// The message of a word that is not a parameter.
pub open spec fn invalid_param_message(word: Seq<char>) -> Seq<char> {
    "Invalid parameter format: "@ + word + ". Expected key=value"@
}

/// `word` split at its first `=`.
pub open spec fn split_pair(word: Seq<char>) -> Option<(Seq<char>, Seq<char>)> {
    match find(word, "="@) {
        Some(k) => Some((word.subrange(0, k), word.subrange(k + 1, word.len() as int))),
        None => None,
    }
}

/// The members the words from `i` on add to `acc`: `key=value` and
/// `--key=value` give the key before the first `=` and the value after it;
/// `--key value` gives the key and the next word; each value is parsed as
/// JSON or else taken as a string. A word that fits none of these (a
/// `--key` with no word after it included) is refused with its message.
pub open spec fn parse_words(
    params: Seq<Seq<char>>,
    i: int,
    acc: Seq<(Seq<char>, serde_json::Value)>,
) -> Result<Seq<(Seq<char>, serde_json::Value)>, Seq<char>>
    decreases params.len() - i,
{
    if i < 0 || i >= params.len() {
        Ok(acc)
    } else {
        let w = params[i];
        let flag = starts_with(w, "--"@);
        let body = if flag {
            w.subrange(2, w.len() as int)
        } else {
            w
        };
        match split_pair(body) {
            Some((k, v)) => parse_words(params, i + 1, acc.push((k, param_value(v)))),
            None => if flag && i + 1 < params.len() {
                parse_words(params, i + 2, acc.push((body, param_value(params[i + 1]))))
            } else {
                Err(invalid_param_message(w))
            },
        }
    }
}

/// The JSON parameters of a call given as words: `null` for none, else the
/// object of their members (a later key replaces an earlier one).
pub fn parse_params(params: &Vec<String>) -> (r: Result<serde_json::Value, String>)
    ensures
        params@.len() == 0 ==> (r matches Ok(v) && v == json_null() && json_parsed("null"@) == Some(v)
            && json_text(v) is None && (forall|k: Seq<char>|
            #[trigger] json_member(v, k) is None) && (forall|k: Seq<char>|
            #[trigger] json_member_items(v, k) is None)),
        params@.len() > 0 ==> match parse_words(strs(params@), 0, Seq::empty()) {
            Ok(members) => r == Ok::<serde_json::Value, String>(json_object_value(members)),
            Err(m) => r matches Err(e) && e@ == m,
        },
{
    if params.len() == 0 {
        return Ok(null_value());
    }
    proof {
        reveal_strlit("=");
        reveal_strlit("--");
    }
    let eq = chars_of("=");
    let dashes = chars_of("--");
    assert(eq@.len() == 1);
    assert(dashes@.len() == 2);
    let ghost words = strs(params@);
    let mut members: Vec<(String, serde_json::Value)> = Vec::new();
    let mut i: usize = 0;
    assert(members@.map_values(|p: (String, serde_json::Value)| (p.0@, p.1)) =~= Seq::<
        (Seq<char>, serde_json::Value),
    >::empty());
    while i < params.len()
        invariant
            i <= params@.len(),
            words == strs(params@),
            eq@ == "="@,
            eq@.len() == 1,
            dashes@ == "--"@,
            dashes@.len() == 2,
            parse_words(words, 0, Seq::empty()) == parse_words(
                words,
                i as int,
                members@.map_values(|p: (String, serde_json::Value)| (p.0@, p.1)),
            ),
        decreases params@.len() - i,
    {
        let ghost acc = members@.map_values(|p: (String, serde_json::Value)| (p.0@, p.1));
        assert(words[i as int] == params@[i as int]@);
        let c = chars_of(params[i].as_str());
        let flag = crate::text::starts_with_exec(c.as_slice(), dashes.as_slice());
        let body = if flag {
            slice_range(c.as_slice(), 2, c.len())
        } else {
            c
        };
        proof {
            crate::text::lemma_find_from(body@, eq@, 0);
        }
        match find_from_exec(body.as_slice(), eq.as_slice(), 0) {
            Some(k) => {
                assert(occurs_at(body@, eq@, k as int));
                let n = body.len();
                assert(k + 1 <= n);
                let key = string_from_chars(slice_range(body.as_slice(), 0, k).as_slice());
                let value = string_from_chars(slice_range(body.as_slice(), k + 1, n).as_slice());
                let v = match parse_json(value.as_str()) {
                    Some(v) => v,
                    None => string_value(value),
                };
                members.push((key, v));
                assert(members@.map_values(|p: (String, serde_json::Value)| (p.0@, p.1)) =~= acc.push(
                    (key@, v),
                ));
                i = i + 1;
            },
            None => {
                if flag && i + 1 < params.len() {
                    let key = string_from_chars(body.as_slice());
                    let value = params[i + 1].as_str();
                    assert(words[i + 1] == params@[i + 1]@);
                    let v = match parse_json(value) {
                        Some(v) => v,
                        None => string_value(value.to_owned()),
                    };
                    members.push((key, v));
                    assert(members@.map_values(|p: (String, serde_json::Value)| (p.0@, p.1))
                        =~= acc.push((key@, v)));
                    i = i + 2;
                } else {
                    let mut m = concat2("Invalid parameter format: ", params[i].as_str());
                    m.append(". Expected key=value");
                    return Err(m);
                }
            },
        }
    }
    Ok(object_value(members))
}

/// The number a JSON document holds, if it is an integer that fits in an
/// `i64`.
pub uninterp spec fn json_i64(doc: serde_json::Value) -> Option<i64>;

/// `Value::as_i64`.
#[verifier::external_body]
fn integer_of(doc: &serde_json::Value) -> (r: Option<i64>)
    ensures
        r == json_i64(*doc),
{
    doc.as_i64()
}

/// The decimal text of a signed 64-bit number.
pub open spec fn signed_text(n: int) -> Seq<char> {
    if n < 0 {
        seq!['-'] + decimal((-n) as nat)
    } else {
        decimal(n as nat)
    }
}

fn signed_text_exec(n: i64) -> (r: String)
    ensures
        r@ == signed_text(n as int),
{
    proof {
        reveal_strlit("-");
    }
    if n < 0 {
        let magnitude: u64 = (0i128 - (n as i128)) as u64;
        let digits = string_from_chars(decimal_exec(magnitude).as_slice());
        concat2("-", digits.as_str())
    } else {
        string_from_chars(decimal_exec(n as u64).as_slice())
    }
}

/// What `sandbox-call` makes of the broker's reply: the error it carries,
/// as `Broker error (<code>): <message>`, else its result.
pub open spec fn reply_outcome(reply: serde_json::Value) -> Result<serde_json::Value, Seq<char>> {
    match json_member(reply, "error"@) {
        Some(e) => {
            let code: int = match json_member(e, "code"@) {
                Some(c) => match json_i64(c) {
                    Some(n) => n as int,
                    None => -1,
                },
                None => -1,
            };
            let message = match json_member(e, "message"@) {
                Some(m) => match json_text(m) {
                    Some(t) => t,
                    None => "Unknown error"@,
                },
                None => "Unknown error"@,
            };
            Err("Broker error ("@ + signed_text(code) + "): "@ + message)
        },
        None => match json_member(reply, "result"@) {
            Some(v) => Ok(v),
            None => Err("No result in response"@),
        },
    }
}

/// Reads the broker's reply to a call.
pub fn broker_reply(reply: &serde_json::Value) -> (r: Result<serde_json::Value, String>)
    ensures
        match reply_outcome(*reply) {
            Ok(v) => r == Ok::<serde_json::Value, String>(v),
            Err(m) => r matches Err(e) && e@ == m,
        },
{
    proof {
        reveal_strlit("error");
        reveal_strlit("code");
        reveal_strlit("message");
        reveal_strlit("result");
    }
    match member(reply, "error") {
        Some(e) => {
            let code: i64 = match member(&e, "code") {
                Some(c) => match integer_of(&c) {
                    Some(n) => n,
                    None => -1,
                },
                None => -1,
            };
            let message = match member(&e, "message") {
                Some(m) => match text_of(&m) {
                    Some(t) => t,
                    None => string_of("Unknown error"),
                },
                None => string_of("Unknown error"),
            };
            let mut r = concat2("Broker error (", signed_text_exec(code).as_str());
            r.append("): ");
            r.append(message.as_str());
            Err(r)
        },
        None => match member(reply, "result") {
            Some(v) => Ok(v),
            None => Err(string_of("No result in response")),
        },
    }
}

} // verus!

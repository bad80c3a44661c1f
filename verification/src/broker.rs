//! Decisions of the service broker: call statistics and the routing of a
//! `namespace.method` name.

use vstd::prelude::*;
use crate::strmap::StrMap;
use crate::text::{chars_of, chars_eq, count_char, count_char_exec, slice_range, string_from_chars};
use crate::policy::concat2;

verus! {

/// Broker call statistics.
#[derive(Debug)]
pub struct BrokerStats {
    pub total_calls: usize,
    pub allowed_calls: usize,
    pub denied_calls: usize,
    pub calls_by_method: StrMap<usize>,
}

/// What broker statistics hold.
pub struct BrokerStatsView {
    pub total_calls: int,
    pub allowed_calls: int,
    pub denied_calls: int,
    pub calls_by_method: Map<Seq<char>, usize>,
}

impl View for BrokerStats {
    type V = BrokerStatsView;

    open spec fn view(&self) -> BrokerStatsView {
        BrokerStatsView {
            total_calls: self.total_calls as int,
            allowed_calls: self.allowed_calls as int,
            denied_calls: self.denied_calls as int,
            calls_by_method: self.calls_by_method@,
        }
    }
}

/// The statistics after a well-formed request for `method` arrived.
pub open spec fn after_call(s: BrokerStatsView, method: Seq<char>) -> BrokerStatsView {
    BrokerStatsView {
        total_calls: s.total_calls + 1,
        calls_by_method: s.calls_by_method.insert(
            method,
            (method_count(s.calls_by_method, method) + 1) as usize,
        ),
        ..s
    }
}

/// The statistics after a routed request succeeded (`allowed`) or failed.
pub open spec fn after_outcome(s: BrokerStatsView, allowed: bool) -> BrokerStatsView {
    if allowed {
        BrokerStatsView { allowed_calls: s.allowed_calls + 1, ..s }
    } else {
        BrokerStatsView { denied_calls: s.denied_calls + 1, ..s }
    }
}

/// The number of calls recorded for `method`.
pub open spec fn method_count(counts: Map<Seq<char>, usize>, method: Seq<char>) -> int {
    if counts.contains_key(method) {
        counts[method] as int
    } else {
        0
    }
}

impl BrokerStats {
    /// Statistics with nothing recorded.
    pub fn new() -> (s: Self)
        ensures
            s.total_calls == 0,
            s.allowed_calls == 0,
            s.denied_calls == 0,
            s.calls_by_method@ == Map::<Seq<char>, usize>::empty(),
    {
        BrokerStats { total_calls: 0, allowed_calls: 0, denied_calls: 0, calls_by_method: StrMap::new() }
    }

    /// The number of calls recorded for `method`.
    pub fn calls_for(&self, method: &str) -> (r: usize)
        ensures
            r == method_count(self.calls_by_method@, method@),
    {
        match self.calls_by_method.get(method) {
            Some(n) => *n,
            None => 0,
        }
    }

    /// Records a well-formed request for `method`.
    pub fn record_call(&mut self, method: &str)
        requires
            old(self).total_calls < usize::MAX,
            method_count(old(self).calls_by_method@, method@) < usize::MAX,
        ensures
            final(self)@ == after_call(old(self)@, method@),
    {
        self.total_calls = self.total_calls + 1;
        let n = self.calls_for(method);
        self.calls_by_method.insert(method.to_owned(), n + 1);
    }

    /// Records whether a routed request succeeded.
    pub fn record_outcome(&mut self, allowed: bool)
        requires
            allowed ==> old(self).allowed_calls < usize::MAX,
            !allowed ==> old(self).denied_calls < usize::MAX,
        ensures
            final(self)@ == after_outcome(old(self)@, allowed),
    {
        if allowed {
            self.allowed_calls = self.allowed_calls + 1;
        } else {
            self.denied_calls = self.denied_calls + 1;
        }
    }
}

impl Default for BrokerStats {
    fn default() -> (s: Self)
        ensures
            s.total_calls == 0,
            s.allowed_calls == 0,
            s.denied_calls == 0,
            s.calls_by_method@ == Map::<Seq<char>, usize>::empty(),
    {
        Self::new()
    }
}

// ---------------------------------------------------------------------------
// Method names
// ---------------------------------------------------------------------------

/// `method` is `namespace.operation` with exactly one dot.
pub open spec fn splits_into(method: Seq<char>, namespace: Seq<char>, operation: Seq<char>) -> bool {
    method == namespace + seq!['.'] + operation && count_char(namespace, '.') == 0 && count_char(
        operation,
        '.',
    ) == 0
}

/// Splits `namespace.operation`; `None` unless the name has exactly one dot.
pub fn split_method(method: &str) -> (r: Option<(String, String)>)
    ensures
        r is Some == (count_char(method@, '.') == 1),
        r matches Some((ns, op)) ==> splits_into(method@, ns@, op@),
{
    let m = chars_of(method);
    if count_char_exec(m.as_slice(), '.') != 1 {
        return None;
    }
    let mut i: usize = 0;
    while i < m.len() && m[i] != '.'
        invariant
            i <= m@.len(),
            m@ == method@,
            count_char(m@.subrange(0, i as int), '.') == 0,
        decreases m@.len() - i,
    {
        proof {
            lemma_count_push(m@.subrange(0, i as int), m@[i as int], '.');
            assert(m@.subrange(0, i + 1) == m@.subrange(0, i as int).push(m@[i as int]));
        }
        i = i + 1;
    }
    proof {
        if i == m.len() {
            assert(m@.subrange(0, i as int) == m@);
        }
        lemma_count_concat(m@.subrange(0, i as int), m@.subrange(i as int, m@.len() as int), '.');
        assert(m@.subrange(0, i as int) + m@.subrange(i as int, m@.len() as int) == m@);
        let rest = m@.subrange(i as int, m@.len() as int);
        assert(rest == seq!['.'] + m@.subrange(i + 1, m@.len() as int));
        lemma_count_concat(seq!['.'], m@.subrange(i + 1, m@.len() as int), '.');
        assert(count_char(seq!['.'], '.') == 1) by {
            assert(seq!['.'].drop_first() =~= Seq::<char>::empty());
        }
        assert(m@ == m@.subrange(0, i as int) + seq!['.'] + m@.subrange(i + 1, m@.len() as int));
    }
    let ns = string_from_chars(slice_range(m.as_slice(), 0, i).as_slice());
    let op = string_from_chars(slice_range(m.as_slice(), i + 1, m.len()).as_slice());
    Some((ns, op))
}

/// Counting after a push.
pub proof fn lemma_count_push(s: Seq<char>, x: char, c: char)
    ensures
        count_char(s.push(x), c) == count_char(s, c) + (if x == c {
            1nat
        } else {
            0nat
        }),
    decreases s.len(),
{
    crate::text::lemma_count_char_split(s.push(x), c);
    assert(s.push(x).drop_last() == s);
}

/// Counting over a concatenation.
pub proof fn lemma_count_concat(a: Seq<char>, b: Seq<char>, c: char)
    ensures
        count_char(a + b, c) == count_char(a, c) + count_char(b, c),
    decreases a.len(),
{
    if a.len() > 0 {
        lemma_count_concat(a.drop_first(), b, c);
        assert((a + b).drop_first() == a.drop_first() + b);
    } else {
        assert(a + b == b);
    }
}

/// Why a method name could not be routed.
#[derive(Debug)]
pub enum RouteError {
    InvalidMethodFormat(String),
    UnknownNamespace(String),
}

impl RouteError {
    /// The human-readable message of the error.
    pub fn message(&self) -> (r: String)
        ensures
            r@ == (match self {
                RouteError::InvalidMethodFormat(m) => "Invalid method format: "@ + m@,
                RouteError::UnknownNamespace(n) => "Unknown namespace: "@ + n@,
            }),
    {
        match self {
            RouteError::InvalidMethodFormat(m) => concat2("Invalid method format: ", m.as_str()),
            RouteError::UnknownNamespace(n) => concat2("Unknown namespace: ", n.as_str()),
        }
    }
}

/// The services the command-line broker serves.
#[derive(Debug, Clone, Copy, PartialEq, Eq, Structural)]
pub enum Namespace {
    Fs,
    Network,
    Reminders,
    Calendar,
    Browser,
    Notifications,
    Clipboard,
    Exec,
    Env,
}

/// The namespace of a name, if it is one the broker serves.
pub open spec fn namespace_of(name: Seq<char>) -> Option<Namespace> {
    if name == "fs"@ {
        Some(Namespace::Fs)
    } else if name == "network"@ {
        Some(Namespace::Network)
    } else if name == "reminders"@ {
        Some(Namespace::Reminders)
    } else if name == "calendar"@ {
        Some(Namespace::Calendar)
    } else if name == "browser"@ {
        Some(Namespace::Browser)
    } else if name == "notifications"@ {
        Some(Namespace::Notifications)
    } else if name == "clipboard"@ {
        Some(Namespace::Clipboard)
    } else if name == "exec"@ {
        Some(Namespace::Exec)
    } else if name == "env"@ {
        Some(Namespace::Env)
    } else {
        None
    }
}

/// The namespace of a name, if it is one the broker serves.
pub fn namespace_of_exec(name: &str) -> (r: Option<Namespace>)
    ensures
        r == namespace_of(name@),
{
    let n = chars_of(name);
    let s = n.as_slice();
    if chars_eq(s, chars_of("fs").as_slice()) {
        Some(Namespace::Fs)
    } else if chars_eq(s, chars_of("network").as_slice()) {
        Some(Namespace::Network)
    } else if chars_eq(s, chars_of("reminders").as_slice()) {
        Some(Namespace::Reminders)
    } else if chars_eq(s, chars_of("calendar").as_slice()) {
        Some(Namespace::Calendar)
    } else if chars_eq(s, chars_of("browser").as_slice()) {
        Some(Namespace::Browser)
    } else if chars_eq(s, chars_of("notifications").as_slice()) {
        Some(Namespace::Notifications)
    } else if chars_eq(s, chars_of("clipboard").as_slice()) {
        Some(Namespace::Clipboard)
    } else if chars_eq(s, chars_of("exec").as_slice()) {
        Some(Namespace::Exec)
    } else if chars_eq(s, chars_of("env").as_slice()) {
        Some(Namespace::Env)
    } else {
        None
    }
}

/// Routes a method name of the command-line broker: the name must be
/// `namespace.operation` with exactly one dot, and the namespace one it
/// serves.
pub fn route_request(method: &str) -> (r: Result<(Namespace, String), RouteError>)
    ensures
        r matches Ok((ns, op)) ==> exists|n: Seq<char>|
            #[trigger] splits_into(method@, n, op@) && namespace_of(n) == Some(ns),
        r matches Err(RouteError::InvalidMethodFormat(m)) ==> count_char(method@, '.') != 1 && m@
            == method@,
        r matches Err(RouteError::UnknownNamespace(n)) ==> exists|op: Seq<char>|
            #[trigger] splits_into(method@, n@, op) && namespace_of(n@) is None,
        r is Ok || r matches Err(RouteError::UnknownNamespace(_)) <==> count_char(method@, '.') == 1,
{
    match split_method(method) {
        None => Err(RouteError::InvalidMethodFormat(method.to_owned())),
        Some((ns, op)) => match namespace_of_exec(ns.as_str()) {
            Some(n) => {
                assert(exists|w: Seq<char>| #[trigger]
                    splits_into(method@, w, op@) && namespace_of(w) == Some(n)) by {
                    assert(splits_into(method@, ns@, op@));
                }
                let r: Result<(Namespace, String), RouteError> = Ok((n, op));
                assert(r matches Ok((a, b)) ==> b@ == op@);
                assert(r matches Ok((a, b)) ==> exists|w: Seq<char>| #[trigger]
                    splits_into(method@, w, b@) && namespace_of(w) == Some(a));
                r
            },
            None => {
                assert(exists|w: Seq<char>| #[trigger] splits_into(method@, ns@, w)) by {
                    assert(splits_into(method@, ns@, op@));
                }
                let r: Result<(Namespace, String), RouteError> = Err(RouteError::UnknownNamespace(ns));
                assert(r matches Err(RouteError::UnknownNamespace(a)) ==> a@ == ns@);
                assert(r matches Err(RouteError::UnknownNamespace(a)) ==> exists|w: Seq<char>|
                    #[trigger] splits_into(method@, a@, w));
                r
            },
        },
    }
}

/// The broker of the core sandbox: the policy its handlers decide by, and
/// the namespaces handlers are registered for, each with the slot of its
/// handler in the caller's table.
#[derive(Debug)]
pub struct BrokerConfig {
    pub policy: crate::policy::PolicyEngine,
    pub handlers: StrMap<usize>,
}

impl BrokerConfig {
    /// A broker with no handlers.
    pub fn new(policy: crate::policy::PolicyEngine) -> (c: Self)
        ensures
            c.policy@ == policy@,
            c.handlers@ == Map::<Seq<char>, usize>::empty(),
    {
        BrokerConfig { policy, handlers: StrMap::new() }
    }

    /// Registers the handler in `slot` for `namespace`, replacing one
    /// registered before.
    pub fn register_handler(&mut self, namespace: &str, slot: usize)
        ensures
            final(self).policy@ == old(self).policy@,
            final(self).handlers@ == old(self).handlers@.insert(namespace@, slot),
    {
        self.handlers.insert(namespace.to_owned(), slot);
    }

    /// Routes a method name: it must be `namespace.operation` with exactly
    /// one dot, and a handler must be registered for the namespace; the
    /// handler's slot and the operation are handed back.
    pub fn route(&self, method: &str) -> (r: Result<(usize, String), RouteError>)
        ensures
            count_char(method@, '.') != 1 ==> (r matches Err(RouteError::InvalidMethodFormat(m))
                && m@ == method@),
            count_char(method@, '.') == 1 ==> (match r {
                Ok((slot, op)) => exists|n: Seq<char>|
                    #[trigger] splits_into(method@, n, op@) && self.handlers@.contains_key(n)
                        && self.handlers@[n] == slot,
                Err(RouteError::UnknownNamespace(n)) => exists|op: Seq<char>|
                    #[trigger] splits_into(method@, n@, op) && !self.handlers@.contains_key(n@),
                Err(_) => false,
            }),
    {
        match split_method(method) {
            None => Err(RouteError::InvalidMethodFormat(method.to_owned())),
            Some((ns, op)) => match self.handlers.get(ns.as_str()) {
                Some(slot) => {
                    let s = *slot;
                    assert(splits_into(method@, ns@, op@));
                    let r: Result<(usize, String), RouteError> = Ok((s, op));
                    assert(r matches Ok((a, b)) ==> b@ == op@ && a == s);
                    r
                },
                None => {
                    assert(splits_into(method@, ns@, op@));
                    let r: Result<(usize, String), RouteError> = Err(RouteError::UnknownNamespace(ns));
                    assert(r matches Err(RouteError::UnknownNamespace(a)) ==> a@ == ns@);
                    r
                },
            },
        }
    }
}

} // verus!

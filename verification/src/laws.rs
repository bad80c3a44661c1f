//! Properties of the library as a whole, stated over the specifications the
//! functions' contracts use, and proved.

use vstd::prelude::*;
use crate::broker::{BrokerStatsView, after_call, after_outcome};
use crate::handlers::env::env_outcome;
use crate::handlers::exec::exec_outcome;
use crate::handlers::fs::{fs_outcome, FsOpView};
use crate::handlers::network::{network_outcome, url_target, NetOpView, verb_named, HttpVerb};
use crate::launch::{bwrap_plan_spec, t, pth};
use crate::manifest::Manifest;
use crate::manifest::{
    Permissions as ManifestPermissions, ServicePermissions, translated, granted, granted_services,
    with_service, opt_strs, entry_scope, scope_doc_view, level_name, ScopeDoc,
};
use crate::manifest_policy::{
    declared_read, declared_write, declared_allow, manifest_service_allows, manifest_scope_allows,
    service_entry,
};
use crate::permissions::{
    strs, PermissionsView, PermissionsBuilder, PermissionsBuilderView, in_intersection, intersect_two,
    keep_common, more_specific_spec, built, builder_step, builder_steps, BuilderStep, is_intersection, intersect_services, narrower_access, sorted_strict,
};
use crate::text::{
    seq_lt, lemma_lt_irreflexive, lemma_lt_trichotomy, starts_with, occurs_at, contains, replace_all,
    replace_from, strip_prefix_or_self,
};
use crate::glob::glob_accepts;
use crate::sandbox::{strip_heredocs, is_tag_char, heredoc_tag, tag_end, lemma_tag_end};
use crate::text::{find_from, trim_start_ws, is_whitespace};
use crate::policy::pattern_admits;
use crate::policy::{
    path_allowed, network_allowed, exec_listed, access_allows, service_allows, scope_admits,
    reminders_scope_allows,
};
use crate::scope::{list_admits, ScopeView, ScopeItemView};
use crate::handlers::HandlerError;
use crate::sandbox::{SandboxBuilderView, SandboxStep, sandbox_steps};
use crate::handlers::services::{RemindersCall, reminders_decision};

verus! {

// ---------------------------------------------------------------------------
// Default deny
// ---------------------------------------------------------------------------

/// Default deny: the permission set built from a builder to which nothing
/// was added refuses every path, connection, command, variable, service
/// call and reminders list.
pub proof fn law_nothing_granted_denies_all(
    path: Seq<char>,
    host: Seq<char>,
    port: u16,
    command: Seq<char>,
    var: Seq<char>,
    service: Seq<char>,
    method: Seq<char>,
    list: Seq<char>,
)
    ensures
        ({
            let p = built(PermissionsBuilder::empty_view());
            &&& !path_allowed(path, p.read)
            &&& !path_allowed(path, p.write)
            &&& !network_allowed(host, port, p.allow)
            &&& !exec_listed(p.exec_names, command)
            &&& !p.env.contains(var)
            &&& !service_allows(p.services, service, method)
            &&& !reminders_scope_allows(p.services, list)
        }),
{
}

/// Default deny for manifests: a manifest that declares no permissions is
/// refused every path, connection, command, variable, service call and
/// reminders list.
pub proof fn law_undeclared_manifest_denies_all(
    p: ManifestPermissions,
    service: Seq<char>,
    method: Seq<char>,
    list: Seq<char>,
)
    requires
        p.fs is None,
        p.network is None,
        p.services is None,
        p.exec_names is None,
        p.env is None,
    ensures
        declared_read(p) is None,
        declared_write(p) is None,
        declared_allow(p) is None,
        !manifest_service_allows(p, service, method),
        !manifest_scope_allows(p, list),
{
}

/// Denying the network is final: whatever hosts were allowed before or
/// after, a builder that denies the network builds a set that allows no
/// connection.
pub proof fn law_network_deny_is_final(b: PermissionsBuilderView, host: Seq<char>, port: u16)
    requires
        b.deny_network,
    ensures
        !network_allowed(host, port, built(b).allow),
{
}

/// The chain of calls with every denial of the network left out.
pub open spec fn without_denials(steps: Seq<BuilderStep>) -> Seq<BuilderStep>
    decreases steps.len(),
{
    if steps.len() == 0 {
        steps
    } else if steps.last() is NetworkDeny {
        without_denials(steps.drop_last())
    } else {
        without_denials(steps.drop_last()).push(steps.last())
    }
}

/// Denying the network anywhere in a chain of builder calls is final: the
/// set built at the end allows no host, even where hosts were allowed after
/// the denial.
pub proof fn law_network_deny_in_chain(b: PermissionsBuilderView, steps: Seq<BuilderStep>, host: Seq<char>, port: u16)
    requires
        steps.contains(BuilderStep::NetworkDeny),
    ensures
        builder_steps(b, steps).deny_network,
        built(builder_steps(b, steps)).allow.len() == 0,
        !network_allowed(host, port, built(builder_steps(b, steps)).allow),
    decreases steps.len(),
{
    let last = steps.len() - 1;
    if steps.last() is NetworkDeny {
        assert(builder_steps(b, steps).deny_network);
    } else {
        let i = choose|i: int| 0 <= i < steps.len() && steps[i] == BuilderStep::NetworkDeny;
        assert(i != last);
        assert(steps.drop_last()[i] == BuilderStep::NetworkDeny);
        law_network_deny_in_chain(b, steps.drop_last(), host, port);
    }
}

/// Denying the network changes nothing else: the paths, commands,
/// variables and services a chain of builder calls accumulates are those of
/// the same chain without its denials.
pub proof fn law_network_deny_keeps_the_rest(b: PermissionsBuilderView, steps: Seq<BuilderStep>)
    ensures
        ({
            let x = built(builder_steps(b, steps));
            let y = built(builder_steps(b, without_denials(steps)));
            &&& x.read == y.read
            &&& x.write == y.write
            &&& x.exec_names == y.exec_names
            &&& x.env == y.env
            &&& x.services == y.services
        }),
    decreases steps.len(),
{
    if steps.len() > 0 {
        law_network_deny_keeps_the_rest(b, steps.drop_last());
        if !(steps.last() is NetworkDeny) {
            let w = without_denials(steps.drop_last()).push(steps.last());
            assert(w.drop_last() == without_denials(steps.drop_last()));
            assert(w.last() == steps.last());
        }
    }
}

/// Denying the network anywhere in a chain of sandbox builder calls is
/// final: the configuration built at the end allows no host, so the
/// sandbox's preflight check refuses every command that names a URL.
pub proof fn law_sandbox_network_deny_in_chain(
    b: SandboxBuilderView,
    steps: Seq<SandboxStep>,
    host: Seq<char>,
    port: u16,
)
    requires
        steps.contains(SandboxStep::Permissions(BuilderStep::NetworkDeny)),
    ensures
        sandbox_steps(b, steps).permissions.deny_network,
        built(sandbox_steps(b, steps).permissions).allow.len() == 0,
        !network_allowed(host, port, built(sandbox_steps(b, steps).permissions).allow),
    decreases steps.len(),
{
    let last = steps.len() - 1;
    if steps.last() != SandboxStep::Permissions(BuilderStep::NetworkDeny) {
        let i = choose|i: int|
            0 <= i < steps.len() && steps[i] == SandboxStep::Permissions(BuilderStep::NetworkDeny);
        assert(i != last);
        assert(steps.drop_last()[i] == SandboxStep::Permissions(BuilderStep::NetworkDeny));
        law_sandbox_network_deny_in_chain(b, steps.drop_last(), host, port);
    }
}

// ---------------------------------------------------------------------------
// Manifest translation
// ---------------------------------------------------------------------------

/// The services a manifest grants are exactly the known services it
/// declares, each with the access level and scope of its entry.
pub proof fn lemma_granted_services(sp: ServicePermissions, service: Seq<char>)
    ensures
        granted_services(Some(sp)).contains_key(service) <==> service_entry(sp, service) matches Some(
            Some(_),
        ),
        service_entry(sp, service) matches Some(Some(a)) ==> granted_services(Some(sp))[service]
            == granted(a@),
{
    reveal_strlit("reminders");
    reveal_strlit("calendar");
    reveal_strlit("browser");
    reveal_strlit("notifications");
    reveal_strlit("clipboard");
    assert("reminders"@ != "calendar"@ && "reminders"@ != "browser"@ && "reminders"@
        != "notifications"@ && "reminders"@ != "clipboard"@ && "calendar"@ != "browser"@
        && "calendar"@ != "notifications"@ && "calendar"@ != "clipboard"@ && "browser"@
        != "notifications"@ && "browser"@ != "clipboard"@ && "notifications"@ != "clipboard"@) by {
        assert("reminders"@[0] != "calendar"@[0]);
        assert("reminders"@[0] != "browser"@[0]);
        assert("reminders"@[0] != "notifications"@[0]);
        assert("reminders"@[0] != "clipboard"@[0]);
        assert("calendar"@[1] != "browser"@[1]);
        assert("calendar"@[0] != "notifications"@[0]);
        assert("calendar"@[1] != "clipboard"@[1]);
        assert("browser"@[0] != "notifications"@[0]);
        assert("browser"@[0] != "clipboard"@[0]);
        assert("notifications"@[0] != "clipboard"@[0]);
    }
}

/// A scope admits the same lists whether read from the manifest entry or
/// from the permission it translates into.
proof fn lemma_scope_translation(scope: Option<ScopeDoc>, list: Seq<char>)
    ensures
        scope_admits(
            entry_scope(
                match scope {
                    Some(d) => Some(scope_doc_view(d)),
                    None => None,
                },
            ),
            list,
        ) == match scope {
            Some(ScopeDoc::Object(m)) => if m@.contains_key("lists"@) {
                match m@["lists"@] {
                    Some(items) => list_admits(items, list),
                    None => true,
                }
            } else {
                true
            },
            _ => true,
        },
{
    match scope {
        Some(ScopeDoc::Object(m)) => {
            m.lemma_view();
            crate::strmap::lemma_entries_map_dom(m.spec_entries());
            if m@.dom().len() == 0 {
                assert(!m@.dom().contains("lists"@)) by {
                    if m@.dom().contains("lists"@) {
                        vstd::set_lib::lemma_set_empty_equivalency_len(m@.dom());
                    }
                }
            }
        },
        _ => {
            let e: ScopeView = Map::empty();
            assert(e.dom() =~= Set::empty());
        },
    }
}

/// The manifest's permissions and the permission set they translate into
/// decide alike: each path, connection, command, variable, service call and
/// reminders list is allowed by the one exactly when it is allowed by the
/// other.
pub proof fn law_translation_preserves_decisions(
    p: ManifestPermissions,
    path: Seq<char>,
    host: Seq<char>,
    port: u16,
    command: Seq<char>,
    var: Seq<char>,
    service: Seq<char>,
    method: Seq<char>,
    list: Seq<char>,
)
    ensures
        (declared_read(p) matches Some(ps) && path_allowed(path, ps)) == path_allowed(
            path,
            translated(p).read,
        ),
        (declared_write(p) matches Some(ps) && path_allowed(path, ps)) == path_allowed(
            path,
            translated(p).write,
        ),
        (declared_allow(p) matches Some(ps) && network_allowed(host, port, ps)) == network_allowed(
            host,
            port,
            translated(p).allow,
        ),
        (p.exec_names matches Some(v) && exec_listed(strs(v@), command)) == exec_listed(
            translated(p).exec_names,
            command,
        ),
        (p.env matches Some(v) && strs(v@).contains(var)) == translated(p).env.contains(var),
        manifest_service_allows(p, service, method) == service_allows(
            translated(p).services,
            service,
            method,
        ),
        manifest_scope_allows(p, list) == reminders_scope_allows(translated(p).services, list),
{
    match p.services {
        Some(sp) => {
            lemma_granted_services(sp, service);
            lemma_granted_services(sp, "reminders"@);
            assert(service_entry(sp, "reminders"@) == Some(sp.reminders)) by {
                reveal_strlit("reminders");
            }
            match sp.reminders {
                Some(a) => {
                    lemma_scope_translation(a.scope, list);
                },
                None => {},
            }
        },
        None => {},
    }
}

// ---------------------------------------------------------------------------
// Intersection
// ---------------------------------------------------------------------------

/// The intersection of two patterns is one of them.
proof fn lemma_intersect_two_is_input(a: Seq<char>, b: Seq<char>)
    ensures
        intersect_two(a, b) matches Some(p) ==> p == a || p == b,
{
}

/// An intersection of pattern lists holds only patterns of its inputs.
pub proof fn law_intersection_patterns_come_from_inputs(left: Seq<Seq<char>>, right: Seq<Seq<char>>, p: Seq<char>)
    requires
        in_intersection(left, right, p),
    ensures
        left.contains(p) || right.contains(p),
{
    let (i, j) = choose|i: int, j: int|
        0 <= i < left.len() && 0 <= j < right.len() && #[trigger] intersect_two(left[i], right[j])
            == Some(p);
    lemma_intersect_two_is_input(left[i], right[j]);
    if p == left[i] {
        assert(left.contains(p));
    } else {
        assert(right.contains(p));
    }
}

/// The names kept by an intersection are those of the first list that the
/// second also holds.
pub proof fn law_common_names(a: Seq<Seq<char>>, b: Seq<Seq<char>>, x: Seq<char>)
    ensures
        keep_common(a, b).contains(x) <==> a.contains(x) && b.contains(x),
    decreases a.len(),
{
    if a.len() > 0 {
        law_common_names(a.drop_last(), b, x);
        let k = keep_common(a.drop_last(), b);
        if a.drop_last().contains(x) {
            let i = choose|i: int| 0 <= i < a.drop_last().len() && a.drop_last()[i] == x;
            assert(a[i] == x);
        }
        if a.contains(x) && x != a.last() {
            let i = choose|i: int| 0 <= i < a.len() && a[i] == x;
            assert(a.drop_last()[i] == x);
        }
        if b.contains(a.last()) {
            assert(keep_common(a, b) == k.push(a.last()));
            if k.push(a.last()).contains(x) && x != a.last() {
                let i = choose|i: int| 0 <= i < k.push(a.last()).len() && k.push(a.last())[i] == x;
                assert(k[i] == x);
            }
            if k.contains(x) {
                let i = choose|i: int| 0 <= i < k.len() && k[i] == x;
                assert(k.push(a.last())[i] == x);
            }
            assert(k.push(a.last())[k.len() as int] == a.last());
        }
        assert(a[a.len() - 1] == a.last());
    }
}

/// Intersecting never grants more: a command or variable the intersection
/// allows is allowed by both permission sets, and intersecting in either
/// order allows the same ones.
pub proof fn law_intersection_narrows_names(a: PermissionsView, b: PermissionsView, x: Seq<char>)
    ensures
        keep_common(a.exec_names, b.exec_names).contains(x) ==> a.exec_names.contains(x)
            && b.exec_names.contains(x),
        keep_common(a.env, b.env).contains(x) ==> a.env.contains(x) && b.env.contains(x),
        keep_common(a.exec_names, b.exec_names).contains(x) == keep_common(
            b.exec_names,
            a.exec_names,
        ).contains(x),
        keep_common(a.env, b.env).contains(x) == keep_common(b.env, a.env).contains(x),
{
    law_common_names(a.exec_names, b.exec_names, x);
    law_common_names(b.exec_names, a.exec_names, x);
    law_common_names(a.env, b.env, x);
    law_common_names(b.env, a.env, x);
}

/// The narrower of two access levels admits an action only when both
/// levels admit it.
proof fn lemma_narrower_access_admits(x: Seq<char>, y: Seq<char>, action: Seq<char>)
    ensures
        access_allows(narrower_access(x, y), action) ==> access_allows(x, action) && access_allows(
            y,
            action,
        ),
{
    reveal_strlit("read");
    reveal_strlit("write");
    reveal_strlit("readwrite");
    reveal_strlit("send");
    reveal_strlit("open");
    reveal_strlit("none");
    assert(("read"@).len() == 4 && ("write"@).len() == 5 && ("readwrite"@).len() == 9);
    assert(("none"@).len() == 4 && ("send"@).len() == 4 && ("open"@).len() == 4);
    assert(("none"@)[0] == 'n' && ("read"@)[0] == 'r' && ("send"@)[0] == 's' && ("open"@)[0] == 'o');
}

/// Intersecting never grants a service: a service call the intersection
/// allows is allowed by both permission sets.
pub proof fn law_intersection_narrows_services(a: PermissionsView, b: PermissionsView, service: Seq<char>, method: Seq<char>)
    ensures
        service_allows(intersect_services(a.services, b.services), service, method) ==> service_allows(
            a.services,
            service,
            method,
        ) && service_allows(b.services, service, method),
{
    if a.services.contains_key(service) && b.services.contains_key(service) {
        lemma_narrower_access_admits(a.services[service].access, b.services[service].access, method);
    }
}

/// A pattern intersected with itself is the pattern.
proof fn lemma_self_pattern_intersection(l: Seq<Seq<char>>, q: Seq<char>)
    ensures
        in_intersection(l, l, q) <==> l.contains(q),
{
    if l.contains(q) {
        let i = choose|i: int| 0 <= i < l.len() && l[i] == q;
        assert(intersect_two(l[i], l[i]) == Some(q));
    }
    if in_intersection(l, l, q) {
        let (i, j) = choose|i: int, j: int|
            0 <= i < l.len() && 0 <= j < l.len() && #[trigger] intersect_two(l[i], l[j]) == Some(q);
        lemma_intersect_two_is_input(l[i], l[j]);
    }
}

/// Keeping the names of `a` that `b` lists keeps all of `a` when `b` lists
/// every one of them.
proof fn lemma_keep_all(a: Seq<Seq<char>>, b: Seq<Seq<char>>)
    requires
        forall|i: int| 0 <= i < a.len() ==> b.contains(#[trigger] a[i]),
    ensures
        keep_common(a, b) == a,
    decreases a.len(),
{
    if a.len() > 0 {
        assert(b.contains(a[a.len() - 1]));
        lemma_keep_all(a.drop_last(), b);
        assert(a.drop_last().push(a.last()) =~= a);
    }
}

/// A strictly sorted sequence holds each of its elements once, after its
/// first element.
proof fn lemma_sorted_tail(s: Seq<Seq<char>>, q: Seq<char>)
    requires
        sorted_strict(s),
        s.len() > 0,
    ensures
        sorted_strict(s.drop_first()),
        s.drop_first().contains(q) <==> (s.contains(q) && q != s[0]),
{
    let d = s.drop_first();
    assert forall|i: int, j: int| 0 <= i < j < d.len() implies seq_lt(#[trigger] d[i], #[trigger] d[j]) by {
        assert(d[i] == s[i + 1] && d[j] == s[j + 1]);
    }
    if d.contains(q) {
        let i = choose|i: int| 0 <= i < d.len() && d[i] == q;
        assert(s[i + 1] == q);
        assert(seq_lt(s[0], s[i + 1]));
        lemma_lt_irreflexive(q);
    }
    if s.contains(q) && q != s[0] {
        let i = choose|i: int| 0 <= i < s.len() && s[i] == q;
        assert(d[i - 1] == q);
    }
}

/// Two strictly sorted sequences with the same elements are equal.
proof fn lemma_sorted_unique(s: Seq<Seq<char>>, t: Seq<Seq<char>>)
    requires
        sorted_strict(s),
        sorted_strict(t),
        forall|q: Seq<char>| s.contains(q) <==> t.contains(q),
    ensures
        s == t,
    decreases s.len(),
{
    if s.len() == 0 {
        if t.len() > 0 {
            assert(t.contains(t[0]));
        }
        assert(s =~= t);
    } else if t.len() == 0 {
        assert(s.contains(s[0]));
    } else {
        assert(s.contains(s[0]));
        assert(t.contains(t[0]));
        let k = choose|k: int| 0 <= k < t.len() && t[k] == s[0];
        let m = choose|m: int| 0 <= m < s.len() && s[m] == t[0];
        if k > 0 {
            assert(seq_lt(t[0], t[k]));
            if m > 0 {
                assert(seq_lt(s[0], s[m]));
                lemma_lt_trichotomy(s[0], t[0]);
            } else {
                lemma_lt_irreflexive(t[0]);
            }
        }
        assert(s[0] == t[0]);
        assert forall|q: Seq<char>| s.drop_first().contains(q) <==> t.drop_first().contains(q) by {
            lemma_sorted_tail(s, q);
            lemma_sorted_tail(t, q);
        }
        lemma_sorted_tail(s, s[0]);
        lemma_sorted_tail(t, t[0]);
        lemma_sorted_unique(s.drop_first(), t.drop_first());
        assert forall|i: int| 0 <= i < s.len() implies s[i] == t[i] by {
            if i > 0 {
                assert(s[i] == s.drop_first()[i - 1]);
                assert(t[i] == t.drop_first()[i - 1]);
            }
        }
        assert(s =~= t);
    }
}

/// Access levels and services intersected with themselves are unchanged.
proof fn lemma_self_services(m: Map<Seq<char>, crate::permissions::ServicePermissionView>)
    ensures
        intersect_services(m, m) == m,
{
    assert(intersect_services(m, m) =~= m);
}

/// `t` is `s` sorted in string order with its duplicates dropped: strictly
/// increasing, with the same elements. Only one sequence is that (see
/// `law_sorted_dedup_is_unique`).
pub open spec fn is_sorted_dedup(t: Seq<Seq<char>>, s: Seq<Seq<char>>) -> bool {
    sorted_strict(t) && forall|q: Seq<char>| #[trigger] t.contains(q) <==> s.contains(q)
}

/// A sequence has at most one sorted, duplicate-free form.
pub proof fn law_sorted_dedup_is_unique(s: Seq<Seq<char>>, t1: Seq<Seq<char>>, t2: Seq<Seq<char>>)
    requires
        is_sorted_dedup(t1, s),
        is_sorted_dedup(t2, s),
    ensures
        t1 == t2,
{
    lemma_sorted_unique(t1, t2);
}

/// Intersecting a permission set with itself sorts its path and host
/// patterns and drops their duplicates, and keeps its commands, variables
/// and services as they are.
pub proof fn law_self_intersection(p: PermissionsView, r: PermissionsView)
    requires
        is_intersection(p, p, r),
    ensures
        is_sorted_dedup(r.read, p.read),
        is_sorted_dedup(r.write, p.write),
        is_sorted_dedup(r.allow, p.allow),
        forall|t: Seq<Seq<char>>| #[trigger] is_sorted_dedup(t, p.read) ==> t == r.read,
        forall|t: Seq<Seq<char>>| #[trigger] is_sorted_dedup(t, p.write) ==> t == r.write,
        forall|t: Seq<Seq<char>>| #[trigger] is_sorted_dedup(t, p.allow) ==> t == r.allow,
        r.exec_names == p.exec_names,
        r.env == p.env,
        r.services == p.services,
{
    assert forall|q: Seq<char>| r.read.contains(q) <==> p.read.contains(q) by {
        lemma_self_pattern_intersection(p.read, q);
    }
    assert forall|q: Seq<char>| r.write.contains(q) <==> p.write.contains(q) by {
        lemma_self_pattern_intersection(p.write, q);
    }
    assert forall|q: Seq<char>| r.allow.contains(q) <==> p.allow.contains(q) by {
        lemma_self_pattern_intersection(p.allow, q);
    }
    assert forall|t: Seq<Seq<char>>| #[trigger] is_sorted_dedup(t, p.read) implies t == r.read by {
        lemma_sorted_unique(t, r.read);
    }
    assert forall|t: Seq<Seq<char>>| #[trigger] is_sorted_dedup(t, p.write) implies t == r.write by {
        lemma_sorted_unique(t, r.write);
    }
    assert forall|t: Seq<Seq<char>>| #[trigger] is_sorted_dedup(t, p.allow) implies t == r.allow by {
        lemma_sorted_unique(t, r.allow);
    }
    assert forall|i: int| 0 <= i < p.exec_names.len() implies p.exec_names.contains(
        #[trigger] p.exec_names[i],
    ) by {}
    assert forall|i: int| 0 <= i < p.env.len() implies p.env.contains(#[trigger] p.env[i]) by {}
    lemma_keep_all(p.exec_names, p.exec_names);
    lemma_keep_all(p.env, p.env);
    lemma_self_services(p.services);
}

/// Intersection is idempotent: intersecting the result of an intersection
/// with itself gives that result again.
pub proof fn law_intersection_idempotent(a: PermissionsView, b: PermissionsView, r: PermissionsView, r2: PermissionsView)
    requires
        is_intersection(a, b, r),
        is_intersection(r, r, r2),
    ensures
        r2 == r,
{
    law_self_intersection(r, r2);
    assert(is_sorted_dedup(r.read, r.read));
    assert(is_sorted_dedup(r.write, r.write));
    assert(is_sorted_dedup(r.allow, r.allow));
}

/// Reminders fail closed: a call reaches the backend only when the policy
/// allows its method and the backend is available, and a listing confined to
/// one list or an addition only when that list lies in the declared scope.
pub proof fn law_reminders_fail_closed(
    p: PermissionsView,
    method: Seq<char>,
    available: bool,
    parsed: Result<RemindersCall, HandlerError>,
)
    ensures
        reminders_decision(p, method, available, parsed) matches Ok(c) ==> {
            &&& service_allows(p.services, "reminders"@, method)
            &&& available
            &&& (c matches RemindersCall::Add(a) ==> reminders_scope_allows(p.services, a.list@))
            &&& (c matches RemindersCall::List(l) ==> (l.list matches Some(name)
                ==> reminders_scope_allows(p.services, name@)))
        },
{
}

// ---------------------------------------------------------------------------
// Access levels and scopes
// ---------------------------------------------------------------------------

/// Writing implies reading: `write` admits every action that `read`
/// admits.
pub proof fn law_write_implies_read(action: Seq<char>)
    ensures
        access_allows("read"@, action) ==> access_allows("write"@, action),
{
    reveal_strlit("read");
    reveal_strlit("write");
    assert("read"@ != "write"@) by {
        assert("read"@[0] != "write"@[0]);
    }
}

/// `write` admits every action that adds, creates, updates or deletes, and
/// every action that lists or gets; `read` admits none of the changing
/// ones.
pub proof fn law_write_admits_changes(action: Seq<char>)
    ensures
        starts_with(action, "add"@) || starts_with(action, "create"@) || starts_with(action, "update"@)
            || starts_with(action, "delete"@) || starts_with(action, "list"@) || starts_with(
            action,
            "get"@,
        ) ==> access_allows("write"@, action),
        starts_with(action, "add"@) || starts_with(action, "create"@) || starts_with(action, "update"@)
            || starts_with(action, "delete"@) ==> !access_allows("read"@, action),
{
    reveal_strlit("read");
    reveal_strlit("write");
    reveal_strlit("add");
    reveal_strlit("create");
    reveal_strlit("update");
    reveal_strlit("delete");
    reveal_strlit("list");
    reveal_strlit("get");
    assert("read"@ != "write"@) by {
        assert("read"@[0] != "write"@[0]);
    }
    if starts_with(action, "add"@) || starts_with(action, "create"@) || starts_with(action, "update"@)
        || starts_with(action, "delete"@) {
        if starts_with(action, "add"@) {
            assert(action[0] == action.subrange(0, 3)[0]);
        } else if starts_with(action, "create"@) {
            assert(action[0] == action.subrange(0, 6)[0]);
        } else if starts_with(action, "update"@) {
            assert(action[0] == action.subrange(0, 6)[0]);
        } else {
            assert(action[0] == action.subrange(0, 6)[0]);
        }
        assert(action[0] == 'a' || action[0] == 'c' || action[0] == 'u' || action[0] == 'd');
        assert(!starts_with(action, "list"@)) by {
            if starts_with(action, "list"@) {
                assert(action[0] == action.subrange(0, 4)[0]);
            }
        }
        assert(!starts_with(action, "get"@)) by {
            if starts_with(action, "get"@) {
                assert(action[0] == action.subrange(0, 3)[0]);
            }
        }
    }
}

/// `readwrite` admits every action that `read` or `write` admits.
pub proof fn law_readwrite_covers_read_and_write(action: Seq<char>)
    ensures
        access_allows("read"@, action) ==> access_allows("readwrite"@, action),
        access_allows("write"@, action) ==> access_allows("readwrite"@, action),
{
    reveal_strlit("read");
    reveal_strlit("write");
    reveal_strlit("readwrite");
    assert("readwrite"@ != "read"@ && "readwrite"@ != "write"@) by {
        assert("readwrite"@.len() != "read"@.len());
        assert("readwrite"@.len() != "write"@.len());
    }
    assert("read"@ != "write"@) by {
        assert("read"@[0] != "write"@[0]);
    }
}

/// A scope whose `lists` array holds `"*"` admits every list.
pub proof fn law_wildcard_scope_admits_all(scope: ScopeView, items: Seq<ScopeItemView>, list: Seq<char>)
    requires
        scope.contains_key("lists"@),
        scope["lists"@] == Some(items),
        items.contains(ScopeItemView::Text("*"@)),
    ensures
        scope_admits(scope, list),
{
    let i = choose|i: int| 0 <= i < items.len() && items[i] == ScopeItemView::Text("*"@);
    assert(list_admits(items, list));
}

// ---------------------------------------------------------------------------
// The broker
// ---------------------------------------------------------------------------

/// Every routed request is counted once as allowed or denied: statistics in
/// which the total is the sum of allowed and denied calls keep that balance
/// through the arrival and the outcome of a request, and the request's
/// method gains one call.
pub proof fn law_stats_stay_balanced(s: BrokerStatsView, method: Seq<char>, allowed: bool)
    requires
        s.total_calls == s.allowed_calls + s.denied_calls,
        crate::broker::method_count(s.calls_by_method, method) < usize::MAX,
    ensures
        ({
            let t = after_outcome(after_call(s, method), allowed);
            &&& t.total_calls == t.allowed_calls + t.denied_calls
            &&& t.total_calls == s.total_calls + 1
            &&& crate::broker::method_count(t.calls_by_method, method) == crate::broker::method_count(
                s.calls_by_method,
                method,
            ) + 1
        }),
{
}

/// What a line read on a broker connection comes to: a request that was
/// routed (with its method, and whether it succeeded), or a line that is no
/// request.
pub enum LineEvent {
    Routed(Seq<char>, bool),
    Malformed,
}

/// The statistics after one line: a routed request is counted on arrival
/// and by its outcome; a malformed line leaves them as they were.
pub open spec fn after_line(s: BrokerStatsView, e: LineEvent) -> BrokerStatsView {
    match e {
        LineEvent::Routed(method, allowed) => after_outcome(after_call(s, method), allowed),
        LineEvent::Malformed => s,
    }
}

/// The statistics after the lines of a connection, in order.
pub open spec fn after_lines(s: BrokerStatsView, lines: Seq<LineEvent>) -> BrokerStatsView
    decreases lines.len(),
{
    if lines.len() == 0 {
        s
    } else {
        after_line(after_lines(s, lines.drop_last()), lines.last())
    }
}

/// The number of routed requests among the lines.
pub open spec fn routed_count(lines: Seq<LineEvent>) -> int
    decreases lines.len(),
{
    if lines.len() == 0 {
        0
    } else {
        routed_count(lines.drop_last()) + if lines.last() is Routed {
            1int
        } else {
            0int
        }
    }
}

/// Over a whole connection, statistics stay balanced: each routed request
/// is counted once, as allowed or as denied, and a malformed line is not
/// counted.
pub proof fn law_connection_stays_balanced(s: BrokerStatsView, lines: Seq<LineEvent>)
    requires
        s.total_calls == s.allowed_calls + s.denied_calls,
    ensures
        ({
            let t = after_lines(s, lines);
            &&& t.total_calls == t.allowed_calls + t.denied_calls
            &&& t.total_calls == s.total_calls + routed_count(lines)
            &&& t.allowed_calls >= s.allowed_calls
            &&& t.denied_calls >= s.denied_calls
        }),
    decreases lines.len(),
{
    if lines.len() > 0 {
        law_connection_stays_balanced(s, lines.drop_last());
    }
}

/// A handler hands back a filesystem operation only when the permission set
/// allows it: reading, listing and inspecting need a readable path, writing
/// and deleting a writable one.
pub proof fn law_fs_operations_are_permitted(method: Seq<char>, params: serde_json::Value, p: PermissionsView)
    ensures
        fs_outcome(method, params, p) matches Ok(op) ==> match op {
            FsOpView::Read(path) => path_allowed(path, p.read),
            FsOpView::List(path) => path_allowed(path, p.read),
            FsOpView::Stat(path) => path_allowed(path, p.read),
            FsOpView::Write(path, _) => path_allowed(path, p.write),
            FsOpView::Delete(path) => path_allowed(path, p.write),
        },
{
}

/// A handler hands back a network operation only when the permission set
/// allows the connection its URL leads to, and a download only when it may
/// also write the file it saves to.
pub proof fn law_network_operations_are_permitted(method: Seq<char>, params: serde_json::Value, p: PermissionsView)
    ensures
        network_outcome(method, params, p) matches Ok(op) ==> match op {
            NetOpView::Http(_, url, _, _) => url_target(url) matches Ok((h, port)) && network_allowed(
                h,
                port,
                p.allow,
            ),
            NetOpView::Download(url, save_to) => url_target(url) matches Ok((h, port))
                && network_allowed(h, port, p.allow) && path_allowed(save_to, p.write),
        },
{
}

/// A handler hands back a variable to read or a command to run only when
/// the manifest declares it.
pub proof fn law_env_and_exec_are_declared(method: Seq<char>, params: serde_json::Value, p: ManifestPermissions)
    ensures
        env_outcome(method, params, p) matches Ok(name) ==> (p.env matches Some(v) && strs(v@).contains(
            name,
        )),
        exec_outcome(method, params, p) matches Ok((command, _, _)) ==> (p.exec_names matches Some(v)
            && exec_listed(strs(v@), command)),
{
}

// ---------------------------------------------------------------------------
// HTTP methods and launch plans
// ---------------------------------------------------------------------------

/// Each upper-case HTTP method name stands for its own method, no other
/// name stands for one, and two names that stand for the same method are
/// the same name.
pub proof fn law_verb_names(n1: Seq<char>, n2: Seq<char>)
    ensures
        verb_named("GET"@) == Some(HttpVerb::Get),
        verb_named("POST"@) == Some(HttpVerb::Post),
        verb_named("PUT"@) == Some(HttpVerb::Put),
        verb_named("DELETE"@) == Some(HttpVerb::Delete),
        verb_named("PATCH"@) == Some(HttpVerb::Patch),
        verb_named(n1) is Some <==> (n1 == "GET"@ || n1 == "POST"@ || n1 == "PUT"@ || n1 == "DELETE"@
            || n1 == "PATCH"@),
        verb_named(n1) is Some && verb_named(n1) == verb_named(n2) ==> n1 == n2,
{
    reveal_strlit("GET");
    reveal_strlit("POST");
    reveal_strlit("PUT");
    reveal_strlit("DELETE");
    reveal_strlit("PATCH");
    assert("GET"@ != "POST"@ && "GET"@ != "PUT"@ && "GET"@ != "DELETE"@ && "GET"@ != "PATCH"@) by {
        assert("GET"@[0] != "POST"@[0] && "GET"@[0] != "PUT"@[0] && "GET"@[0] != "DELETE"@[0]);
        assert("GET"@[0] != "PATCH"@[0]);
    }
    assert("POST"@ != "PUT"@ && "POST"@ != "DELETE"@ && "POST"@ != "PATCH"@) by {
        assert("POST"@.len() != "PUT"@.len() && "POST"@[0] != "DELETE"@[0]);
        assert("POST"@.len() != "PATCH"@.len());
    }
    assert("PUT"@ != "DELETE"@ && "PUT"@ != "PATCH"@) by {
        assert("PUT"@[0] != "DELETE"@[0] && "PUT"@.len() != "PATCH"@.len());
    }
    assert("DELETE"@ != "PATCH"@) by {
        assert("DELETE"@[0] != "PATCH"@[0]);
    }
}

/// Under `bwrap` the skill directory is bound read-only at `/skill`, and
/// the work and data directories are bound writable at `/work` and
/// `/data`.
pub proof fn law_bwrap_mounts(
    m: Manifest,
    skill: std::path::PathBuf,
    work: std::path::PathBuf,
    data: std::path::PathBuf,
    socket: std::path::PathBuf,
    host: Map<Seq<char>, Seq<char>>,
)
    ensures
        ({
            let a = bwrap_plan_spec(m, skill, work, data, socket, host).args;
            &&& exists|i: int|
                0 <= i && i + 2 < a.len() && #[trigger] a[i] == t("--ro-bind"@) && a[i + 1] == pth(skill)
                    && a[i + 2] == t("/skill"@)
            &&& exists|i: int|
                0 <= i && i + 2 < a.len() && #[trigger] a[i] == t("--bind"@) && a[i + 1] == pth(work)
                    && a[i + 2] == t("/work"@)
            &&& exists|i: int|
                0 <= i && i + 2 < a.len() && #[trigger] a[i] == t("--bind"@) && a[i + 1] == pth(data)
                    && a[i + 2] == t("/data"@)
        }),
{
    let a = bwrap_plan_spec(m, skill, work, data, socket, host).args;
    let base = crate::launch::bwrap_base_args(skill, work, data, socket);
    assert(a.subrange(0, base.len() as int) == base);
    assert(a[24] == base[24] && a[25] == base[25] && a[26] == base[26]);
    assert(a[27] == base[27] && a[28] == base[28] && a[29] == base[29]);
    assert(a[30] == base[30] && a[31] == base[31] && a[32] == base[32]);
}

// ---------------------------------------------------------------------------
// Directory variables in path patterns
// ---------------------------------------------------------------------------

/// Replacing a pattern that starts with `$` changes nothing in a text
/// without `$`.
proof fn lemma_replace_without_dollar(s: Seq<char>, pat: Seq<char>, i: int)
    requires
        0 <= i <= s.len(),
        pat.len() > 0,
        pat[0] == '$',
        forall|j: int| i <= j < s.len() ==> s[j] != '$',
    ensures
        replace_from(s, pat, Seq::empty(), i) == s.subrange(i, s.len() as int),
    decreases s.len() - i,
{
    if i < s.len() {
        assert(!occurs_at(s, pat, i)) by {
            if occurs_at(s, pat, i) {
                assert(s.subrange(i, i + pat.len())[0] == s[i]);
            }
        }
        lemma_replace_without_dollar(s, pat, i + 1);
        assert(seq![s[i]] + s.subrange(i + 1, s.len() as int) =~= s.subrange(i, s.len() as int));
    } else {
        assert(s.subrange(i, s.len() as int) =~= Seq::<char>::empty());
    }
}

/// A directory variable followed by a text without `$` becomes that text.
proof fn lemma_drop_variable(var: Seq<char>, q: Seq<char>)
    requires
        var.len() > 0,
        var[0] == '$',
        forall|j: int| 0 <= j < q.len() ==> q[j] != '$',
    ensures
        replace_all(var + q, var, Seq::empty()) == q,
{
    let s = var + q;
    assert(occurs_at(s, var, 0)) by {
        assert(s.subrange(0, var.len() as int) =~= var);
    }
    assert forall|j: int| var.len() <= j < s.len() implies s[j] != '$' by {
        assert(s[j] == q[j - var.len()]);
    }
    lemma_replace_without_dollar(s, var, var.len() as int);
    assert(s.subrange(var.len() as int, s.len() as int) =~= q);
    assert(replace_from(s, var, Seq::empty(), 0) == Seq::<char>::empty() + replace_from(
        s,
        var,
        Seq::empty(),
        var.len() as int,
    ));
    assert(Seq::<char>::empty() + q =~= q);
}

/// A text whose only `$` is its first character holds no occurrence of a
/// name starting with `$` whose second character differs from the text's.
proof fn lemma_no_other_variable(s: Seq<char>, name: Seq<char>)
    requires
        s.len() > 1,
        name.len() > 1,
        s[0] == '$',
        name[0] == '$',
        s[1] != name[1],
        forall|j: int| 1 <= j < s.len() ==> s[j] != '$',
    ensures
        !contains(s, name),
{
    assert forall|i: int| !occurs_at(s, name, i) by {
        if occurs_at(s, name, i) {
            assert(s.subrange(i, i + name.len())[0] == s[i]);
            assert(s.subrange(i, i + name.len())[1] == s[i + 1]);
        }
    }
}

/// A path pattern `$DATA_DIR/rest`, where `rest` holds no other variable,
/// admits a path under `/data/` exactly when `rest` matches the path's part
/// below `/data/`; likewise `$WORK_DIR/rest` for paths under `/work/`.
pub proof fn law_directory_variables(q: Seq<char>, x: Seq<char>)
    requires
        forall|j: int| 0 <= j < q.len() ==> q[j] != '$',
    ensures
        pattern_admits("/data/"@ + x, "$DATA_DIR/"@ + q) == glob_accepts(q, x),
        pattern_admits("/work/"@ + x, "$WORK_DIR/"@ + q) == glob_accepts(q, x),
{
    reveal_strlit("/data/");
    reveal_strlit("/work/");
    reveal_strlit("$DATA_DIR/");
    reveal_strlit("$WORK_DIR/");
    reveal_strlit("$DATA_DIR");
    reveal_strlit("$WORK_DIR");
    reveal_strlit("$SKILL_DIR");
    reveal_strlit("/");
    reveal_strlit("/skill/");
    let dp = "$DATA_DIR/"@ + q;
    let wp = "$WORK_DIR/"@ + q;
    let dpath = "/data/"@ + x;
    let wpath = "/work/"@ + x;
    assert forall|j: int| 1 <= j < dp.len() implies dp[j] != '$' by {
        if j >= 10 {
            assert(dp[j] == q[j - 10]);
        }
    }
    assert forall|j: int| 1 <= j < wp.len() implies wp[j] != '$' by {
        if j >= 10 {
            assert(wp[j] == q[j - 10]);
        }
    }
    lemma_no_other_variable(dp, "$SKILL_DIR"@);
    lemma_no_other_variable(wp, "$SKILL_DIR"@);
    lemma_no_other_variable(wp, "$DATA_DIR"@);
    assert(occurs_at(dp, "$DATA_DIR"@, 0)) by {
        assert(dp.subrange(0, 9) =~= "$DATA_DIR"@);
    }
    assert(occurs_at(wp, "$WORK_DIR"@, 0)) by {
        assert(wp.subrange(0, 9) =~= "$WORK_DIR"@);
    }
    assert(occurs_at(dpath, "/data/"@, 0)) by {
        assert(dpath.subrange(0, 6) =~= "/data/"@);
    }
    assert(occurs_at(wpath, "/work/"@, 0)) by {
        assert(wpath.subrange(0, 6) =~= "/work/"@);
    }
    assert(strip_prefix_or_self(dpath, "/data/"@) =~= x);
    assert(strip_prefix_or_self(wpath, "/work/"@) =~= x);
    lemma_drop_variable("$DATA_DIR/"@, q);
    lemma_drop_variable("$WORK_DIR/"@, q);
}

// ---------------------------------------------------------------------------
// Heredocs
// ---------------------------------------------------------------------------

/// The first occurrence at or after `from` is at `n` when `n` is one and
/// none lies between.
proof fn lemma_find_at(s: Seq<char>, pat: Seq<char>, from: int, n: int)
    requires
        0 <= from <= n,
        occurs_at(s, pat, n),
        forall|j: int| from <= j < n ==> !occurs_at(s, pat, j),
    ensures
        find_from(s, pat, from) == Some(n),
    decreases n - from,
{
    if from < n {
        lemma_find_at(s, pat, from + 1, n);
    }
}

/// In `prefix`, `<<`, `tail` with no `<` in `prefix`, the first arrows are
/// those right after `prefix`, with `prefix` before them and `tail` after.
proof fn lemma_arrows_after(prefix: Seq<char>, tail: Seq<char>)
    requires
        forall|j: int| 0 <= j < prefix.len() ==> prefix[j] != '<',
    ensures
        find_from(prefix + seq!['<', '<'] + tail, seq!['<', '<'], 0) == Some(prefix.len() as int),
        (prefix + seq!['<', '<'] + tail).subrange(0, prefix.len() as int) == prefix,
        (prefix + seq!['<', '<'] + tail).subrange(
            prefix.len() as int + 2,
            (prefix + seq!['<', '<'] + tail).len() as int,
        ) == tail,
{
    let s = prefix + seq!['<', '<'] + tail;
    let n = prefix.len() as int;
    assert(occurs_at(s, seq!['<', '<'], n)) by {
        assert(s.subrange(n, n + 2) =~= seq!['<', '<']);
    }
    assert forall|j: int| 0 <= j < n implies !occurs_at(s, seq!['<', '<'], j) by {
        if occurs_at(s, seq!['<', '<'], j) {
            assert(s.subrange(j, j + 2)[0] == s[j]);
            assert(s[j] == prefix[j]);
        }
    }
    lemma_find_at(s, seq!['<', '<'], 0, n);
    assert(s.subrange(0, n) =~= prefix);
    assert(s.subrange(n + 2, s.len() as int) =~= tail);
}

/// The `<<-TAG` form of a heredoc is stripped exactly as `<<TAG` is: the
/// dash only lets the closing line be indented, so a command with either
/// form has the same text left once its heredoc bodies are removed.
pub proof fn law_dash_heredoc_strips_like_plain(prefix: Seq<char>, x: Seq<char>)
    requires
        forall|j: int| 0 <= j < prefix.len() ==> prefix[j] != '<',
        x.len() > 0,
        is_tag_char(x[0]),
        !is_whitespace(x[0]),
        x[0] != '-',
        x[0] != '\'',
        x[0] != '"',
    ensures
        strip_heredocs(prefix + seq!['<', '<', '-'] + x) == strip_heredocs(prefix + seq!['<', '<'] + x),
{
    let dashed = seq!['-'] + x;
    lemma_arrows_after(prefix, dashed);
    lemma_arrows_after(prefix, x);
    assert(prefix + seq!['<', '<', '-'] + x =~= prefix + seq!['<', '<'] + dashed);
    assert(strip_prefix_or_self(dashed, seq!['-']) =~= x) by {
        assert(dashed.subrange(0, 1) =~= seq!['-']);
        assert(dashed.subrange(1, dashed.len() as int) =~= x);
    }
    assert(strip_prefix_or_self(x, seq!['-']) == x) by {
        if x.subrange(0, 1) == seq!['-'] {
            assert(x.subrange(0, 1)[0] == x[0]);
        }
    }
    assert(trim_start_ws(x) == x);
    lemma_tag_end(x, 1);
    assert(tag_end(x, 0) == tag_end(x, 1));
    assert(heredoc_tag(x).0.len() > 0);
}

/// A command without `<` opens no heredoc, so nothing is stripped from it.
pub proof fn law_no_heredoc_no_change(cmd: Seq<char>)
    requires
        forall|j: int| 0 <= j < cmd.len() ==> cmd[j] != '<',
    ensures
        strip_heredocs(cmd) == cmd,
{
    crate::text::lemma_find_from(cmd, seq!['<', '<'], 0);
    assert forall|j: int| 0 <= j implies !occurs_at(cmd, seq!['<', '<'], j) by {
        if occurs_at(cmd, seq!['<', '<'], j) {
            assert(cmd.subrange(j, j + 2)[0] == cmd[j]);
        }
    }
}

/// `send` and `open` admit exactly the action of their own name.
pub proof fn law_single_action_levels(action: Seq<char>)
    ensures
        access_allows("send"@, action) <==> action == "send"@,
        access_allows("open"@, action) <==> action == "open"@,
{
    reveal_strlit("read");
    reveal_strlit("write");
    reveal_strlit("readwrite");
    reveal_strlit("send");
    reveal_strlit("open");
    assert("send"@[0] != "read"@[0] && "send"@[0] != "readwrite"@[0] && "send"@.len() != "write"@.len());
    assert("open"@[0] != "read"@[0] && "open"@[0] != "readwrite"@[0] && "open"@.len() != "write"@.len());
    assert("open"@[0] != "send"@[0]);
}

/// A path pattern without a directory variable (without `$`) is matched
/// against the path as it is.
pub proof fn law_plain_pattern(path: Seq<char>, pattern: Seq<char>)
    requires
        forall|j: int| 0 <= j < pattern.len() ==> pattern[j] != '$',
    ensures
        pattern_admits(path, pattern) == glob_accepts(pattern, path),
{
    reveal_strlit("$DATA_DIR");
    reveal_strlit("$WORK_DIR");
    reveal_strlit("$SKILL_DIR");
    assert forall|name: Seq<char>| name.len() > 0 && name[0] == '$' implies !contains(pattern, name) by {
        assert forall|i: int| !occurs_at(pattern, name, i) by {
            if occurs_at(pattern, name, i) {
                assert(pattern.subrange(i, i + name.len())[0] == pattern[i]);
            }
        }
    }
    assert(("$DATA_DIR"@)[0] == '$' && ("$WORK_DIR"@)[0] == '$' && ("$SKILL_DIR"@)[0] == '$');
}

} // verus!

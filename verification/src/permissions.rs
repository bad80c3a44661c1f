//! Standalone permission sets, their builder, and their intersection.

use vstd::prelude::*;
use crate::glob::{glob_accepts, glob_accepts_exec};
use crate::scope::{Scope, ScopeView};
use crate::strmap::{StrMap, ViewClone, entries_map};
use crate::text::{chars_of, count_char, count_char_exec, lt_exec, chars_eq, seq_lt};

verus! {

/// The contents of a list of strings.
pub open spec fn strs(v: Seq<String>) -> Seq<Seq<char>> {
    v.map_values(|s: String| s@)
}

/// The contents of a list of string slices.
pub open spec fn slices(v: Seq<&str>) -> Seq<Seq<char>> {
    v.map_values(|s: &str| s@)
}

/// Filesystem access patterns.
#[derive(Debug)]
pub struct FsPermissions {
    /// Glob patterns of readable paths.
    pub read: Vec<String>,
    /// Glob patterns of writable paths.
    pub write: Vec<String>,
}

/// Network access patterns.
#[derive(Debug)]
pub struct NetworkPermissions {
    /// `host:port` patterns.
    pub allow: Vec<String>,
}

/// Access to one system service.
#[derive(Debug)]
pub struct ServicePermission {
    /// One of "read", "write", "readwrite", "send", "open".
    pub access: String,
    /// Restrictions on the service, such as the lists it may touch.
    pub scope: Scope,
}

/// What a service permission states.
pub struct ServicePermissionView {
    pub access: Seq<char>,
    pub scope: ScopeView,
}

impl View for ServicePermission {
    type V = ServicePermissionView;

    open spec fn view(&self) -> ServicePermissionView {
        ServicePermissionView { access: self.access@, scope: self.scope@ }
    }
}

impl ViewClone for ServicePermission {
    fn view_clone(&self) -> (r: Self) {
        ServicePermission { access: self.access.clone(), scope: self.scope.clone() }
    }
}

impl Clone for ServicePermission {
    fn clone(&self) -> (r: Self)
        ensures
            r@ == self@,
    {
        self.view_clone()
    }
}

/// A permission set.
#[derive(Debug)]
pub struct Permissions {
    pub fs: FsPermissions,
    pub network: NetworkPermissions,
    /// Names of executables that may run.
    pub exec_names: Vec<String>,
    /// Names of environment variables that may be read.
    pub env: Vec<String>,
    /// Permitted services by name.
    pub services: StrMap<ServicePermission>,
}

/// What a permission set states.
pub struct PermissionsView {
    pub read: Seq<Seq<char>>,
    pub write: Seq<Seq<char>>,
    pub allow: Seq<Seq<char>>,
    pub exec_names: Seq<Seq<char>>,
    pub env: Seq<Seq<char>>,
    pub services: Map<Seq<char>, ServicePermissionView>,
}

impl View for Permissions {
    type V = PermissionsView;

    open spec fn view(&self) -> PermissionsView {
        PermissionsView {
            read: strs(self.fs.read@),
            write: strs(self.fs.write@),
            allow: strs(self.network.allow@),
            exec_names: strs(self.exec_names@),
            env: strs(self.env@),
            services: self.services@,
        }
    }
}

/// A copy of a list of strings.
pub fn clone_strings(v: &Vec<String>) -> (r: Vec<String>)
    ensures
        strs(r@) == strs(v@),
{
    let r = v.clone();
    assert(r@ =~= v@);
    r
}

impl Clone for Permissions {
    fn clone(&self) -> (r: Self)
        ensures
            r@ == self@,
    {
        Permissions {
            fs: FsPermissions { read: clone_strings(&self.fs.read), write: clone_strings(&self.fs.write) },
            network: NetworkPermissions { allow: clone_strings(&self.network.allow) },
            exec_names: clone_strings(&self.exec_names),
            env: clone_strings(&self.env),
            services: self.services.clone(),
        }
    }
}

// ---------------------------------------------------------------------------
// Pattern intersection
// ---------------------------------------------------------------------------

/// The byte length of a string as `str::len` reports it: the length of its
/// UTF-8 encoding.
pub open spec fn byte_len(s: Seq<char>) -> int {
    (vstd::utf8::encode_utf8(s).len() as usize) as int
}

/// How specific a pattern is: its byte length less ten per `*` and five per
/// `?`, and never below zero.
pub open spec fn specificity(s: Seq<char>) -> int {
    let penalty = 10 * count_char(s, '*') + 5 * count_char(s, '?');
    if byte_len(s) > penalty {
        byte_len(s) - penalty
    } else {
        0
    }
}

/// The more specific of two patterns; the first on a tie.
pub open spec fn more_specific_spec(a: Seq<char>, b: Seq<char>) -> Seq<char> {
    if specificity(a) >= specificity(b) {
        a
    } else {
        b
    }
}

/// The intersection of two patterns, the most restrictive of them: the
/// pattern itself when they are equal; when one matches the other taken as
/// literal text, the one that is matched (it admits no more than the one
/// that matches it), and the more specific one when each matches the other;
/// nothing when neither matches the other.
pub open spec fn intersect_two(a: Seq<char>, b: Seq<char>) -> Option<Seq<char>> {
    if a == b {
        Some(a)
    } else if glob_accepts(a, b) && glob_accepts(b, a) {
        Some(more_specific_spec(a, b))
    } else if glob_accepts(a, b) {
        Some(b)
    } else if glob_accepts(b, a) {
        Some(a)
    } else {
        None
    }
}

/// `p` is the intersection of some pattern of `left` with some pattern of
/// `right`.
pub open spec fn in_intersection(left: Seq<Seq<char>>, right: Seq<Seq<char>>, p: Seq<char>) -> bool {
    exists|i: int, j: int|
        0 <= i < left.len() && 0 <= j < right.len() && #[trigger] intersect_two(left[i], right[j])
            == Some(p)
}

/// The sequence is strictly increasing in string order.
pub open spec fn sorted_strict(s: Seq<Seq<char>>) -> bool {
    forall|i: int, j: int| 0 <= i < j < s.len() ==> seq_lt(#[trigger] s[i], #[trigger] s[j])
}

/// The specificity score of a pattern.
pub fn specificity_score(s: &str) -> (r: usize)
    ensures
        r == specificity(s@),
{
    let v = chars_of(s);
    let stars = count_char_exec(v.as_slice(), '*');
    let questions = count_char_exec(v.as_slice(), '?');
    let len = s.len();
    // Once the penalty exceeds the length the score is zero, so the
    // penalty is only computed while it fits.
    if stars > len / 10 {
        return 0;
    }
    let star_penalty = stars * 10;
    if questions > (len - star_penalty) / 5 {
        return 0;
    }
    let penalty = star_penalty + questions * 5;
    len - penalty
}

/// The more specific of two patterns; the first on a tie.
pub fn more_specific<'a>(a: &'a str, b: &'a str) -> (r: &'a str)
    ensures
        r@ == more_specific_spec(a@, b@),
{
    let sa = specificity_score(a);
    let sb = specificity_score(b);
    if sa >= sb {
        a
    } else {
        b
    }
}

/// The intersection of two patterns.
pub fn intersect_two_patterns(a: &str, b: &str) -> (r: Option<String>)
    ensures
        match r {
            Some(p) => intersect_two(a@, b@) == Some(p@),
            None => intersect_two(a@, b@) is None,
        },
{
    let av = chars_of(a);
    let bv = chars_of(b);
    if chars_eq(av.as_slice(), bv.as_slice()) {
        return Some(a.to_owned());
    }
    let a_matches_b = glob_accepts_exec(av.as_slice(), bv.as_slice());
    let b_matches_a = glob_accepts_exec(bv.as_slice(), av.as_slice());
    if a_matches_b && b_matches_a {
        Some(more_specific(a, b).to_owned())
    } else if a_matches_b {
        Some(b.to_owned())
    } else if b_matches_a {
        Some(a.to_owned())
    } else {
        None
    }
}

/// Inserts `p` into a strictly sorted list unless it is already there.
fn insert_sorted(out: &mut Vec<String>, p: String)
    requires
        sorted_strict(strs(old(out)@)),
    ensures
        sorted_strict(strs(final(out)@)),
        forall|q: Seq<char>|
            #![trigger strs(final(out)@).contains(q)]
            strs(final(out)@).contains(q) <==> (strs(old(out)@).contains(q) || q == p@),
{
    let pv = chars_of(p.as_str());
    let mut k: usize = 0;
    while k < out.len() && lt_exec(chars_of(out[k].as_str()).as_slice(), pv.as_slice())
        invariant
            k <= out@.len(),
            pv@ == p@,
            forall|j: int| 0 <= j < k ==> seq_lt(#[trigger] strs(out@)[j], p@),
        decreases out@.len() - k,
    {
        k = k + 1;
    }
    let ghost s = strs(out@);
    if k < out.len() && chars_eq(chars_of(out[k].as_str()).as_slice(), pv.as_slice()) {
        assert(s[k as int] == p@);
        return;
    }
    proof {
        if k < s.len() {
            crate::text::lemma_lt_trichotomy(s[k as int], p@);
            assert(seq_lt(p@, s[k as int]));
            assert forall|j: int| k < j < s.len() implies seq_lt(p@, #[trigger] s[j]) by {
                crate::text::lemma_lt_transitive(p@, s[k as int], s[j]);
            }
        }
    }
    out.insert(k, p);
    proof {
        let t = strs(out@);
        assert(t =~= s.insert(k as int, p@));
        assert forall|i: int, j: int| 0 <= i < j < t.len() implies seq_lt(
            #[trigger] t[i],
            #[trigger] t[j],
        ) by {
            if j < k {
            } else if j == k {
            } else if i < k {
                crate::text::lemma_lt_transitive(t[i], p@, t[j]);
            } else if i == k {
            } else {
            }
        }
        assert forall|q: Seq<char>| #[trigger] t.contains(q) <==> (s.contains(q) || q == p@) by {
            if t.contains(q) {
                let i = choose|i: int| 0 <= i < t.len() && t[i] == q;
                if i < k {
                    assert(s[i] == q);
                } else if i > k {
                    assert(s[i - 1] == q);
                }
            }
            if s.contains(q) {
                let i = choose|i: int| 0 <= i < s.len() && s[i] == q;
                if i < k {
                    assert(t[i] == q);
                } else {
                    assert(t[i + 1] == q);
                }
            }
            if q == p@ {
                assert(t[k as int] == q);
            }
        }
    }
}

/// The pairwise intersections of two pattern lists, without duplicates,
/// in string order.
pub fn intersect_patterns(left: &[String], right: &[String]) -> (r: Vec<String>)
    ensures
        sorted_strict(strs(r@)),
        forall|p: Seq<char>|
            #![trigger strs(r@).contains(p)]
            strs(r@).contains(p) <==> in_intersection(strs(left@), strs(right@), p),
{
    let mut out: Vec<String> = Vec::new();
    let ghost l = strs(left@);
    let ghost rt = strs(right@);
    let mut i: usize = 0;
    while i < left.len()
        invariant
            i <= left@.len(),
            l == strs(left@),
            rt == strs(right@),
            sorted_strict(strs(out@)),
            forall|p: Seq<char>|
                #![trigger strs(out@).contains(p)]
                strs(out@).contains(p) <==> exists|a: int, b: int|
                    0 <= a < i && 0 <= b < rt.len() && #[trigger] intersect_two(l[a], rt[b]) == Some(p),
        decreases left@.len() - i,
    {
        let mut j: usize = 0;
        while j < right.len()
            invariant
                i < left@.len(),
                j <= right@.len(),
                l == strs(left@),
                rt == strs(right@),
                sorted_strict(strs(out@)),
                forall|p: Seq<char>|
                    #![trigger strs(out@).contains(p)]
                    strs(out@).contains(p) <==> (exists|a: int, b: int|
                        0 <= a < i && 0 <= b < rt.len() && #[trigger] intersect_two(l[a], rt[b])
                            == Some(p)) || (exists|b: int|
                        0 <= b < j && #[trigger] intersect_two(l[i as int], rt[b]) == Some(p)),
            decreases right@.len() - j,
        {
            let ghost before = strs(out@);
            match intersect_two_patterns(left[i].as_str(), right[j].as_str()) {
                Some(p) => {
                    let ghost pv = p@;
                    insert_sorted(&mut out, p);
                    proof {
                        assert forall|q: Seq<char>| #[trigger]
                            strs(out@).contains(q) <==> (exists|a: int, b: int|
                                0 <= a < i && 0 <= b < rt.len() && #[trigger] intersect_two(
                                    l[a],
                                    rt[b],
                                ) == Some(q)) || (exists|b: int|
                                0 <= b < j + 1 && #[trigger] intersect_two(l[i as int], rt[b])
                                    == Some(q)) by {
                            if q == pv {
                                assert(intersect_two(l[i as int], rt[j as int]) == Some(q));
                            }
                            if exists|b: int|
                                0 <= b < j + 1 && #[trigger] intersect_two(l[i as int], rt[b])
                                    == Some(q) {
                                let b = choose|b: int|
                                    0 <= b < j + 1 && #[trigger] intersect_two(l[i as int], rt[b])
                                        == Some(q);
                                if b < j {
                                    assert(before.contains(q));
                                }
                            }
                        }
                    }
                },
                None => {
                    proof {
                        assert forall|q: Seq<char>| #[trigger]
                            strs(out@).contains(q) <==> (exists|a: int, b: int|
                                0 <= a < i && 0 <= b < rt.len() && #[trigger] intersect_two(
                                    l[a],
                                    rt[b],
                                ) == Some(q)) || (exists|b: int|
                                0 <= b < j + 1 && #[trigger] intersect_two(l[i as int], rt[b])
                                    == Some(q)) by {
                            if exists|b: int|
                                0 <= b < j + 1 && #[trigger] intersect_two(l[i as int], rt[b])
                                    == Some(q) {
                                let b = choose|b: int|
                                    0 <= b < j + 1 && #[trigger] intersect_two(l[i as int], rt[b])
                                        == Some(q);
                                assert(b < j);
                            }
                        }
                    }
                },
            }
            j = j + 1;
        }
        proof {
            assert forall|q: Seq<char>| #[trigger]
                strs(out@).contains(q) <==> exists|a: int, b: int|
                    0 <= a < i + 1 && 0 <= b < rt.len() && #[trigger] intersect_two(l[a], rt[b])
                        == Some(q) by {
                if exists|a: int, b: int|
                    0 <= a < i + 1 && 0 <= b < rt.len() && #[trigger] intersect_two(l[a], rt[b])
                        == Some(q) {
                    let (a, b) = choose|a: int, b: int|
                        0 <= a < i + 1 && 0 <= b < rt.len() && #[trigger] intersect_two(
                            l[a],
                            rt[b],
                        ) == Some(q);
                    if a == i {
                        assert(exists|b: int|
                            0 <= b < j && #[trigger] intersect_two(l[i as int], rt[b]) == Some(q));
                    }
                }
            }
        }
        i = i + 1;
    }
    out
}


// ---------------------------------------------------------------------------
// Intersection of permission sets
// ---------------------------------------------------------------------------

/// The elements of `a` that also occur in `b`, in the order of `a`.
pub open spec fn keep_common(a: Seq<Seq<char>>, b: Seq<Seq<char>>) -> Seq<Seq<char>>
    decreases a.len(),
{
    if a.len() == 0 {
        Seq::empty()
    } else if b.contains(a.last()) {
        keep_common(a.drop_last(), b).push(a.last())
    } else {
        keep_common(a.drop_last(), b)
    }
}

/// Whether the string `x` occurs in `v`.
pub fn contains_string(v: &Vec<String>, x: &String) -> (r: bool)
    ensures
        r == strs(v@).contains(x@),
{
    let mut j: usize = 0;
    while j < v.len()
        invariant
            j <= v@.len(),
            forall|k: int| 0 <= k < j ==> strs(v@)[k] != x@,
        decreases v@.len() - j,
    {
        if v[j] == *x {
            assert(strs(v@)[j as int] == x@);
            return true;
        }
        j = j + 1;
    }
    false
}

/// The strings of `a` that also occur in `b`, in the order of `a`.
pub fn filter_common(a: &Vec<String>, b: &Vec<String>) -> (r: Vec<String>)
    ensures
        strs(r@) == keep_common(strs(a@), strs(b@)),
{
    let mut out: Vec<String> = Vec::new();
    let mut i: usize = 0;
    while i < a.len()
        invariant
            i <= a@.len(),
            strs(out@) == keep_common(strs(a@.subrange(0, i as int)), strs(b@)),
        decreases a@.len() - i,
    {
        let ghost pre = strs(out@);
        let ghost ai = strs(a@.subrange(0, i + 1));
        assert(ai.drop_last() == strs(a@.subrange(0, i as int)));
        assert(ai.last() == a@[i as int]@);
        if contains_string(b, &a[i]) {
            out.push(a[i].clone());
            assert(strs(out@) == pre.push(a@[i as int]@));
        } else {
            assert(strs(out@) == pre);
        }
        i = i + 1;
    }
    assert(a@.subrange(0, a@.len() as int) == a@);
    out
}

/// The narrower of two access levels: the level itself when they agree;
/// the other one when one is `readwrite`; `read` for `read` and `write`
/// (writing implies reading); otherwise `none`, which admits nothing.
pub open spec fn narrower_access(a: Seq<char>, b: Seq<char>) -> Seq<char> {
    if a == b {
        a
    } else if a == "readwrite"@ {
        b
    } else if b == "readwrite"@ {
        a
    } else if (a == "read"@ && b == "write"@) || (a == "write"@ && b == "read"@) {
        "read"@
    } else {
        "none"@
    }
}

/// The narrower of two access levels.
pub fn narrower_access_exec(a: &str, b: &str) -> (r: String)
    ensures
        r@ == narrower_access(a@, b@),
{
    let av = chars_of(a);
    let bv = chars_of(b);
    let rw = chars_of("readwrite");
    let rd = chars_of("read");
    let wr = chars_of("write");
    if chars_eq(av.as_slice(), bv.as_slice()) {
        a.to_owned()
    } else if chars_eq(av.as_slice(), rw.as_slice()) {
        b.to_owned()
    } else if chars_eq(bv.as_slice(), rw.as_slice()) {
        a.to_owned()
    } else if (chars_eq(av.as_slice(), rd.as_slice()) && chars_eq(bv.as_slice(), wr.as_slice())) || (
    chars_eq(av.as_slice(), wr.as_slice()) && chars_eq(bv.as_slice(), rd.as_slice())) {
        "read".to_owned()
    } else {
        "none".to_owned()
    }
}

/// The services both sets permit, each with the narrower of the two access
/// levels and the scope of the first set.
pub open spec fn intersect_services(
    a: Map<Seq<char>, ServicePermissionView>,
    b: Map<Seq<char>, ServicePermissionView>,
) -> Map<Seq<char>, ServicePermissionView> {
    Map::new(
        |k: Seq<char>| a.contains_key(k) && b.contains_key(k),
        |k: Seq<char>|
            ServicePermissionView { access: narrower_access(a[k].access, b[k].access), scope: a[k].scope },
    )
}

/// `r` is the most restrictive combination of `a` and `b`: for paths and
/// hosts, the pairwise pattern intersections, strictly sorted so that none
/// occurs twice; for executables and variables, the names of `a` that `b`
/// also lists, in the order of `a`; for services, those both permit, with
/// the narrower access level and the scope of `a`.
pub open spec fn is_intersection(a: PermissionsView, b: PermissionsView, r: PermissionsView) -> bool {
    &&& sorted_strict(r.read)
    &&& forall|p: Seq<char>| #![trigger r.read.contains(p)]
        r.read.contains(p) <==> in_intersection(a.read, b.read, p)
    &&& sorted_strict(r.write)
    &&& forall|p: Seq<char>| #![trigger r.write.contains(p)]
        r.write.contains(p) <==> in_intersection(a.write, b.write, p)
    &&& sorted_strict(r.allow)
    &&& forall|p: Seq<char>| #![trigger r.allow.contains(p)]
        r.allow.contains(p) <==> in_intersection(a.allow, b.allow, p)
    &&& r.exec_names == keep_common(a.exec_names, b.exec_names)
    &&& r.env == keep_common(a.env, b.env)
    &&& r.services == intersect_services(a.services, b.services)
}

/// Adding an entry and then intersecting.
proof fn lemma_intersect_push(
    s: Seq<(String, ServicePermission)>,
    e: (String, ServicePermission),
    b: Map<Seq<char>, ServicePermissionView>,
)
    ensures
        intersect_services(entries_map(s.push(e)), b) == (if b.contains_key(e.0@) {
            intersect_services(entries_map(s), b).insert(
                e.0@,
                ServicePermissionView {
                    access: narrower_access(e.1@.access, b[e.0@].access),
                    scope: e.1@.scope,
                },
            )
        } else {
            intersect_services(entries_map(s), b)
        }),
{
    assert(s.push(e).drop_last() == s);
    if b.contains_key(e.0@) {
        assert(intersect_services(entries_map(s.push(e)), b) =~= intersect_services(entries_map(s), b).insert(
            e.0@,
            ServicePermissionView {
                access: narrower_access(e.1@.access, b[e.0@].access),
                scope: e.1@.scope,
            },
        ));
    } else {
        assert(intersect_services(entries_map(s.push(e)), b) =~= intersect_services(entries_map(s), b));
    }
}

/// The services both sets permit, each with the narrower access level.
pub fn combine_services(a: &StrMap<ServicePermission>, b: &StrMap<ServicePermission>) -> (r:
    StrMap<ServicePermission>)
    ensures
        r@ == intersect_services(a@, b@),
{
    let entries = a.entries();
    proof {
        a.lemma_view();
    }
    let mut out: StrMap<ServicePermission> = StrMap::new();
    let mut i: usize = 0;
    assert(entries@.subrange(0, 0) =~= Seq::<(String, ServicePermission)>::empty());
    assert(intersect_services(entries_map(Seq::<(String, ServicePermission)>::empty()), b@) =~= Map::<
        Seq<char>,
        ServicePermissionView,
    >::empty());
    while i < entries.len()
        invariant
            i <= entries@.len(),
            entries@ == a.spec_entries(),
            a@ == entries_map(entries@),
            out@ == intersect_services(entries_map(entries@.subrange(0, i as int)), b@),
        decreases entries@.len() - i,
    {
        proof {
            lemma_intersect_push(entries@.subrange(0, i as int), entries@[i as int], b@);
            assert(entries@.subrange(0, i + 1) == entries@.subrange(0, i as int).push(
                entries@[i as int],
            ));
        }
        match b.get(entries[i].0.as_str()) {
            Some(other) => {
                let access = narrower_access_exec(entries[i].1.access.as_str(), other.access.as_str());
                let perm = ServicePermission { access, scope: entries[i].1.scope.clone() };
                out.insert(entries[i].0.clone(), perm);
            },
            None => {},
        }
        i = i + 1;
    }
    assert(entries@.subrange(0, entries@.len() as int) == entries@);
    out
}

impl Permissions {
    /// A builder that starts from an empty permission set.
    pub fn builder() -> (b: PermissionsBuilder)
        ensures
            b@ == PermissionsBuilder::empty_view(),
    {
        PermissionsBuilder::new()
    }

    /// The most restrictive combination of two permission sets: for paths
    /// and hosts, the sorted, duplicate-free pairwise pattern
    /// intersections; for executables and variables, the names of `self`
    /// that `other` also lists; for services, those both permit, with the
    /// narrower access level and the scope of `self`.
    pub fn intersect(&self, other: &Permissions) -> (r: Permissions)
        ensures
            is_intersection(self@, other@, r@),
    {
        Permissions {
            fs: FsPermissions {
                read: intersect_patterns(self.fs.read.as_slice(), other.fs.read.as_slice()),
                write: intersect_patterns(self.fs.write.as_slice(), other.fs.write.as_slice()),
            },
            network: NetworkPermissions {
                allow: intersect_patterns(self.network.allow.as_slice(), other.network.allow.as_slice()),
            },
            exec_names: filter_common(&self.exec_names, &other.exec_names),
            env: filter_common(&self.env, &other.env),
            services: combine_services(&self.services, &other.services),
        }
    }
}

// ---------------------------------------------------------------------------
// Builder
// ---------------------------------------------------------------------------

/// Builder for a permission set.
#[derive(Debug)]
pub struct PermissionsBuilder {
    fs_read: Vec<String>,
    fs_write: Vec<String>,
    network_allow: Vec<String>,
    network_deny: bool,
    exec_names: Vec<String>,
    env: Vec<String>,
    services: StrMap<ServicePermission>,
}

/// What a builder holds so far.
pub struct PermissionsBuilderView {
    pub read: Seq<Seq<char>>,
    pub write: Seq<Seq<char>>,
    pub allow: Seq<Seq<char>>,
    pub deny_network: bool,
    pub exec_names: Seq<Seq<char>>,
    pub env: Seq<Seq<char>>,
    pub services: Map<Seq<char>, ServicePermissionView>,
}

impl View for PermissionsBuilder {
    type V = PermissionsBuilderView;

    closed spec fn view(&self) -> PermissionsBuilderView {
        PermissionsBuilderView {
            read: strs(self.fs_read@),
            write: strs(self.fs_write@),
            allow: strs(self.network_allow@),
            deny_network: self.network_deny,
            exec_names: strs(self.exec_names@),
            env: strs(self.env@),
            services: self.services@,
        }
    }
}

/// Appends the strings of `items` to `v`.
pub fn push_strs<const N: usize>(v: &mut Vec<String>, items: [&str; N])
    ensures
        strs(final(v)@) == strs(old(v)@) + slices(items@),
{
    let mut i: usize = 0;
    let ghost start = strs(v@);
    while i < N
        invariant
            i <= N,
            items@.len() == N,
            strs(v@) == start + slices(items@.subrange(0, i as int)),
        decreases N - i,
    {
        let ghost pre = strs(v@);
        v.push(items[i].to_owned());
        assert(strs(v@) == pre.push(items@[i as int]@));
        assert(slices(items@.subrange(0, i + 1)) == slices(items@.subrange(0, i as int)).push(
            items@[i as int]@,
        ));
        i = i + 1;
    }
    assert(items@.subrange(0, N as int) == items@);
}

/// One call on a permission builder, with what it adds.
pub enum BuilderStep {
    FsRead(Seq<Seq<char>>),
    FsWrite(Seq<Seq<char>>),
    NetworkAllow(Seq<Seq<char>>),
    NetworkDeny,
    ExecAllow(Seq<Seq<char>>),
    EnvAllow(Seq<Seq<char>>),
    Service(Seq<char>, ServicePermissionView),
}

/// What a builder holds after one call: the lists grow by what the call
/// adds, a service grant replaces an earlier one of the same name, and
/// denying the network empties the hosts and marks the network denied.
pub open spec fn builder_step(b: PermissionsBuilderView, step: BuilderStep) -> PermissionsBuilderView {
    match step {
        BuilderStep::FsRead(v) => PermissionsBuilderView { read: b.read + v, ..b },
        BuilderStep::FsWrite(v) => PermissionsBuilderView { write: b.write + v, ..b },
        BuilderStep::NetworkAllow(v) => PermissionsBuilderView { allow: b.allow + v, ..b },
        BuilderStep::NetworkDeny => PermissionsBuilderView { allow: Seq::empty(), deny_network: true, ..b },
        BuilderStep::ExecAllow(v) => PermissionsBuilderView { exec_names: b.exec_names + v, ..b },
        BuilderStep::EnvAllow(v) => PermissionsBuilderView { env: b.env + v, ..b },
        BuilderStep::Service(name, perm) => PermissionsBuilderView {
            services: b.services.insert(name, perm),
            ..b
        },
    }
}

/// What a builder holds after a chain of calls, in order.
pub open spec fn builder_steps(b: PermissionsBuilderView, steps: Seq<BuilderStep>) -> PermissionsBuilderView
    decreases steps.len(),
{
    if steps.len() == 0 {
        b
    } else {
        builder_step(builder_steps(b, steps.drop_last()), steps.last())
    }
}

/// The permission set a builder holding `b` builds: what was added, with no
/// host once the network was denied.
pub open spec fn built(b: PermissionsBuilderView) -> PermissionsView {
    PermissionsView {
        read: b.read,
        write: b.write,
        allow: if b.deny_network {
            Seq::empty()
        } else {
            b.allow
        },
        exec_names: b.exec_names,
        env: b.env,
        services: b.services,
    }
}

impl PermissionsBuilder {
    /// The view of a builder with nothing added.
    pub open spec fn empty_view() -> PermissionsBuilderView {
        PermissionsBuilderView {
            read: Seq::empty(),
            write: Seq::empty(),
            allow: Seq::empty(),
            deny_network: false,
            exec_names: Seq::empty(),
            env: Seq::empty(),
            services: Map::empty(),
        }
    }

    /// A builder with nothing added.
    pub fn new() -> (b: Self)
        ensures
            b@ == Self::empty_view(),
    {
        let b = PermissionsBuilder {
            fs_read: Vec::new(),
            fs_write: Vec::new(),
            network_allow: Vec::new(),
            network_deny: false,
            exec_names: Vec::new(),
            env: Vec::new(),
            services: StrMap::new(),
        };
        assert(b@.read =~= Seq::<Seq<char>>::empty());
        assert(b@.write =~= Seq::<Seq<char>>::empty());
        assert(b@.allow =~= Seq::<Seq<char>>::empty());
        assert(b@.exec_names =~= Seq::<Seq<char>>::empty());
        assert(b@.env =~= Seq::<Seq<char>>::empty());
        b
    }

    /// Adds readable path patterns.
    pub fn fs_read<const N: usize>(self, patterns: [&str; N]) -> (b: Self)
        ensures
            b@ == builder_step(self@, BuilderStep::FsRead(slices(patterns@))),
    {
        let mut b = self;
        push_strs(&mut b.fs_read, patterns);
        b
    }

    /// Adds writable path patterns.
    pub fn fs_write<const N: usize>(self, patterns: [&str; N]) -> (b: Self)
        ensures
            b@ == builder_step(self@, BuilderStep::FsWrite(slices(patterns@))),
    {
        let mut b = self;
        push_strs(&mut b.fs_write, patterns);
        b
    }

    /// Adds allowed `host:port` patterns.
    pub fn network_allow<const N: usize>(self, hosts: [&str; N]) -> (b: Self)
        ensures
            b@ == builder_step(self@, BuilderStep::NetworkAllow(slices(hosts@))),
    {
        let mut b = self;
        push_strs(&mut b.network_allow, hosts);
        b
    }

    /// Denies all network access: the built set allows no host, whatever
    /// is added before or after.
    pub fn network_deny(self) -> (b: Self)
        ensures
            b@ == builder_step(self@, BuilderStep::NetworkDeny),
    {
        let mut b = self;
        b.network_deny = true;
        b.network_allow.clear();
        assert(strs(b.network_allow@) =~= Seq::<Seq<char>>::empty());
        b
    }

    /// Adds allowed executables.
    pub fn exec_allow<const N: usize>(self, cmds: [&str; N]) -> (b: Self)
        ensures
            b@ == builder_step(self@, BuilderStep::ExecAllow(slices(cmds@))),
    {
        let mut b = self;
        push_strs(&mut b.exec_names, cmds);
        b
    }

    /// Adds allowed environment variables.
    pub fn env_allow<const N: usize>(self, vars: [&str; N]) -> (b: Self)
        ensures
            b@ == builder_step(self@, BuilderStep::EnvAllow(slices(vars@))),
    {
        let mut b = self;
        push_strs(&mut b.env, vars);
        b
    }

    /// Grants access to a service, replacing an earlier grant of the same name.
    pub fn service(self, name: &str, perm: ServicePermission) -> (b: Self)
        ensures
            b@ == builder_step(self@, BuilderStep::Service(name@, perm@)),
    {
        let mut b = self;
        b.services.insert(name.to_owned(), perm);
        b
    }

    /// The permission set; no host is allowed once the network was denied.
    pub fn build(self) -> (p: Permissions)
        ensures
            p@ == built(self@),
    {
        let allow = if self.network_deny {
            Vec::new()
        } else {
            self.network_allow
        };
        let p = Permissions {
            fs: FsPermissions { read: self.fs_read, write: self.fs_write },
            network: NetworkPermissions { allow },
            exec_names: self.exec_names,
            env: self.env,
            services: self.services,
        };
        assert(self.network_deny ==> p@.allow =~= Seq::<Seq<char>>::empty());
        p
    }
}

impl Default for PermissionsBuilder {
    fn default() -> (b: Self)
        ensures
            b@ == Self::empty_view(),
    {
        Self::new()
    }
}

} // verus!

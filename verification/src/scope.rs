//! The scope of a service permission: what the policy reads of the JSON
//! values a manifest attaches to a service.

use vstd::prelude::*;
use crate::strmap::{StrMap, ViewClone};

verus! {

/// An element of a scope list: a string, or any other JSON value, kept as
/// its debug rendering (`Null`, `Bool(true)`, `Number(1)`, ...).
#[derive(Debug)]
pub enum ScopeItem {
    Text(String),
    Other(String),
}

/// What a scope list element states.
pub enum ScopeItemView {
    Text(Seq<char>),
    Other(Seq<char>),
}

impl View for ScopeItem {
    type V = ScopeItemView;

    open spec fn view(&self) -> ScopeItemView {
        match self {
            ScopeItem::Text(s) => ScopeItemView::Text(s@),
            ScopeItem::Other(d) => ScopeItemView::Other(d@),
        }
    }
}

impl ViewClone for ScopeItem {
    fn view_clone(&self) -> (r: Self) {
        match self {
            ScopeItem::Text(s) => ScopeItem::Text(s.clone()),
            ScopeItem::Other(d) => ScopeItem::Other(d.clone()),
        }
    }
}

impl Clone for ScopeItem {
    fn clone(&self) -> (r: Self)
        ensures
            r@ == self@,
    {
        self.view_clone()
    }
}

/// The value of a scope key: a JSON array, or any other JSON value.
#[derive(Debug)]
pub enum ScopeEntry {
    List(Vec<ScopeItem>),
    Other,
}

/// The views of a list of scope items.
pub open spec fn items_view(items: Seq<ScopeItem>) -> Seq<ScopeItemView> {
    items.map_values(|i: ScopeItem| i@)
}

impl View for ScopeEntry {
    /// `Some(items)` for an array, `None` for anything else.
    type V = Option<Seq<ScopeItemView>>;

    open spec fn view(&self) -> Option<Seq<ScopeItemView>> {
        match self {
            ScopeEntry::List(v) => Some(items_view(v@)),
            ScopeEntry::Other => None,
        }
    }
}

impl ViewClone for ScopeEntry {
    fn view_clone(&self) -> (r: Self) {
        match self {
            ScopeEntry::List(v) => {
                let mut out: Vec<ScopeItem> = Vec::new();
                let mut i: usize = 0;
                while i < v.len()
                    invariant
                        i <= v@.len(),
                        items_view(out@) == items_view(v@.subrange(0, i as int)),
                    decreases v@.len() - i,
                {
                    let ghost pre = out@;
                    out.push(v[i].view_clone());
                    proof {
                        assert(v@.subrange(0, i + 1) == v@.subrange(0, i as int).push(v@[i as int]));
                        assert(items_view(out@) =~= items_view(pre).push(v@[i as int]@));
                        assert(items_view(v@.subrange(0, i + 1)) =~= items_view(
                            v@.subrange(0, i as int),
                        ).push(v@[i as int]@));
                    }
                    i = i + 1;
                }
                assert(v@.subrange(0, v@.len() as int) == v@);
                ScopeEntry::List(out)
            },
            ScopeEntry::Other => ScopeEntry::Other,
        }
    }
}

impl Clone for ScopeEntry {
    fn clone(&self) -> (r: Self)
        ensures
            r@ == self@,
    {
        self.view_clone()
    }
}

/// A scope: named entries.
pub type Scope = StrMap<ScopeEntry>;

/// The view of a scope.
pub type ScopeView = Map<Seq<char>, Option<Seq<ScopeItemView>>>;

/// Some string item of `items` is `"*"` or `name`.
pub open spec fn list_admits(items: Seq<ScopeItemView>, name: Seq<char>) -> bool {
    exists|i: int|
        0 <= i < items.len() && (items[i] == ScopeItemView::Text("*"@) || items[i] == ScopeItemView::Text(
            name,
        ))
}

/// Whether some string item of `items` is `"*"` or `name`.
pub fn list_admits_exec(items: &Vec<ScopeItem>, name: &str) -> (r: bool)
    ensures
        r == list_admits(items_view(items@), name@),
{
    let star = crate::text::chars_of("*");
    let target = crate::text::chars_of(name);
    let mut i: usize = 0;
    while i < items.len()
        invariant
            i <= items@.len(),
            star@ == "*"@,
            target@ == name@,
            forall|j: int|
                0 <= j < i ==> !(items_view(items@)[j] == ScopeItemView::Text("*"@) || items_view(
                    items@,
                )[j] == ScopeItemView::Text(name@)),
        decreases items@.len() - i,
    {
        match &items[i] {
            ScopeItem::Text(s) => {
                let sv = crate::text::chars_of(s.as_str());
                if crate::text::chars_eq(sv.as_slice(), star.as_slice())
                    || crate::text::chars_eq(sv.as_slice(), target.as_slice()) {
                    assert(items_view(items@)[i as int] == ScopeItemView::Text(s@));
                    return true;
                }
            },
            ScopeItem::Other(_) => {},
        }
        i = i + 1;
    }
    false
}

/// The debug rendering of a string: quoted and escaped, as `{:?}` prints it.
pub uninterp spec fn debug_quoted(s: Seq<char>) -> Seq<char>;

/// `{:?}` of a string slice.
#[verifier::external_body]
fn debug_of(s: &str) -> (r: String)
    ensures
        r@ == debug_quoted(s@),
{
    format!("{:?}", s)
}

/// The debug rendering of a scope list element as a JSON value.
pub open spec fn item_debug(item: ScopeItemView) -> Seq<char> {
    match item {
        ScopeItemView::Text(s) => "String("@ + debug_quoted(s) + ")"@,
        ScopeItemView::Other(d) => d,
    }
}

/// The elements' renderings separated by `, `.
pub open spec fn items_debug_body(items: Seq<ScopeItemView>) -> Seq<char>
    decreases items.len(),
{
    if items.len() == 0 {
        Seq::empty()
    } else if items.len() == 1 {
        item_debug(items[0])
    } else {
        items_debug_body(items.drop_last()) + ", "@ + item_debug(items.last())
    }
}

/// The debug rendering of a scope list: `[` and `]` around its elements.
pub open spec fn items_debug(items: Seq<ScopeItemView>) -> Seq<char> {
    "["@ + items_debug_body(items) + "]"@
}

/// The debug rendering of a scope list.
pub fn items_debug_exec(items: &Vec<ScopeItem>) -> (r: String)
    ensures
        r@ == items_debug(items_view(items@)),
{
    let mut body = String::new();
    let mut i: usize = 0;
    proof {
        reveal_strlit("");
        assert(items_view(items@).subrange(0, 0) =~= Seq::<ScopeItemView>::empty());
    }
    while i < items.len()
        invariant
            i <= items@.len(),
            body@ == items_debug_body(items_view(items@).subrange(0, i as int)),
        decreases items@.len() - i,
    {
        let ghost next = items_view(items@).subrange(0, i + 1);
        assert(next.drop_last() == items_view(items@).subrange(0, i as int));
        assert(next.last() == items@[i as int]@);
        let piece = match &items[i] {
            ScopeItem::Text(s) => {
                let mut p = "String(".to_owned();
                p.append(debug_of(s.as_str()).as_str());
                p.append(")");
                p
            },
            ScopeItem::Other(d) => d.clone(),
        };
        if i == 0 {
            body = piece;
        } else {
            body.append(", ");
            body.append(piece.as_str());
        }
        i = i + 1;
    }
    assert(items_view(items@).subrange(0, items@.len() as int) == items_view(items@));
    let mut r = "[".to_owned();
    r.append(body.as_str());
    r.append("]");
    r
}

} // verus!

//! The attribute merger: an emitted declaration carries the attribute that
//! exposes it across the boundary, and carries it once if it was written at
//! most once.

use crate::syntax::{attrs_view, text_equals, Attribute, AttributeView};
use vstd::prelude::*;

verus! {

/// The name of the attribute that marks a declaration as exposed across the
/// boundary.
pub open spec fn marker_name() -> Seq<char> {
    "wasm_bindgen"@
}

/// The marker as the merger adds it: `#[wasm_bindgen]`.
pub open spec fn marker_attribute() -> AttributeView {
    AttributeView { path: seq![marker_name()], tokens: Seq::empty() }
}

impl AttributeView {
    /// Whether the path of the attribute starts with the marker's name.
    pub open spec fn is_marker(self) -> bool {
        self.path.len() > 0 && self.path[0] == marker_name()
    }
}

/// Whether one of the attributes is the marker.
pub open spec fn carries_marker(attrs: Seq<AttributeView>) -> bool {
    exists|i: int| 0 <= i < attrs.len() && (#[trigger] attrs[i]).is_marker()
}

/// How many of the attributes are the marker.
pub open spec fn occurrences(attrs: Seq<AttributeView>) -> nat
    decreases attrs.len(),
{
    if attrs.len() == 0 {
        0
    } else {
        occurrences(attrs.drop_last()) + if attrs.last().is_marker() {
            1nat
        } else {
            0nat
        }
    }
}

/// The attributes of an emitted declaration: those that were written, in
/// their order, behind the marker where none of them is the marker.
pub open spec fn merged_attrs(attrs: Seq<AttributeView>) -> Seq<AttributeView> {
    if carries_marker(attrs) {
        attrs
    } else {
        seq![marker_attribute()] + attrs
    }
}

impl Attribute {
    /// Whether the path of the attribute starts with the marker's name.
    pub fn is_marker(&self) -> (b: bool)
        ensures
            b == self@.is_marker(),
    {
        self.path.len() > 0 && text_equals(&self.path[0], "wasm_bindgen")
    }

    /// The marker: `#[wasm_bindgen]`.
    pub fn marker() -> (attr: Attribute)
        ensures
            attr@ == marker_attribute(),
    {
        let mut path: Vec<String> = Vec::new();
        path.push(String::from_str("wasm_bindgen"));
        let attr = Attribute { path, tokens: String::new() };
        proof {
            assert(attr@.path == seq![marker_name()]);
        }
        attr
    }
}

/// Merges the marker into the attributes of a declaration.
pub fn parse_attrs(attrs: Vec<Attribute>) -> (merged: Vec<Attribute>)
    ensures
        attrs_view(merged@) == merged_attrs(attrs_view(attrs@)),
{
    let ghost views = attrs_view(attrs@);
    let mut found = false;
    let mut i: usize = 0;
    while i < attrs.len()
        invariant
            i <= attrs.len(),
            views == attrs_view(attrs@),
            found ==> carries_marker(views),
            !found ==> forall|j: int| 0 <= j < i ==> !(#[trigger] views[j]).is_marker(),
        decreases attrs.len() - i,
    {
        if attrs[i].is_marker() {
            assert(views[i as int].is_marker());
            found = true;
        }
        i += 1;
    }
    if found {
        attrs
    } else {
        let mut merged = attrs;
        merged.insert(0, Attribute::marker());
        proof {
            assert(attrs_view(merged@) == seq![marker_attribute()] + views);
        }
        merged
    }
}

/// The marker is among the attributes if and only if it occurs at least once.
pub proof fn carries_iff_occurs(attrs: Seq<AttributeView>)
    ensures
        carries_marker(attrs) <==> occurrences(attrs) > 0,
    decreases attrs.len(),
{
    if attrs.len() > 0 {
        let front = attrs.drop_last();
        carries_iff_occurs(front);
        if carries_marker(front) {
            let i = choose|i: int| 0 <= i < front.len() && (#[trigger] front[i]).is_marker();
            assert(attrs[i].is_marker());
        }
        if attrs.last().is_marker() {
            assert(attrs[attrs.len() - 1].is_marker());
        }
        if carries_marker(attrs) && !attrs.last().is_marker() {
            let i = choose|i: int| 0 <= i < attrs.len() && (#[trigger] attrs[i]).is_marker();
            assert(front[i].is_marker());
        }
    }
}

/// Putting one attribute in front adds one occurrence if it is the marker,
/// and none if it is not.
proof fn occurrences_behind(first: AttributeView, attrs: Seq<AttributeView>)
    ensures
        occurrences(seq![first] + attrs) == occurrences(attrs) + if first.is_marker() {
            1nat
        } else {
            0nat
        },
    decreases attrs.len(),
{
    let all = seq![first] + attrs;
    if attrs.len() == 0 {
        assert(all.drop_last() == Seq::<AttributeView>::empty());
        assert(occurrences(all.drop_last()) == 0);
    } else {
        occurrences_behind(first, attrs.drop_last());
        assert(all.drop_last() == seq![first] + attrs.drop_last());
        assert(all.last() == attrs.last());
    }
}

/// After the merge the marker occurs once where it was not written, and as
/// often as it was written where it was: the merger adds it at most once and
/// never where it stands already.
pub proof fn merged_marker_count(attrs: Seq<AttributeView>)
    ensures
        occurrences(merged_attrs(attrs)) == if occurrences(attrs) == 0 {
            1nat
        } else {
            occurrences(attrs)
        },
{
    carries_iff_occurs(attrs);
    if !carries_marker(attrs) {
        occurrences_behind(marker_attribute(), attrs);
    }
}

/// A declaration that carries the marker once keeps its attributes as they
/// are: the output holds exactly one occurrence of the marker, never two.
pub proof fn marked_once_stays_once(attrs: Seq<AttributeView>)
    requires
        occurrences(attrs) == 1,
    ensures
        merged_attrs(attrs) == attrs,
        occurrences(merged_attrs(attrs)) == 1,
{
    carries_iff_occurs(attrs);
}

/// Merging a second time changes nothing.
pub proof fn merge_is_idempotent(attrs: Seq<AttributeView>)
    ensures
        merged_attrs(merged_attrs(attrs)) == merged_attrs(attrs),
{
    let merged = merged_attrs(attrs);
    if !carries_marker(attrs) {
        assert(merged[0].is_marker());
    }
}

} // verus!

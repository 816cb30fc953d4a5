//! A JSON document model: the values that outbound protocol messages carry.

use vstd::prelude::*;

verus! {

/// A JSON value. Objects keep their members in insertion order.
#[derive(Debug)]
pub enum JsonValue {
    Null,
    Bool(bool),
    Str(String),
    Array(Vec<JsonValue>),
    Object(Vec<(String, JsonValue)>),
}

/// The mathematical content of a [`JsonValue`].
pub enum JsonView {
    Null,
    Bool(bool),
    Str(Seq<char>),
    Array(Seq<JsonView>),
    Object(Seq<(Seq<char>, JsonView)>),
}

impl JsonValue {
    pub open spec fn json_view(&self) -> JsonView
        decreases self,
    {
        match self {
            JsonValue::Null => JsonView::Null,
            JsonValue::Bool(b) => JsonView::Bool(*b),
            JsonValue::Str(s) => JsonView::Str(s@),
            JsonValue::Array(items) => JsonView::Array(
                Seq::new(items@.len(), |i: int| if 0 <= i < items@.len() { items@[i].json_view() } else { JsonView::Null }),
            ),
            JsonValue::Object(members) => JsonView::Object(
                Seq::new(members@.len(), |i: int| if 0 <= i < members@.len() { (members@[i].0@, members@[i].1.json_view()) } else { (Seq::empty(), JsonView::Null) }),
            ),
        }
    }
}

/// Views of object members, in order.
pub open spec fn members_view(members: Seq<(String, JsonValue)>) -> Seq<(Seq<char>, JsonView)> {
    Seq::new(members.len(), |i: int| (members[i].0@, members[i].1@))
}

/// Views of array items, in order.
pub open spec fn items_view(items: Seq<JsonValue>) -> Seq<JsonView> {
    Seq::new(items.len(), |i: int| items[i]@)
}

/// An object holding `members`.
pub fn json_object(members: Vec<(String, JsonValue)>) -> (v: JsonValue)
    ensures
        v@ == JsonView::Object(members_view(members@)),
{
    let v = JsonValue::Object(members);
    proof {
        assert(v@ == v.json_view());
        if let JsonView::Object(m) = v@ {
            assert(m =~= members_view(members@));
        }
    }
    v
}

/// An array holding `items`.
pub fn json_array(items: Vec<JsonValue>) -> (v: JsonValue)
    ensures
        v@ == JsonView::Array(items_view(items@)),
{
    let v = JsonValue::Array(items);
    proof {
        if let JsonView::Array(m) = v@ {
            assert(m =~= items_view(items@));
        }
    }
    v
}

/// A string value holding the characters of `s`.
pub fn json_str(s: &str) -> (v: JsonValue)
    ensures
        v@ == JsonView::Str(s@),
{
    JsonValue::Str(s.to_owned())
}

/// Appends the member `key: value` to `members`.
pub fn push_member(members: &mut Vec<(String, JsonValue)>, key: &str, value: JsonValue)
    ensures
        members_view(final(members)@) == members_view(old(members)@).push((key@, value@)),
{
    let ghost before = members@;
    members.push((key.to_owned(), value));
    proof {
        assert(members_view(members@) =~= members_view(before).push((key@, value@)));
    }
}

/// Appends `value` to `items`.
pub fn push_item(items: &mut Vec<JsonValue>, value: JsonValue)
    ensures
        items_view(final(items)@) == items_view(old(items)@).push(value@),
{
    let ghost before = items@;
    items.push(value);
    proof {
        assert(items_view(items@) =~= items_view(before).push(value@));
    }
}

impl View for JsonValue {
    type V = JsonView;

    open spec fn view(&self) -> JsonView {
        self.json_view()
    }
}

} // verus!

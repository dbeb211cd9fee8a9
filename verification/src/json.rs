//! JSON values, as far as a payload needs them.
//!
//! The library decides what a payload looks like as JSON; writing the value
//! out as text is left to the caller.

use vstd::prelude::*;

verus! {

/// A JSON value. Numbers are of the caller's type `N`; the members of an
/// object keep their order.
#[derive(Debug, PartialEq)]
pub enum Json<N> {
    Null,
    Text(String),
    Number(N),
    Array(Vec<Json<N>>),
    Object(Vec<(String, Json<N>)>),
}

/// What a [`Json`] value holds.
pub enum JsonView<N> {
    Null,
    Text(Seq<char>),
    Number(N),
    Array(Seq<JsonView<N>>),
    Object(Seq<(Seq<char>, JsonView<N>)>),
}

impl<N> View for Json<N> {
    type V = JsonView<N>;

    open spec fn view(&self) -> JsonView<N>
        decreases self,
    {
        match self {
            Json::Null => JsonView::Null,
            Json::Text(text) => JsonView::Text(text@),
            Json::Number(number) => JsonView::Number(*number),
            Json::Array(items) => JsonView::Array(
                Seq::new(
                    items@.len(),
                    |i: int|
                        if 0 <= i < items@.len() {
                            items@[i].view()
                        } else {
                            JsonView::Null
                        },
                ),
            ),
            Json::Object(members) => JsonView::Object(
                Seq::new(
                    members@.len(),
                    |i: int|
                        if 0 <= i < members@.len() {
                            (members@[i].0@, members@[i].1.view())
                        } else {
                            (Seq::empty(), JsonView::Null)
                        },
                ),
            ),
        }
    }
}

/// Whether `json` is an object in which exactly one member is called `name`,
/// and that member's value is `value`.
pub open spec fn has_member<N>(json: JsonView<N>, name: Seq<char>, value: JsonView<N>) -> bool {
    match json {
        JsonView::Object(members) => exists|i: int|
            {
                &&& 0 <= i < members.len()
                &&& #[trigger] members[i] == (name, value)
                &&& forall|j: int| 0 <= j < members.len() && (#[trigger] members[j]).0 == name ==> j == i
            },
        _ => false,
    }
}

} // verus!

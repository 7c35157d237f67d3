//! The JSON-like tree that capsules carry as payload and that render
//! contexts are made of: null, booleans, integers, strings, arrays and
//! objects (ordered lists of key/value pairs).

use vstd::prelude::*;

verus! {

/// The mathematical shape of a [`JsonValue`]: the same tree over `Seq`,
/// `int` and `Seq<char>`.
#[verifier::ext_equal]
pub enum JsonView {
    Null,
    Bool(bool),
    Int(int),
    Str(Seq<char>),
    Arr(Seq<JsonView>),
    Obj(Seq<(Seq<char>, JsonView)>),
}

/// A JSON-like structured value.  Object keys keep their insertion order;
/// nothing here deduplicates them.
#[derive(Debug, PartialEq, Eq)]
pub enum JsonValue {
    Null,
    Bool(bool),
    Int(i64),
    Str(String),
    Arr(Vec<JsonValue>),
    Obj(Vec<(String, JsonValue)>),
}

/// The views of the elements of an array, in order.
pub open spec fn views_of_values(elems: Seq<JsonValue>) -> Seq<JsonView>
    decreases elems,
{
    if elems.len() == 0 {
        Seq::empty()
    } else {
        views_of_values(elems.drop_last()).push(elems.last()@)
    }
}

/// The views of the entries of an object, in order.
pub open spec fn views_of_entries(entries: Seq<(String, JsonValue)>) -> Seq<(Seq<char>, JsonView)>
    decreases entries,
{
    if entries.len() == 0 {
        Seq::empty()
    } else {
        views_of_entries(entries.drop_last()).push((entries.last().0@, entries.last().1@))
    }
}

impl View for JsonValue {
    type V = JsonView;

    open spec fn view(&self) -> JsonView
        decreases self,
    {
        match self {
            JsonValue::Null => JsonView::Null,
            JsonValue::Bool(b) => JsonView::Bool(*b),
            JsonValue::Int(i) => JsonView::Int(*i as int),
            JsonValue::Str(s) => JsonView::Str(s@),
            JsonValue::Arr(elems) => JsonView::Arr(views_of_values(elems@)),
            JsonValue::Obj(entries) => JsonView::Obj(views_of_entries(entries@)),
        }
    }
}

/// The element views are exactly the pointwise views.
pub proof fn lemma_views_of_values(elems: Seq<JsonValue>)
    ensures
        views_of_values(elems).len() == elems.len(),
        forall|i: int| 0 <= i < elems.len() ==> views_of_values(elems)[i] == elems[i]@,
    decreases elems.len(),
{
    if elems.len() == 0 {
        assert(views_of_values(elems) =~= Seq::empty());
    } else {
        lemma_views_of_values(elems.drop_last());
        assert(views_of_values(elems) == views_of_values(elems.drop_last()).push(
            elems.last()@,
        ));
    }
}

/// The entry views are exactly the pointwise views of the pairs.
pub proof fn lemma_views_of_entries(entries: Seq<(String, JsonValue)>)
    ensures
        views_of_entries(entries).len() == entries.len(),
        forall|i: int| 0 <= i < entries.len() ==> views_of_entries(entries)[i] == (
        entries[i].0@,
        entries[i].1@,
        ),
    decreases entries.len(),
{
    if entries.len() == 0 {
        assert(views_of_entries(entries) =~= Seq::empty());
    } else {
        lemma_views_of_entries(entries.drop_last());
        assert(views_of_entries(entries) == views_of_entries(entries.drop_last()).push((
            entries.last().0@,
            entries.last().1@,
        )));
    }
}

impl JsonValue {
    /// The empty object, the payload every freshly built capsule starts with.
    pub fn empty_object() -> (r: JsonValue)
        ensures
            r@ == JsonView::Obj(Seq::<(Seq<char>, JsonView)>::empty()),
    {
        JsonValue::Obj(Vec::new())
    }
}

/// The value a key is bound to in an object's entry list: the last binding
/// wins, absent keys give `None`.
pub open spec fn obj_lookup(entries: Seq<(Seq<char>, JsonView)>, key: Seq<char>) -> Option<
    JsonView,
>
    decreases entries.len(),
{
    if entries.len() == 0 {
        None
    } else if entries.last().0 == key {
        Some(entries.last().1)
    } else {
        obj_lookup(entries.drop_last(), key)
    }
}

impl Clone for JsonValue {
    /// A deep copy whose view is the view of the original.
    fn clone(&self) -> (r: Self)
        ensures
            r@ == self@,
        decreases self,
    {
        match self {
            JsonValue::Null => JsonValue::Null,
            JsonValue::Bool(b) => JsonValue::Bool(*b),
            JsonValue::Int(i) => JsonValue::Int(*i),
            JsonValue::Str(s) => JsonValue::Str(s.clone()),
            JsonValue::Arr(elems) => {
                let copies = clone_values(elems);
                let r = JsonValue::Arr(copies);
                proof {
                    lemma_views_of_values(copies@);
                    lemma_views_of_values(elems@);
                    assert(views_of_values(copies@) =~= views_of_values(elems@));
                }
                r
            },
            JsonValue::Obj(entries) => {
                let copies = clone_entries(entries);
                let r = JsonValue::Obj(copies);
                proof {
                    lemma_views_of_entries(copies@);
                    lemma_views_of_entries(entries@);
                    assert(views_of_entries(copies@) =~= views_of_entries(entries@));
                }
                r
            },
        }
    }
}

/// Deep copies of an array's elements, pointwise equal in view.
fn clone_values(elems: &Vec<JsonValue>) -> (copies: Vec<JsonValue>)
    ensures
        copies@.len() == elems@.len(),
        forall|j: int| 0 <= j < elems@.len() ==> copies@[j]@ == elems@[j]@,
    decreases elems@,
{
    let mut copies: Vec<JsonValue> = Vec::new();
    let mut i: usize = 0;
    while i < elems.len()
        invariant
            i <= elems.len(),
            copies@.len() == i as int,
            forall|j: int| 0 <= j < i as int ==> copies@[j]@ == elems@[j]@,
        decreases elems@.len() - i,
    {
        let copy = elems[i].clone();
        copies.push(copy);
        i = i + 1;
    }
    copies
}

/// Deep copies of an object's entries, pointwise equal in view.
fn clone_entries(entries: &Vec<(String, JsonValue)>) -> (copies: Vec<(String, JsonValue)>)
    ensures
        copies@.len() == entries@.len(),
        forall|j: int| 0 <= j < entries@.len() ==> copies@[j].0@ == entries@[j].0@
            && copies@[j].1@ == entries@[j].1@,
    decreases entries@,
{
    let mut copies: Vec<(String, JsonValue)> = Vec::new();
    let mut i: usize = 0;
    while i < entries.len()
        invariant
            i <= entries.len(),
            copies@.len() == i as int,
            forall|j: int| 0 <= j < i as int ==> copies@[j].0@ == entries@[j].0@
                && copies@[j].1@ == entries@[j].1@,
        decreases entries@.len() - i,
    {
        let key = entries[i].0.clone();
        let value = entries[i].1.clone();
        copies.push((key, value));
        i = i + 1;
    }
    copies
}

} // verus!

//! The structured value type carried by query arguments: a tagged union of
//! scalars, objects (ordered key/value entry lists) and lists, together with
//! its mathematical view.

use vstd::prelude::*;

verus! {

broadcast use vstd::std_specs::vec::group_vec_axioms;

/// A structured argument value: a scalar, an object (an ordered sequence of
/// named entries, duplicates permitted) or a list.
#[derive(Debug, PartialEq, Eq)]
pub enum Value {
    Text(String),
    Int(i64),
    Boolean(bool),
    Null,
    Object(Vec<(String, Value)>),
    List(Vec<Value>),
}

/// The mathematical abstraction of a [`Value`]: strings become character
/// sequences, vectors become sequences, and integers become unbounded.
#[verifier::ext_equal]
pub enum ValueView {
    Text(Seq<char>),
    Int(int),
    Boolean(bool),
    Null,
    Object(Seq<(Seq<char>, ValueView)>),
    List(Seq<ValueView>),
}

/// The view of a [`Value`].
pub open spec fn value_view(v: Value) -> ValueView
    decreases v,
{
    match v {
        Value::Text(s) => ValueView::Text(s@),
        Value::Int(i) => ValueView::Int(i as int),
        Value::Boolean(b) => ValueView::Boolean(b),
        Value::Null => ValueView::Null,
        Value::Object(entries) => ValueView::Object(
            // The range guard keeps the recursion inside the vector, which
            // bounds it for the termination check.
            Seq::new(
                entries@.len(),
                |i: int|
                    if 0 <= i < entries@.len() {
                        (entries@[i].0@, value_view(entries@[i].1))
                    } else {
                        (Seq::empty(), ValueView::Null)
                    },
            ),
        ),
        Value::List(items) => ValueView::List(
            Seq::new(
                items@.len(),
                |i: int|
                    if 0 <= i < items@.len() {
                        value_view(items@[i])
                    } else {
                        ValueView::Null
                    },
            ),
        ),
    }
}

impl View for Value {
    type V = ValueView;

    #[verifier::inline]
    open spec fn view(&self) -> ValueView {
        value_view(*self)
    }
}

/// The view of a sequence of (field name, value) pairs, entry by entry.
pub open spec fn pair_seq_view(pairs: Seq<(String, Value)>) -> Seq<(Seq<char>, ValueView)> {
    Seq::new(pairs.len(), |i: int| (pairs[i].0@, value_view(pairs[i].1)))
}

/// The view of a sequence of values, element by element.
pub open spec fn value_seq_view(items: Seq<Value>) -> Seq<ValueView> {
    Seq::new(items.len(), |i: int| value_view(items[i]))
}

} // verus!

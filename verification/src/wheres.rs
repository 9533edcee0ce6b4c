//! Where serialization: a typed filter parameter serializes to one
//! (field name, structured value) pair, and cursor-style use rewrites the
//! implicit-equality shorthand into its explicit object form.

use vstd::prelude::*;

use crate::merge::FieldPair;
use crate::value::{value_view, Value, ValueView};

verus! {

/// One serialized filter fragment: a field name together with the structured
/// value of its constraint.
#[derive(Debug, PartialEq, Eq)]
pub struct SerializedWhereInput {
    pub field: String,
    pub value: Value,
}

impl View for SerializedWhereInput {
    type V = FieldPair;

    #[verifier::inline]
    open spec fn view(&self) -> FieldPair {
        (self.field@, value_view(self.value))
    }
}

/// A typed filter (or cursor) parameter that serializes to one
/// (field name, value) pair.  Every capability set provides this conversion
/// for its filter and cursor parameter kinds.
pub trait WhereInput: Sized {
    /// The serialized pair, at the specification level.
    spec fn serialize_spec(self) -> FieldPair;

    /// Serializes the parameter; never fails.
    fn serialize(self) -> (r: SerializedWhereInput)
        ensures
            r@ == self.serialize_spec(),
    ;
}

/// The equality-shorthand rewrite: a value that is not already an explicit
/// operator object stands for an equality test and is wrapped as
/// `{ "equals": value }`; an object is left untouched.
pub open spec fn transform_equals_spec(p: FieldPair) -> FieldPair {
    match p.1 {
        ValueView::Object(_) => p,
        v => (p.0, ValueView::Object(seq![("equals"@, v)])),
    }
}

/// The rewrite is idempotent: its result is always an explicit operator
/// object, and an explicit object passes through unchanged, so a second
/// application returns its argument as it stands.
pub proof fn lemma_transform_equals_idempotent(p: FieldPair)
    ensures
        transform_equals_spec(transform_equals_spec(p)) == transform_equals_spec(p),
{
}

/// The rewrite touches nothing but a shorthand scalar: it keeps every
/// explicit object exactly as serialized, and wraps any other value `v` as
/// the single-entry object `{ "equals": v }` under the same field name.
pub proof fn lemma_transform_equals_cases(p: FieldPair)
    ensures
        p.1 is Object ==> transform_equals_spec(p) == p,
        !(p.1 is Object) ==> transform_equals_spec(p) == (
            p.0,
            ValueView::Object(seq![("equals"@, p.1)]),
        ),
{
}

impl SerializedWhereInput {
    /// Rewrites the implicit-equality shorthand into its explicit form, for
    /// merging into a cursor argument object.
    pub fn transform_equals(self) -> (r: (String, Value))
        ensures
            (r.0@, value_view(r.1)) == transform_equals_spec(self@),
    {
        let SerializedWhereInput { field, value } = self;
        match value {
            Value::Object(entries) => (field, Value::Object(entries)),
            v => {
                let wrapped = Value::Object(vec![(String::from_str("equals"), v)]);
                proof {
                    assert(value_view(wrapped)->Object_0 =~= seq![
                        ("equals"@, value_view(self.value)),
                    ]);
                }
                (field, wrapped)
            },
        }
    }
}

} // verus!

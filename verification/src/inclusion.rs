//! The include projection: a typed query whose children are the entity's
//! full default scalar field list plus the requested relation selections —
//! relations are additive over scalars, not a replacement.

use core::marker::PhantomData;
use vstd::prelude::*;

use crate::selection::{sel_seq_view, Operation, Selection, SelectionView};

verus! {

/// A projection capable of producing the child-selection list of an included
/// field shape: the entity's default scalars followed by the requested
/// relations.  Implemented per projection by the entity's capability layer.
pub trait IncludeType: Sized {
    type Data;

    type ModelData;

    /// The entity's default scalar selections, at the specification level.
    spec fn scalar_selections_spec() -> Seq<SelectionView>;

    /// The requested relation selections, at the specification level.
    spec fn relation_selections_spec(self) -> Seq<SelectionView>;

    /// Produces the default scalars followed by the requested relations.
    fn to_selections(self) -> (r: Vec<Selection>)
        ensures
            sel_seq_view(r@) == Self::scalar_selections_spec() + self.relation_selections_spec(),
    ;
}

/// A typed result-producing query for an included field shape: the built
/// operation together with the executing context it will be handed to.
pub struct Include<'a, Ctx, T> {
    pub client: &'a Ctx,
    pub operation: Operation,
    pub data: PhantomData<T>,
}

impl<'a, Ctx, T> Include<'a, Ctx, T> {
    /// Wraps a built operation for execution against the given context.
    pub fn new(client: &'a Ctx, operation: Operation) -> (r: Self)
        ensures
            r.client == client,
            r.operation == operation,
    {
        Include { client, operation, data: PhantomData }
    }
}

/// An included child-selection set is the union of the entity's default
/// scalars and the requested relations: every default scalar selection and
/// every requested relation selection is among the children that
/// `IncludeType::to_selections` produces.
pub proof fn lemma_include_children_superset(
    scalars: Seq<SelectionView>,
    relations: Seq<SelectionView>,
)
    ensures
        forall|s: SelectionView| scalars.contains(s) ==> #[trigger] (scalars + relations).contains(s),
        forall|s: SelectionView| relations.contains(s) ==> #[trigger] (scalars + relations).contains(
            s,
        ),
{
    assert forall|s: SelectionView| scalars.contains(s) implies #[trigger] (scalars
        + relations).contains(s) by {
        let w = choose|i: int| 0 <= i < scalars.len() && scalars[i] == s;
        assert((scalars + relations)[w] == s);
    }
    assert forall|s: SelectionView| relations.contains(s) implies #[trigger] (scalars
        + relations).contains(s) by {
        let w = choose|i: int| 0 <= i < relations.len() && relations[i] == s;
        assert((scalars + relations)[scalars.len() + w] == s);
    }
}

} // verus!

//! The select projection: a typed query whose children are exactly the
//! requested projection fields, with no defaults added.

use core::marker::PhantomData;
use vstd::prelude::*;

use crate::selection::{sel_seq_view, Operation, Selection, SelectionView};

verus! {

/// A projection capable of producing the child-selection list of a selected
/// field shape.  Implemented per projection by the entity's capability layer.
pub trait SelectType: Sized {
    type Data;

    type ModelData;

    /// The projected child selections, at the specification level.
    spec fn to_selections_spec(self) -> Seq<SelectionView>;

    /// Produces exactly the projected child selections.
    fn to_selections(self) -> (r: Vec<Selection>)
        ensures
            sel_seq_view(r@) == self.to_selections_spec(),
    ;
}

/// A typed result-producing query for a selected field shape: the built
/// operation together with the executing context it will be handed to.
pub struct Select<'a, Ctx, T> {
    pub client: &'a Ctx,
    pub operation: Operation,
    pub data: PhantomData<T>,
}

impl<'a, Ctx, T> Select<'a, Ctx, T> {
    /// Wraps a built operation for execution against the given context.
    pub fn new(client: &'a Ctx, operation: Operation) -> (r: Self)
        ensures
            r.client == client,
            r.operation == operation,
    {
        Select { client, operation, data: PhantomData }
    }
}

} // verus!

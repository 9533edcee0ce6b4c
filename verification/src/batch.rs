//! The batch abstraction: any buildable query exposes the operation it would
//! submit and a conversion from the engine's raw result back to its typed
//! result, so that heterogeneous queries can share one batching pathway.

use vstd::prelude::*;

use crate::selection::{Operation, SelectionView};

verus! {

/// A buildable query that can join a batch: it converts to the generic
/// operation `execute` would submit, and converts the engine's raw result
/// for that operation back into its own typed result.
pub trait BatchQuery: Sized {
    type RawType;

    type ReturnType;

    /// The view of the operation this query submits, at the specification
    /// level.
    spec fn graphql_spec(self) -> SelectionView;

    /// Converts the query into the operation it would submit.
    fn graphql(self) -> (r: Operation)
        ensures
            r@ == self.graphql_spec(),
    ;

    /// The typed result for a raw engine result, at the specification level.
    spec fn convert_spec(raw: Self::RawType) -> Self::ReturnType;

    /// Converts the engine's raw result into this query's typed result.
    fn convert(raw: Self::RawType) -> (r: Self::ReturnType)
        ensures
            r == Self::convert_spec(raw),
    ;
}

} // verus!

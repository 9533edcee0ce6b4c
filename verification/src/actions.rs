//! The capability contract: the per-entity bundle of parameter kinds (filter,
//! relation inclusion, ordering, cursor) and conversion capabilities that the
//! generic builders rely on, plus the action taxonomy that names a query node.

use vstd::prelude::*;

use crate::merge::FieldPair;
use crate::selection::{sel_seq_view, selection_view, Selection, SelectionView};
use crate::value::{pair_seq_view, value_view, Value};
use crate::wheres::WhereInput;

verus! {

/// A relation-inclusion descriptor, convertible to one child selection.
pub trait WithParam: Sized {
    /// The produced child selection, at the specification level.
    spec fn to_selection_spec(self) -> SelectionView;

    /// Converts the descriptor into its child selection.
    fn to_selection(self) -> (r: Selection)
        ensures
            selection_view(r) == self.to_selection_spec(),
    ;
}

/// A sort precedence entry, convertible to one (field name, direction) pair.
pub trait OrderByParam: Sized {
    /// The produced pair, at the specification level.
    spec fn to_pair_spec(self) -> FieldPair;

    /// Converts the entry into its (field name, direction value) pair.
    fn to_pair(self) -> (r: (String, Value))
        ensures
            (r.0@, value_view(r.1)) == self.to_pair_spec(),
    ;
}

/// A seek-position fragment, convertible into the entity's filter kind and
/// serialized from there.
pub trait CursorParam<W>: Sized {
    /// The corresponding filter parameter, at the specification level.
    spec fn to_where_spec(self) -> W;

    /// Converts the fragment into the entity's filter kind.
    fn to_where(self) -> (r: W)
        ensures
            r == self.to_where_spec(),
    ;
}

/// The capability set of one queryable entity: its four parameter kinds, its
/// result-row shape, its name, and its default scalar field list.
pub trait ModelActions {
    type Where: WhereInput;

    type With: WithParam;

    type OrderBy: OrderByParam;

    type Cursor: CursorParam<Self::Where>;

    type Data;

    /// The entity's name, at the specification level.
    spec fn model_name_spec() -> Seq<char>;

    /// The entity's name, as it appears in a query node's name.
    fn model_name() -> (r: String)
        ensures
            r@ == Self::model_name_spec(),
    ;

    /// The entity's default scalar field list, at the specification level.
    spec fn scalar_selections_spec() -> Seq<SelectionView>;

    /// The entity's default scalar field list.
    fn scalar_selections() -> (r: Vec<Selection>)
        ensures
            sel_seq_view(r@) == Self::scalar_selections_spec(),
    ;
}

/// The read queries an action can stand for.
#[derive(Debug, Clone, Copy)]
pub enum ModelQueryType {
    FindMany,
}

impl ModelQueryType {
    /// The query kind's name, at the specification level.
    pub open spec fn name_spec(self) -> Seq<char> {
        match self {
            ModelQueryType::FindMany => "findMany"@,
        }
    }

    /// The query kind's name, the first half of a query node's name.
    pub fn name(self) -> (r: &'static str)
        ensures
            r@ == self.name_spec(),
    {
        match self {
            ModelQueryType::FindMany => "findMany",
        }
    }
}

/// The kind of action a builder performs.
#[derive(Debug, Clone, Copy)]
pub enum ModelActionType {
    Query(ModelQueryType),
}

impl ModelActionType {
    /// The action's name, at the specification level.
    pub open spec fn name_spec(self) -> Seq<char> {
        match self {
            ModelActionType::Query(q) => q.name_spec(),
        }
    }

    /// The action's name.
    pub fn name(self) -> (r: &'static str)
        ensures
            r@ == self.name_spec(),
    {
        match self {
            ModelActionType::Query(q) => q.name(),
        }
    }
}

/// An action over one entity: pairs a capability set with the action kind
/// and builds the action's selection node.
pub trait ModelAction {
    type Actions: ModelActions;

    /// The action's kind, at the specification level.
    spec fn action_type_spec() -> ModelActionType;

    /// The action's kind.
    fn action_type() -> (r: ModelActionType)
        ensures
            r == Self::action_type_spec(),
    ;

    /// Builds this action's selection node: its name is the action name
    /// followed by the entity name, with the given arguments and children.
    fn base_selection(arguments: Vec<(String, Value)>, nested_selections: Vec<Selection>) -> (r:
        Selection)
        ensures
            selection_view(r) == (SelectionView {
                name: Self::action_type_spec().name_spec() + Self::Actions::model_name_spec(),
                arguments: pair_seq_view(arguments@),
                nested_selections: sel_seq_view(nested_selections@),
            }),
    {
        let name = String::from_str(Self::action_type().name()).concat(
            Self::Actions::model_name().as_str(),
        );
        Selection::new(name, arguments, nested_selections)
    }
}

} // verus!

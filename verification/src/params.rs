//! Field-level parameters: dynamic per-field filter, ordering, cursor and
//! relation parameters, together with a small capability set over them for a
//! "User" entity with scalar fields `id` and `name`.  Generated per-entity
//! capability sets follow the same shape.

use vstd::prelude::*;

use crate::actions::{CursorParam, ModelActions, OrderByParam, WithParam};
use crate::inclusion::IncludeType;
use crate::merge::FieldPair;
use crate::select::SelectType;
use crate::selection::{scalar_field, sel_seq_view, selection_view, Selection, SelectionView};
use crate::value::{value_view, Value};
use crate::wheres::{SerializedWhereInput, WhereInput};

verus! {

/// A filter fragment that serializes to exactly the (field name, value) pair
/// it holds.
pub struct FieldWhere {
    pub field: String,
    pub value: Value,
}

impl WhereInput for FieldWhere {
    open spec fn serialize_spec(self) -> FieldPair {
        (self.field@, value_view(self.value))
    }

    fn serialize(self) -> (r: SerializedWhereInput) {
        SerializedWhereInput { field: self.field, value: self.value }
    }
}

/// An ordering entry: a field name and its direction value.
pub struct FieldOrderBy {
    pub field: String,
    pub direction: Value,
}

impl OrderByParam for FieldOrderBy {
    open spec fn to_pair_spec(self) -> FieldPair {
        (self.field@, value_view(self.direction))
    }

    fn to_pair(self) -> (r: (String, Value)) {
        (self.field, self.direction)
    }
}

/// A seek-position fragment: the per-field constraint it stands for.
pub struct FieldCursor {
    pub field: String,
    pub value: Value,
}

impl CursorParam<FieldWhere> for FieldCursor {
    open spec fn to_where_spec(self) -> FieldWhere {
        FieldWhere { field: self.field, value: self.value }
    }

    fn to_where(self) -> (r: FieldWhere) {
        FieldWhere { field: self.field, value: self.value }
    }
}

/// A relation inclusion that already carries its child selection.
pub struct SelectionWith {
    pub selection: Selection,
}

impl WithParam for SelectionWith {
    open spec fn to_selection_spec(self) -> SelectionView {
        selection_view(self.selection)
    }

    fn to_selection(self) -> (r: Selection) {
        self.selection
    }
}

/// The capability set of the example "User" entity: field-level parameters
/// and the default scalar fields `id` and `name`.
pub struct UserActions;

/// The view of one bare scalar field selection.
pub open spec fn scalar_field_view(name: Seq<char>) -> SelectionView {
    SelectionView { name: name, arguments: Seq::empty(), nested_selections: Seq::empty() }
}

impl ModelActions for UserActions {
    type Where = FieldWhere;

    type With = SelectionWith;

    type OrderBy = FieldOrderBy;

    type Cursor = FieldCursor;

    type Data = Value;

    open spec fn model_name_spec() -> Seq<char> {
        "User"@
    }

    fn model_name() -> (r: String) {
        String::from_str("User")
    }

    open spec fn scalar_selections_spec() -> Seq<SelectionView> {
        seq![scalar_field_view("id"@), scalar_field_view("name"@)]
    }

    fn scalar_selections() -> (r: Vec<Selection>) {
        let id = scalar_field(String::from_str("id"));
        let name = scalar_field(String::from_str("name"));
        let mut out: Vec<Selection> = Vec::new();
        out.push(id);
        out.push(name);
        proof {
            assert(out@[0] == id && out@[1] == name);
            assert(selection_view(id) == scalar_field_view("id"@));
            assert(selection_view(name) == scalar_field_view("name"@));
            assert(sel_seq_view(out@) =~= Self::scalar_selections_spec());
        }
        out
    }
}

/// A projection over the example entity that selects exactly the selections
/// it carries.
pub struct UserSelect {
    pub selections: Vec<Selection>,
}

impl SelectType for UserSelect {
    type Data = Value;

    type ModelData = Value;

    open spec fn to_selections_spec(self) -> Seq<SelectionView> {
        sel_seq_view(self.selections@)
    }

    fn to_selections(self) -> (r: Vec<Selection>) {
        self.selections
    }
}

/// A projection over the example entity that includes the default scalars
/// plus the relation selections it carries.
pub struct UserInclude {
    pub relations: Vec<Selection>,
}

impl IncludeType for UserInclude {
    type Data = Value;

    type ModelData = Value;

    open spec fn scalar_selections_spec() -> Seq<SelectionView> {
        UserActions::scalar_selections_spec()
    }

    open spec fn relation_selections_spec(self) -> Seq<SelectionView> {
        sel_seq_view(self.relations@)
    }

    fn to_selections(self) -> (r: Vec<Selection>) {
        let mut out = UserActions::scalar_selections();
        let ghost scalars = out@;
        let mut relations = self.relations;
        let ghost rels = relations@;
        out.append(&mut relations);
        proof {
            assert forall|i: int| 0 <= i < out@.len() implies sel_seq_view(out@)[i] == (
            Self::scalar_selections_spec() + self.relation_selections_spec())[i] by {
                if i < scalars.len() {
                    assert(out@[i] == scalars[i]);
                    assert(sel_seq_view(scalars)[i] == Self::scalar_selections_spec()[i]);
                } else {
                    assert(out@[i] == rels[i - scalars.len()]);
                    assert(sel_seq_view(rels)[i - scalars.len()] == sel_seq_view(self.relations@)[i
                        - scalars.len()]);
                }
            }
            assert(sel_seq_view(out@) =~= Self::scalar_selections_spec()
                + self.relation_selections_spec());
        }
        out
    }
}

} // verus!

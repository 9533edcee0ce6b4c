//! The read-many query: a fluent builder accumulates filter, ordering,
//! cursor, pagination and relation-inclusion parameters, and a terminal call
//! folds them into one selection node — one argument per non-empty group, in
//! the fixed order where, orderBy, cursor, skip, take, with the requested
//! child selections attached.

use vstd::prelude::*;

use crate::actions::{
    CursorParam, ModelAction, ModelActionType, ModelActions, ModelQueryType, OrderByParam,
    WithParam,
};
use crate::batch::BatchQuery;
use crate::inclusion::{Include, IncludeType};
use crate::merge::{keys_of, merge_entry, merge_fields, merged_fields, FieldPair};
use crate::select::{Select, SelectType};
use crate::selection::{sel_seq_view, selection_view, Operation, Selection, SelectionView};
use crate::value::{pair_seq_view, value_seq_view, value_view, Value, ValueView};
use crate::wheres::{transform_equals_spec, WhereInput};

verus! {

broadcast use vstd::std_specs::vec::group_vec_axioms;

/// The serialized views of a filter-parameter sequence.
pub open spec fn wheres_view<W: WhereInput>(params: Seq<W>) -> Seq<FieldPair> {
    Seq::new(params.len(), |i: int| params[i].serialize_spec())
}

/// The child-selection views of a relation-inclusion-parameter sequence.
pub open spec fn withs_view<I: WithParam>(params: Seq<I>) -> Seq<SelectionView> {
    Seq::new(params.len(), |i: int| params[i].to_selection_spec())
}

/// The (field, direction) pair views of an ordering-parameter sequence.
pub open spec fn order_bys_view<O: OrderByParam>(params: Seq<O>) -> Seq<FieldPair> {
    Seq::new(params.len(), |i: int| params[i].to_pair_spec())
}

/// The serialized views of a cursor-parameter sequence: each fragment is
/// taken to the entity's filter kind and serialized from there.
pub open spec fn cursors_view<W: WhereInput, C: CursorParam<W>>(params: Seq<C>) -> Seq<FieldPair> {
    Seq::new(params.len(), |i: int| params[i].to_where_spec().serialize_spec())
}

/// Each ordering pair wrapped as a single-entry object: one object per
/// precedence level, primary sort first.
pub open spec fn wrap_order_bys(pairs: Seq<FieldPair>) -> Seq<ValueView> {
    Seq::new(pairs.len(), |i: int| ValueView::Object(seq![pairs[i]]))
}

/// The equality-shorthand rewrite applied to every cursor pair.
pub open spec fn transform_all(pairs: Seq<FieldPair>) -> Seq<FieldPair> {
    Seq::new(pairs.len(), |i: int| transform_equals_spec(pairs[i]))
}

/// The folded argument list of a read-many query: one argument per non-empty
/// parameter group, in the fixed order where, orderBy, cursor, skip, take.
/// The where pairs are merged into one object; the cursor pairs are rewritten
/// to explicit equality form and collected into one object; each ordering
/// pair becomes its own single-entry object in one list.
pub open spec fn many_arguments(
    wheres: Seq<FieldPair>,
    order_bys: Seq<FieldPair>,
    cursors: Seq<FieldPair>,
    skip: Option<i64>,
    take: Option<i64>,
) -> Seq<FieldPair> {
    (if wheres.len() > 0 {
        seq![("where"@, ValueView::Object(merged_fields(wheres)))]
    } else {
        Seq::<FieldPair>::empty()
    }) + (if order_bys.len() > 0 {
        seq![("orderBy"@, ValueView::List(wrap_order_bys(order_bys)))]
    } else {
        Seq::<FieldPair>::empty()
    }) + (if cursors.len() > 0 {
        seq![("cursor"@, ValueView::Object(transform_all(cursors)))]
    } else {
        Seq::<FieldPair>::empty()
    }) + (match skip {
        Option::Some(s) => seq![("skip"@, ValueView::Int(s as int))],
        Option::None => Seq::<FieldPair>::empty(),
    }) + (match take {
        Option::Some(t) => seq![("take"@, ValueView::Int(t as int))],
        Option::None => Seq::<FieldPair>::empty(),
    })
}

/// Stepping a consuming loop: when what is left of `all` is its tail from
/// `k`, the head of that tail is `all[k]` and removing it leaves the tail
/// from `k + 1`.
proof fn lemma_skip_step<T>(all: Seq<T>, rest: Seq<T>, k: int)
    requires
        0 <= k,
        k + rest.len() == all.len(),
        rest == all.skip(k),
        rest.len() > 0,
    ensures
        rest[0] == all[k],
        rest.remove(0) == all.skip(k + 1),
{
    assert(rest[0] == all[k]);
    assert forall|i: int| 0 <= i < rest.len() - 1 implies rest.remove(0)[i] == all.skip(k + 1)[i] by {
        assert(rest.remove(0)[i] == rest[i + 1]);
        assert(rest[i + 1] == all[k + 1 + i]);
        assert(all.skip(k + 1)[i] == all[k + 1 + i]);
    }
    assert(rest.remove(0) =~= all.skip(k + 1));
}

/// Serializes each filter parameter into its (field name, value) pair.
fn serialize_wheres<W: WhereInput>(params: Vec<W>) -> (r: Vec<(String, Value)>)
    ensures
        pair_seq_view(r@) == wheres_view(params@),
{
    let ghost all = params@;
    let mut params = params;
    let mut out: Vec<(String, Value)> = Vec::new();
    proof {
        assert(params@ =~= all.skip(0));
        assert(pair_seq_view(out@) =~= wheres_view(all).take(0));
    }
    while params.len() > 0
        invariant
            params@.len() <= all.len(),
            params@ == all.skip(all.len() - params@.len()),
            pair_seq_view(out@) == wheres_view(all).take(all.len() - params@.len()),
        decreases params@.len(),
    {
        let ghost k = all.len() - params@.len();
        proof {
            lemma_skip_step(all, params@, k);
        }
        let w = params.remove(0);
        let s = w.serialize();
        let ghost out0 = out@;
        out.push((s.field, s.value));
        proof {
            assert(wheres_view(all)[k] == all[k].serialize_spec());
            assert(wheres_view(all).len() == all.len());
            assert(wheres_view(all).take(k + 1).len() == k + 1);
            assert(pair_seq_view(out0) == wheres_view(all).take(k));
            assert(pair_seq_view(out0).len() == out0.len());
            assert(wheres_view(all).take(k).len() == k);
            assert(out0.len() == k);
            assert(out@ == out0.push((s.field, s.value)));
            assert(out@.len() == k + 1);
            assert forall|i: int| 0 <= i < out@.len() implies pair_seq_view(out@)[i] == wheres_view(
                all,
            ).take(k + 1)[i] by {
                assert(wheres_view(all).take(k + 1)[i] == wheres_view(all)[i]);
                if i < k {
                    assert(out@[i] == out0[i]);
                    assert(pair_seq_view(out0)[i] == wheres_view(all).take(k)[i]);
                    assert(wheres_view(all).take(k)[i] == wheres_view(all)[i]);
                } else {
                    assert(out@[i] == (s.field, s.value));
                }
            }
            assert(pair_seq_view(out@) =~= wheres_view(all).take(k + 1));
        }
    }
    proof {
        assert(wheres_view(all).take(all.len() as int) =~= wheres_view(all));
    }
    out
}

/// Converts each ordering parameter to its pair and wraps it as a
/// single-entry object, keeping the caller's precedence order.
fn wrap_order_by_params<O: OrderByParam>(params: Vec<O>) -> (r: Vec<Value>)
    ensures
        value_seq_view(r@) == wrap_order_bys(order_bys_view(params@)),
{
    let ghost all = params@;
    let mut params = params;
    let mut out: Vec<Value> = Vec::new();
    proof {
        assert(params@ =~= all.skip(0));
        assert(value_seq_view(out@) =~= wrap_order_bys(order_bys_view(all)).take(0));
    }
    while params.len() > 0
        invariant
            params@.len() <= all.len(),
            params@ == all.skip(all.len() - params@.len()),
            value_seq_view(out@) == wrap_order_bys(order_bys_view(all)).take(
                all.len() - params@.len(),
            ),
        decreases params@.len(),
    {
        let ghost k = all.len() - params@.len();
        proof {
            lemma_skip_step(all, params@, k);
        }
        let o = params.remove(0);
        let (field, direction) = o.to_pair();
        let wrapped = Value::Object(vec![(field, direction)]);
        let ghost out0 = out@;
        out.push(wrapped);
        proof {
            let target = wrap_order_bys(order_bys_view(all));
            assert(order_bys_view(all)[k] == all[k].to_pair_spec());
            assert(target[k] == ValueView::Object(seq![order_bys_view(all)[k]]));
            assert(target.len() == all.len());
            assert(value_seq_view(out0) == target.take(k));
            assert(value_seq_view(out0).len() == out0.len());
            assert(target.take(k).len() == k);
            assert(out0.len() == k);
            assert(out@ == out0.push(wrapped));
            assert(value_view(wrapped)->Object_0 =~= seq![all[k].to_pair_spec()]);
            assert(value_view(wrapped) == target[k]);
            assert forall|i: int| 0 <= i < out@.len() implies value_seq_view(out@)[i] == target.take(
                k + 1,
            )[i] by {
                assert(target.take(k + 1)[i] == target[i]);
                if i < k {
                    assert(out@[i] == out0[i]);
                    assert(value_seq_view(out0)[i] == target.take(k)[i]);
                    assert(target.take(k)[i] == target[i]);
                } else {
                    assert(out@[i] == wrapped);
                }
            }
            assert(value_seq_view(out@) =~= target.take(k + 1));
        }
    }
    proof {
        assert(wrap_order_bys(order_bys_view(all)).take(all.len() as int) =~= wrap_order_bys(
            order_bys_view(all),
        ));
    }
    out
}

/// Serializes each cursor parameter through the entity's filter kind and
/// rewrites the equality shorthand into its explicit form.
fn serialize_cursors<W: WhereInput, C: CursorParam<W>>(params: Vec<C>) -> (r: Vec<(String, Value)>)
    ensures
        pair_seq_view(r@) == transform_all(cursors_view(params@)),
{
    let ghost all = params@;
    let mut params = params;
    let mut out: Vec<(String, Value)> = Vec::new();
    proof {
        assert(params@ =~= all.skip(0));
        assert(pair_seq_view(out@) =~= transform_all(cursors_view(all)).take(0));
    }
    while params.len() > 0
        invariant
            params@.len() <= all.len(),
            params@ == all.skip(all.len() - params@.len()),
            pair_seq_view(out@) == transform_all(cursors_view(all)).take(all.len() - params@.len()),
        decreases params@.len(),
    {
        let ghost k = all.len() - params@.len();
        proof {
            lemma_skip_step(all, params@, k);
        }
        let c = params.remove(0);
        let serialized = c.to_where().serialize();
        let (field, value) = serialized.transform_equals();
        let ghost out0 = out@;
        out.push((field, value));
        proof {
            let target = transform_all(cursors_view(all));
            assert(cursors_view(all)[k] == all[k].to_where_spec().serialize_spec());
            assert(target[k] == transform_equals_spec(cursors_view(all)[k]));
            assert(target.len() == all.len());
            assert(pair_seq_view(out0) == target.take(k));
            assert(pair_seq_view(out0).len() == out0.len());
            assert(target.take(k).len() == k);
            assert(out0.len() == k);
            assert(out@ == out0.push((field, value)));
            assert((field@, value_view(value)) == target[k]);
            assert forall|i: int| 0 <= i < out@.len() implies pair_seq_view(out@)[i] == target.take(
                k + 1,
            )[i] by {
                assert(target.take(k + 1)[i] == target[i]);
                if i < k {
                    assert(out@[i] == out0[i]);
                    assert(pair_seq_view(out0)[i] == target.take(k)[i]);
                    assert(target.take(k)[i] == target[i]);
                } else {
                    assert(out@[i] == (field, value));
                }
            }
            assert(pair_seq_view(out@) =~= target.take(k + 1));
        }
    }
    proof {
        assert(transform_all(cursors_view(all)).take(all.len() as int) =~= transform_all(
            cursors_view(all),
        ));
    }
    out
}

/// Converts each relation-inclusion parameter into its child selection.
fn with_selections<I: WithParam>(params: Vec<I>) -> (r: Vec<Selection>)
    ensures
        sel_seq_view(r@) == withs_view(params@),
{
    let ghost all = params@;
    let mut params = params;
    let mut out: Vec<Selection> = Vec::new();
    proof {
        assert(params@ =~= all.skip(0));
        assert(sel_seq_view(out@) =~= withs_view(all).take(0));
    }
    while params.len() > 0
        invariant
            params@.len() <= all.len(),
            params@ == all.skip(all.len() - params@.len()),
            sel_seq_view(out@) == withs_view(all).take(all.len() - params@.len()),
        decreases params@.len(),
    {
        let ghost k = all.len() - params@.len();
        proof {
            lemma_skip_step(all, params@, k);
        }
        let w = params.remove(0);
        let sel = w.to_selection();
        let ghost out0 = out@;
        out.push(sel);
        proof {
            let target = withs_view(all);
            assert(target[k] == all[k].to_selection_spec());
            assert(target.len() == all.len());
            assert(sel_seq_view(out0) == target.take(k));
            assert(sel_seq_view(out0).len() == out0.len());
            assert(target.take(k).len() == k);
            assert(out0.len() == k);
            assert(out@ == out0.push(sel));
            assert forall|i: int| 0 <= i < out@.len() implies sel_seq_view(out@)[i] == target.take(
                k + 1,
            )[i] by {
                assert(target.take(k + 1)[i] == target[i]);
                if i < k {
                    assert(out@[i] == out0[i]);
                    assert(sel_seq_view(out0)[i] == target.take(k)[i]);
                    assert(target.take(k)[i] == target[i]);
                } else {
                    assert(out@[i] == sel);
                }
            }
            assert(sel_seq_view(out@) =~= target.take(k + 1));
        }
    }
    proof {
        assert(withs_view(all).take(all.len() as int) =~= withs_view(all));
    }
    out
}

/// Folds the five parameter groups into the argument list, emitting each
/// non-empty group in the fixed order where, orderBy, cursor, skip, take.
fn build_many_arguments<Actions: ModelActions>(
    where_params: Vec<Actions::Where>,
    order_by_params: Vec<Actions::OrderBy>,
    cursor_params: Vec<Actions::Cursor>,
    skip: Option<i64>,
    take: Option<i64>,
) -> (r: Vec<(String, Value)>)
    ensures
        pair_seq_view(r@) == many_arguments(
            wheres_view(where_params@),
            order_bys_view(order_by_params@),
            cursors_view(cursor_params@),
            skip,
            take,
        ),
{
    let ghost wheres = wheres_view(where_params@);
    let ghost order_bys = order_bys_view(order_by_params@);
    let ghost cursors = cursors_view(cursor_params@);
    let mut arguments: Vec<(String, Value)> = Vec::new();
    let ghost where_part = if wheres.len() > 0 {
        seq![("where"@, ValueView::Object(merged_fields(wheres)))]
    } else {
        Seq::<FieldPair>::empty()
    };
    let ghost order_by_part = if order_bys.len() > 0 {
        seq![("orderBy"@, ValueView::List(wrap_order_bys(order_bys)))]
    } else {
        Seq::<FieldPair>::empty()
    };
    let ghost cursor_part = if cursors.len() > 0 {
        seq![("cursor"@, ValueView::Object(transform_all(cursors)))]
    } else {
        Seq::<FieldPair>::empty()
    };
    let ghost skip_part = match skip {
        Option::Some(s) => seq![("skip"@, ValueView::Int(s as int))],
        Option::None => Seq::<FieldPair>::empty(),
    };
    let ghost take_part = match take {
        Option::Some(t) => seq![("take"@, ValueView::Int(t as int))],
        Option::None => Seq::<FieldPair>::empty(),
    };

    if where_params.len() > 0 {
        let pairs = serialize_wheres(where_params);
        let merged = merge_fields(pairs);
        let object = Value::Object(merged);
        proof {
            assert(value_view(object)->Object_0 =~= merged_fields(wheres));
        }
        arguments.push((String::from_str("where"), object));
    }
    proof {
        assert(pair_seq_view(arguments@) =~= where_part);
    }

    if order_by_params.len() > 0 {
        let items = wrap_order_by_params(order_by_params);
        let list = Value::List(items);
        proof {
            assert(value_view(list)->List_0 =~= wrap_order_bys(order_bys));
        }
        arguments.push((String::from_str("orderBy"), list));
    }
    proof {
        assert(pair_seq_view(arguments@) =~= where_part + order_by_part);
    }

    if cursor_params.len() > 0 {
        let pairs = serialize_cursors(cursor_params);
        let object = Value::Object(pairs);
        proof {
            assert(value_view(object)->Object_0 =~= transform_all(cursors));
        }
        arguments.push((String::from_str("cursor"), object));
    }
    proof {
        assert(pair_seq_view(arguments@) =~= where_part + order_by_part + cursor_part);
    }

    if let Option::Some(s) = skip {
        arguments.push((String::from_str("skip"), Value::Int(s)));
    }
    proof {
        assert(pair_seq_view(arguments@) =~= where_part + order_by_part + cursor_part + skip_part);
    }

    if let Option::Some(t) = take {
        arguments.push((String::from_str("take"), Value::Int(t)));
    }
    proof {
        assert(pair_seq_view(arguments@) =~= where_part + order_by_part + cursor_part + skip_part
            + take_part);
    }
    arguments
}

/// The read-many query builder for one entity: accumulates filter, relation,
/// ordering, cursor and pagination parameters against an executing context,
/// until a terminal call folds them into one operation.
pub struct FindMany<'a, Ctx, Actions: ModelActions> {
    pub client: &'a Ctx,
    pub where_params: Vec<Actions::Where>,
    pub with_params: Vec<Actions::With>,
    pub order_by_params: Vec<Actions::OrderBy>,
    pub cursor_params: Vec<Actions::Cursor>,
    pub skip: Option<i64>,
    pub take: Option<i64>,
}

impl<'a, Ctx, Actions: ModelActions> ModelAction for FindMany<'a, Ctx, Actions> {
    type Actions = Actions;

    open spec fn action_type_spec() -> ModelActionType {
        ModelActionType::Query(ModelQueryType::FindMany)
    }

    fn action_type() -> ModelActionType {
        ModelActionType::Query(ModelQueryType::FindMany)
    }
}

impl<'a, Ctx, Actions: ModelActions> FindMany<'a, Ctx, Actions> {
    /// The selection node a terminal call builds from this builder's state:
    /// the default scalar children followed by the accumulated relation
    /// inclusions, under the folded argument list.
    pub open spec fn operation_spec(self) -> SelectionView {
        SelectionView {
            name: Self::action_type_spec().name_spec() + Actions::model_name_spec(),
            arguments: many_arguments(
                wheres_view(self.where_params@),
                order_bys_view(self.order_by_params@),
                cursors_view::<Actions::Where, Actions::Cursor>(self.cursor_params@),
                self.skip,
                self.take,
            ),
            nested_selections: Actions::scalar_selections_spec() + withs_view(self.with_params@),
        }
    }

    /// Opens a builder over the context with an initial conjunctive filter
    /// set and every other parameter group empty.
    pub fn new(client: &'a Ctx, where_params: Vec<Actions::Where>) -> (r: Self)
        ensures
            r.client == client,
            r.where_params == where_params,
            r.with_params@ == Seq::<Actions::With>::empty(),
            r.order_by_params@ == Seq::<Actions::OrderBy>::empty(),
            r.cursor_params@ == Seq::<Actions::Cursor>::empty(),
            r.skip is None,
            r.take is None,
    {
        Self {
            client,
            where_params,
            with_params: Vec::new(),
            order_by_params: Vec::new(),
            cursor_params: Vec::new(),
            skip: None,
            take: None,
        }
    }

    /// Appends one relation-inclusion parameter.
    pub fn with(self, param: Actions::With) -> (r: Self)
        ensures
            r.client == self.client,
            r.where_params == self.where_params,
            r.with_params@ == self.with_params@.push(param),
            r.order_by_params == self.order_by_params,
            r.cursor_params == self.cursor_params,
            r.skip == self.skip,
            r.take == self.take,
    {
        let mut this = self;
        this.with_params.push(param);
        this
    }

    /// Appends one ordering parameter; earlier entries take sort precedence.
    pub fn order_by(self, param: Actions::OrderBy) -> (r: Self)
        ensures
            r.client == self.client,
            r.where_params == self.where_params,
            r.with_params == self.with_params,
            r.order_by_params@ == self.order_by_params@.push(param),
            r.cursor_params == self.cursor_params,
            r.skip == self.skip,
            r.take == self.take,
    {
        let mut this = self;
        this.order_by_params.push(param);
        this
    }

    /// Appends one cursor parameter to the conjunctive seek position.
    pub fn cursor(self, param: Actions::Cursor) -> (r: Self)
        ensures
            r.client == self.client,
            r.where_params == self.where_params,
            r.with_params == self.with_params,
            r.order_by_params == self.order_by_params,
            r.cursor_params@ == self.cursor_params@.push(param),
            r.skip == self.skip,
            r.take == self.take,
    {
        let mut this = self;
        this.cursor_params.push(param);
        this
    }

    /// Sets how many rows the pagination window passes over.
    pub fn skip(self, skip: i64) -> (r: Self)
        ensures
            r.client == self.client,
            r.where_params == self.where_params,
            r.with_params == self.with_params,
            r.order_by_params == self.order_by_params,
            r.cursor_params == self.cursor_params,
            r.skip == Some(skip),
            r.take == self.take,
    {
        let mut this = self;
        this.skip = Some(skip);
        this
    }

    /// Sets how many rows the pagination window keeps.
    pub fn take(self, take: i64) -> (r: Self)
        ensures
            r.client == self.client,
            r.where_params == self.where_params,
            r.with_params == self.with_params,
            r.order_by_params == self.order_by_params,
            r.cursor_params == self.cursor_params,
            r.skip == self.skip,
            r.take == Some(take),
    {
        let mut this = self;
        this.take = Some(take);
        this
    }

    /// Folds the five parameter groups and the given children into this
    /// action's selection node.
    fn to_selection(
        where_params: Vec<Actions::Where>,
        order_by_params: Vec<Actions::OrderBy>,
        cursor_params: Vec<Actions::Cursor>,
        skip: Option<i64>,
        take: Option<i64>,
        nested_selections: Vec<Selection>,
    ) -> (r: Selection)
        ensures
            selection_view(r) == (SelectionView {
                name: Self::action_type_spec().name_spec() + Actions::model_name_spec(),
                arguments: many_arguments(
                    wheres_view(where_params@),
                    order_bys_view(order_by_params@),
                    cursors_view::<Actions::Where, Actions::Cursor>(cursor_params@),
                    skip,
                    take,
                ),
                nested_selections: sel_seq_view(nested_selections@),
            }),
    {
        let arguments = build_many_arguments::<Actions>(
            where_params,
            order_by_params,
            cursor_params,
            skip,
            take,
        );
        Self::base_selection(arguments, nested_selections)
    }

    /// Projects to exactly the selected field shape: the children are the
    /// projection's selections, with no defaults added, and the accumulated
    /// relation inclusions are not consulted.
    pub fn select<S: SelectType<ModelData = Actions::Data>>(self, select: S) -> (r: Select<
        'a,
        Ctx,
        Vec<S::Data>,
    >)
        ensures
            r.client == self.client,
            r.operation@ == (SelectionView {
                name: Self::action_type_spec().name_spec() + Actions::model_name_spec(),
                arguments: many_arguments(
                    wheres_view(self.where_params@),
                    order_bys_view(self.order_by_params@),
                    cursors_view::<Actions::Where, Actions::Cursor>(self.cursor_params@),
                    self.skip,
                    self.take,
                ),
                nested_selections: select.to_selections_spec(),
            }),
    {
        let Self { client, where_params, with_params: _, order_by_params, cursor_params, skip, take } =
            self;
        let children = select.to_selections();
        Select::new(
            client,
            Operation::Read(
                Self::to_selection(where_params, order_by_params, cursor_params, skip, take, children),
            ),
        )
    }

    /// Projects to the included field shape: the children are the entity's
    /// full default scalar field list plus the projection's relation
    /// selections, and the accumulated relation inclusions are not consulted.
    pub fn including<I: IncludeType<ModelData = Actions::Data>>(self, projection: I) -> (r: Include<
        'a,
        Ctx,
        Vec<I::Data>,
    >)
        ensures
            r.client == self.client,
            r.operation@ == (SelectionView {
                name: Self::action_type_spec().name_spec() + Actions::model_name_spec(),
                arguments: many_arguments(
                    wheres_view(self.where_params@),
                    order_bys_view(self.order_by_params@),
                    cursors_view::<Actions::Where, Actions::Cursor>(self.cursor_params@),
                    self.skip,
                    self.take,
                ),
                nested_selections: I::scalar_selections_spec()
                    + projection.relation_selections_spec(),
            }),
    {
        let Self { client, where_params, with_params: _, order_by_params, cursor_params, skip, take } =
            self;
        let children = projection.to_selections();
        Include::new(
            client,
            Operation::Read(
                Self::to_selection(where_params, order_by_params, cursor_params, skip, take, children),
            ),
        )
    }

    /// Builds the operation `execute` submits — the default scalar children
    /// followed by the accumulated relation inclusions — and hands it back
    /// with the executing context.
    pub fn exec_operation(self) -> (r: (Operation, &'a Ctx))
        ensures
            r.0@ == self.operation_spec(),
            r.1 == self.client,
    {
        let Self { client, where_params, with_params, order_by_params, cursor_params, skip, take } =
            self;
        let mut children = Actions::scalar_selections();
        let ghost scalars = children@;
        let mut relations = with_selections(with_params);
        let ghost rels = relations@;
        children.append(&mut relations);
        proof {
            assert forall|i: int| 0 <= i < children@.len() implies sel_seq_view(children@)[i] == (
            Actions::scalar_selections_spec() + withs_view(self.with_params@))[i] by {
                if i < scalars.len() {
                    assert(children@[i] == scalars[i]);
                    assert(sel_seq_view(scalars)[i] == Actions::scalar_selections_spec()[i]);
                } else {
                    assert(children@[i] == rels[i - scalars.len()]);
                    assert(sel_seq_view(rels)[i - scalars.len()] == withs_view(self.with_params@)[i
                        - scalars.len()]);
                }
            }
            assert(sel_seq_view(children@) =~= Actions::scalar_selections_spec() + withs_view(
                self.with_params@,
            ));
        }
        (
            Operation::Read(
                Self::to_selection(where_params, order_by_params, cursor_params, skip, take, children),
            ),
            client,
        )
    }
}

impl<'a, Ctx, Actions: ModelActions> BatchQuery for FindMany<'a, Ctx, Actions> {
    type RawType = Vec<Actions::Data>;

    type ReturnType = Vec<Actions::Data>;

    open spec fn graphql_spec(self) -> SelectionView {
        self.operation_spec()
    }

    fn graphql(self) -> (r: Operation) {
        let (op, _) = self.exec_operation();
        op
    }

    open spec fn convert_spec(raw: Vec<Actions::Data>) -> Vec<Actions::Data> {
        raw
    }

    fn convert(raw: Vec<Actions::Data>) -> (r: Vec<Actions::Data>) {
        raw
    }
}

/// The nested argument builder: the same parameter surface as [`FindMany`]
/// minus the executing context; it renders to a bare (argument list, nested
/// selection list) pair for embedding under a relation field instead of a
/// standalone node.
pub struct ManyArgs<Actions: ModelActions> {
    pub where_params: Vec<Actions::Where>,
    pub with_params: Vec<Actions::With>,
    pub order_by_params: Vec<Actions::OrderBy>,
    pub cursor_params: Vec<Actions::Cursor>,
    pub skip: Option<i64>,
    pub take: Option<i64>,
}

impl<Actions: ModelActions> ManyArgs<Actions> {
    /// Opens a nested builder with an initial conjunctive filter set and
    /// every other parameter group empty.
    pub fn new(where_params: Vec<Actions::Where>) -> (r: Self)
        ensures
            r.where_params == where_params,
            r.with_params@ == Seq::<Actions::With>::empty(),
            r.order_by_params@ == Seq::<Actions::OrderBy>::empty(),
            r.cursor_params@ == Seq::<Actions::Cursor>::empty(),
            r.skip is None,
            r.take is None,
    {
        Self {
            where_params,
            with_params: Vec::new(),
            order_by_params: Vec::new(),
            cursor_params: Vec::new(),
            skip: None,
            take: None,
        }
    }

    /// Appends one relation-inclusion parameter.
    pub fn with(self, param: Actions::With) -> (r: Self)
        ensures
            r.where_params == self.where_params,
            r.with_params@ == self.with_params@.push(param),
            r.order_by_params == self.order_by_params,
            r.cursor_params == self.cursor_params,
            r.skip == self.skip,
            r.take == self.take,
    {
        let mut this = self;
        this.with_params.push(param);
        this
    }

    /// Appends one ordering parameter; earlier entries take sort precedence.
    pub fn order_by(self, param: Actions::OrderBy) -> (r: Self)
        ensures
            r.where_params == self.where_params,
            r.with_params == self.with_params,
            r.order_by_params@ == self.order_by_params@.push(param),
            r.cursor_params == self.cursor_params,
            r.skip == self.skip,
            r.take == self.take,
    {
        let mut this = self;
        this.order_by_params.push(param);
        this
    }

    /// Appends one cursor parameter to the conjunctive seek position.
    pub fn cursor(self, param: Actions::Cursor) -> (r: Self)
        ensures
            r.where_params == self.where_params,
            r.with_params == self.with_params,
            r.order_by_params == self.order_by_params,
            r.cursor_params@ == self.cursor_params@.push(param),
            r.skip == self.skip,
            r.take == self.take,
    {
        let mut this = self;
        this.cursor_params.push(param);
        this
    }

    /// Sets how many rows the pagination window passes over.
    pub fn skip(self, skip: i64) -> (r: Self)
        ensures
            r.where_params == self.where_params,
            r.with_params == self.with_params,
            r.order_by_params == self.order_by_params,
            r.cursor_params == self.cursor_params,
            r.skip == Some(skip),
            r.take == self.take,
    {
        let mut this = self;
        this.skip = Some(skip);
        this
    }

    /// Sets how many rows the pagination window keeps.
    pub fn take(self, take: i64) -> (r: Self)
        ensures
            r.where_params == self.where_params,
            r.with_params == self.with_params,
            r.order_by_params == self.order_by_params,
            r.cursor_params == self.cursor_params,
            r.skip == self.skip,
            r.take == Some(take),
    {
        let mut this = self;
        this.take = Some(take);
        this
    }

    /// Renders the accumulated parameters as a bare argument list — merge,
    /// rewrite and emission order exactly as for a standalone query — plus
    /// the relation inclusions as nested selections.
    pub fn to_graphql(self) -> (r: (Vec<(String, Value)>, Vec<Selection>))
        ensures
            pair_seq_view(r.0@) == many_arguments(
                wheres_view(self.where_params@),
                order_bys_view(self.order_by_params@),
                cursors_view::<Actions::Where, Actions::Cursor>(self.cursor_params@),
                self.skip,
                self.take,
            ),
            sel_seq_view(r.1@) == withs_view(self.with_params@),
    {
        let Self { where_params, with_params, order_by_params, cursor_params, skip, take } = self;
        let nested_selections = with_selections(with_params);
        let arguments = build_many_arguments::<Actions>(
            where_params,
            order_by_params,
            cursor_params,
            skip,
            take,
        );
        (arguments, nested_selections)
    }
}

/// The argument names a folded argument list carries, one per present group,
/// in the fixed order where, orderBy, cursor, skip, take.
pub open spec fn present_argument_names(
    has_where: bool,
    has_order_by: bool,
    has_cursor: bool,
    has_skip: bool,
    has_take: bool,
) -> Seq<Seq<char>> {
    (if has_where {
        seq!["where"@]
    } else {
        Seq::<Seq<char>>::empty()
    }) + (if has_order_by {
        seq!["orderBy"@]
    } else {
        Seq::<Seq<char>>::empty()
    }) + (if has_cursor {
        seq!["cursor"@]
    } else {
        Seq::<Seq<char>>::empty()
    }) + (if has_skip {
        seq!["skip"@]
    } else {
        Seq::<Seq<char>>::empty()
    }) + (if has_take {
        seq!["take"@]
    } else {
        Seq::<Seq<char>>::empty()
    })
}

/// The argument emission order is fixed: whatever order the parameter groups
/// were accumulated in, the folded argument list names them where, orderBy,
/// cursor, skip, take, each present exactly when its group is non-empty.
pub proof fn lemma_argument_order(
    wheres: Seq<FieldPair>,
    order_bys: Seq<FieldPair>,
    cursors: Seq<FieldPair>,
    skip: Option<i64>,
    take: Option<i64>,
)
    ensures
        keys_of(many_arguments(wheres, order_bys, cursors, skip, take)) == present_argument_names(
            wheres.len() > 0,
            order_bys.len() > 0,
            cursors.len() > 0,
            skip is Some,
            take is Some,
        ),
{
    assert(keys_of(many_arguments(wheres, order_bys, cursors, skip, take))
        =~= present_argument_names(
        wheres.len() > 0,
        order_bys.len() > 0,
        cursors.len() > 0,
        skip is Some,
        take is Some,
    ));
}

/// The equality-shorthand rewrite applies only on the cursor path: one bare
/// scalar pair serialized for `where` reaches the where object exactly as
/// serialized, while the same pair serialized for `cursor` reaches the cursor
/// object wrapped as `{ "equals": value }`.
pub proof fn lemma_equality_shorthand_scope(p: FieldPair)
    requires
        !(p.1 is Object),
    ensures
        many_arguments(seq![p], Seq::<FieldPair>::empty(), Seq::<FieldPair>::empty(), None, None)
            == seq![("where"@, ValueView::Object(seq![p]))],
        many_arguments(Seq::<FieldPair>::empty(), Seq::<FieldPair>::empty(), seq![p], None, None)
            == seq![
            ("cursor"@, ValueView::Object(seq![(p.0, ValueView::Object(seq![("equals"@, p.1)]))])),
        ],
{
    assert(seq![p].drop_last() =~= Seq::<FieldPair>::empty());
    assert(seq![p].len() == 1 && seq![p].last() == p);
    assert(merged_fields(Seq::<FieldPair>::empty()) == Seq::<FieldPair>::empty());
    assert(merged_fields(seq![p]) == merge_entry(Seq::<FieldPair>::empty(), p.0, p.1));
    assert(merged_fields(seq![p]) =~= seq![p]) by {
        assert(p == (p.0, p.1));
    }
    assert(transform_all(seq![p]) =~= seq![transform_equals_spec(p)]);
    assert(many_arguments(seq![p], Seq::<FieldPair>::empty(), Seq::<FieldPair>::empty(), None, None)
        =~= seq![("where"@, ValueView::Object(seq![p]))]);
    assert(many_arguments(Seq::<FieldPair>::empty(), Seq::<FieldPair>::empty(), seq![p], None, None)
        =~= seq![
        ("cursor"@, ValueView::Object(seq![(p.0, ValueView::Object(seq![("equals"@, p.1)]))])),
    ]);
}

/// Assembly is deterministic: two builders over the same capability set whose
/// parameter groups have the same views — whatever contexts they hold and
/// however their configurations were reached — build the same operation.
pub proof fn lemma_operation_deterministic<'a, 'b, C1, C2, Actions: ModelActions>(
    a: FindMany<'a, C1, Actions>,
    b: FindMany<'b, C2, Actions>,
)
    requires
        wheres_view(a.where_params@) == wheres_view(b.where_params@),
        withs_view(a.with_params@) == withs_view(b.with_params@),
        order_bys_view(a.order_by_params@) == order_bys_view(b.order_by_params@),
        cursors_view::<Actions::Where, Actions::Cursor>(a.cursor_params@) == cursors_view::<
            Actions::Where,
            Actions::Cursor,
        >(b.cursor_params@),
        a.skip == b.skip,
        a.take == b.take,
    ensures
        a.operation_spec() == b.operation_spec(),
{
}

} // verus!

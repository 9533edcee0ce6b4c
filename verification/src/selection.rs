//! The generic query tree: a selection node is one named query call with an
//! ordered argument mapping and ordered child selections; an operation wraps
//! one top-level read node for the execution engine.

use vstd::prelude::*;

use crate::value::{pair_seq_view, Value, ValueView};

verus! {

broadcast use vstd::std_specs::vec::group_vec_axioms;

/// One named query call: a name, an ordered mapping of argument name to
/// structured value, and an ordered sequence of child selections (the fields
/// and relations requested).
#[derive(Debug, PartialEq, Eq)]
pub struct Selection {
    pub name: String,
    pub arguments: Vec<(String, Value)>,
    pub nested_selections: Vec<Selection>,
}

/// The mathematical abstraction of a [`Selection`].
#[verifier::ext_equal]
pub struct SelectionView {
    pub name: Seq<char>,
    pub arguments: Seq<(Seq<char>, ValueView)>,
    pub nested_selections: Seq<SelectionView>,
}

/// The view of a [`Selection`].
pub open spec fn selection_view(s: Selection) -> SelectionView
    decreases s,
{
    SelectionView {
        name: s.name@,
        arguments: pair_seq_view(s.arguments@),
        nested_selections: Seq::new(
            s.nested_selections@.len(),
            // The range guard keeps the recursion inside the vector, which
            // bounds it for the termination check.
            |i: int|
                if 0 <= i < s.nested_selections@.len() {
                    selection_view(s.nested_selections@[i])
                } else {
                    SelectionView { name: Seq::empty(), arguments: Seq::empty(), nested_selections: Seq::empty() }
                },
        ),
    }
}

impl View for Selection {
    type V = SelectionView;

    #[verifier::inline]
    open spec fn view(&self) -> SelectionView {
        selection_view(*self)
    }
}

impl Selection {
    /// Assembles a node from its name, arguments and child selections.
    pub fn new(name: String, arguments: Vec<(String, Value)>, nested_selections: Vec<Selection>) -> (r: Selection)
        ensures
            r@ == (SelectionView {
                name: name@,
                arguments: pair_seq_view(arguments@),
                nested_selections: sel_seq_view(nested_selections@),
            }),
    {
        let r = Selection { name, arguments, nested_selections };
        proof {
            assert(r@.nested_selections =~= sel_seq_view(r.nested_selections@));
        }
        r
    }
}

/// Builds a bare field selection: a named node with no arguments and no
/// children.
pub fn scalar_field(name: String) -> (r: Selection)
    ensures
        selection_view(r) == (SelectionView {
            name: name@,
            arguments: Seq::empty(),
            nested_selections: Seq::empty(),
        }),
{
    let r = Selection { name, arguments: Vec::new(), nested_selections: Vec::new() };
    proof {
        assert(selection_view(r).arguments =~= Seq::<(Seq<char>, ValueView)>::empty());
        assert(selection_view(r).nested_selections =~= Seq::<SelectionView>::empty());
    }
    r
}

/// The view of a sequence of selections, node by node.
pub open spec fn sel_seq_view(sels: Seq<Selection>) -> Seq<SelectionView> {
    Seq::new(sels.len(), |i: int| selection_view(sels[i]))
}

/// The unit handed to the execution engine: a read-only wrapper around
/// exactly one top-level selection node.
#[derive(Debug, PartialEq, Eq)]
pub enum Operation {
    Read(Selection),
}

impl View for Operation {
    type V = SelectionView;

    open spec fn view(&self) -> SelectionView {
        match self {
            Operation::Read(sel) => sel@,
        }
    }
}

} // verus!

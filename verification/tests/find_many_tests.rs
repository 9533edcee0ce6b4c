use prisma_client_rust::params::{
    FieldCursor, FieldOrderBy, FieldWhere, SelectionWith, UserActions, UserInclude, UserSelect,
};
use prisma_client_rust::selection::scalar_field;
use prisma_client_rust::{BatchQuery, FindMany, ManyArgs, Operation, SerializedWhereInput, Value};

fn s(text: &str) -> String {
    text.to_string()
}

fn read_node(operation: Operation) -> prisma_client_rust::Selection {
    let Operation::Read(node) = operation;
    node
}

fn default_scalars() -> Vec<prisma_client_rust::Selection> {
    vec![scalar_field(s("id")), scalar_field(s("name"))]
}

#[test]
fn empty_builder_builds_bare_node_with_default_scalars() {
    let ctx = ();
    let query: FindMany<(), UserActions> = FindMany::new(&ctx, vec![]);
    let (operation, _) = query.exec_operation();
    let node = read_node(operation);
    assert_eq!(node.name, s("findManyUser"));
    assert_eq!(node.arguments, vec![]);
    assert_eq!(node.nested_selections, default_scalars());
}

#[test]
fn order_by_skip_take_example() {
    let ctx = ();
    let query: FindMany<(), UserActions> = FindMany::new(&ctx, vec![]);
    let (operation, _) = query
        .order_by(FieldOrderBy { field: s("name"), direction: Value::Text(s("asc")) })
        .skip(5)
        .take(10)
        .exec_operation();
    let node = read_node(operation);
    assert_eq!(node.name, s("findManyUser"));
    assert_eq!(
        node.arguments,
        vec![
            (
                s("orderBy"),
                Value::List(vec![Value::Object(vec![(s("name"), Value::Text(s("asc")))])]),
            ),
            (s("skip"), Value::Int(5)),
            (s("take"), Value::Int(10)),
        ]
    );
    assert_eq!(node.nested_selections, default_scalars());
}

#[test]
fn argument_order_is_fixed_regardless_of_chaining_order() {
    let ctx = ();
    let query: FindMany<(), UserActions> = FindMany::new(&ctx, vec![]);
    let (operation, _) = query
        .take(5)
        .skip(10)
        .cursor(FieldCursor { field: s("id"), value: Value::Int(3) })
        .exec_operation();
    let node = read_node(operation);
    let names: Vec<String> = node.arguments.into_iter().map(|(name, _)| name).collect();
    assert_eq!(names, vec![s("cursor"), s("skip"), s("take")]);
}

#[test]
fn transform_equals_is_idempotent_on_explicit_objects() {
    let explicit = |value: Value| SerializedWhereInput {
        field: s("id"),
        value: Value::Object(vec![(s("equals"), value)]),
    };
    let once = explicit(Value::Int(7)).transform_equals();
    let (field, value) = once;
    let twice = SerializedWhereInput { field, value }.transform_equals();
    assert_eq!(
        twice,
        (s("id"), Value::Object(vec![(s("equals"), Value::Int(7))]))
    );
}

#[test]
fn bare_scalar_stays_bare_for_where_but_wraps_for_cursor() {
    let ctx = ();
    let query: FindMany<(), UserActions> =
        FindMany::new(&ctx, vec![FieldWhere { field: s("id"), value: Value::Int(5) }]);
    let (operation, _) = query
        .cursor(FieldCursor { field: s("id"), value: Value::Int(5) })
        .exec_operation();
    let node = read_node(operation);
    assert_eq!(
        node.arguments,
        vec![
            (s("where"), Value::Object(vec![(s("id"), Value::Int(5))])),
            (
                s("cursor"),
                Value::Object(vec![(
                    s("id"),
                    Value::Object(vec![(s("equals"), Value::Int(5))]),
                )]),
            ),
        ]
    );
}

#[test]
fn select_yields_exactly_the_projected_fields() {
    let ctx = ();
    let query: FindMany<(), UserActions> = FindMany::new(&ctx, vec![]);
    let selected = query.select(UserSelect { selections: vec![scalar_field(s("name"))] });
    let node = read_node(selected.operation);
    assert_eq!(node.nested_selections, vec![scalar_field(s("name"))]);
}

#[test]
fn include_yields_default_scalars_plus_relations() {
    let ctx = ();
    let query: FindMany<(), UserActions> = FindMany::new(&ctx, vec![]);
    let included = query.including(UserInclude { relations: vec![scalar_field(s("posts"))] });
    let node = read_node(included.operation);
    assert_eq!(
        node.nested_selections,
        vec![scalar_field(s("id")), scalar_field(s("name")), scalar_field(s("posts"))]
    );
}

#[test]
fn with_params_append_to_default_scalars_on_execute() {
    let ctx = ();
    let query: FindMany<(), UserActions> = FindMany::new(&ctx, vec![]);
    let (operation, _) = query
        .with(SelectionWith { selection: scalar_field(s("posts")) })
        .exec_operation();
    let node = read_node(operation);
    assert_eq!(
        node.nested_selections,
        vec![scalar_field(s("id")), scalar_field(s("name")), scalar_field(s("posts"))]
    );
}

#[test]
fn equivalent_builders_build_identical_operations() {
    let ctx = ();
    let build = || {
        let query: FindMany<(), UserActions> =
            FindMany::new(&ctx, vec![FieldWhere { field: s("id"), value: Value::Int(1) }]);
        query
            .order_by(FieldOrderBy { field: s("name"), direction: Value::Text(s("asc")) })
            .skip(2)
            .take(3)
            .exec_operation()
            .0
    };
    assert_eq!(build(), build());
}

#[test]
fn graphql_builds_the_same_operation_as_execute_would() {
    let ctx = ();
    let make = || {
        let query: FindMany<(), UserActions> =
            FindMany::new(&ctx, vec![FieldWhere { field: s("id"), value: Value::Int(1) }]);
        query.take(4)
    };
    assert_eq!(make().graphql(), make().exec_operation().0);
}

#[test]
fn convert_is_the_identity_for_a_read_many_query() {
    let raw = vec![Value::Int(1), Value::Int(2)];
    let expected = vec![Value::Int(1), Value::Int(2)];
    let converted = <FindMany<(), UserActions> as BatchQuery>::convert(raw);
    assert_eq!(converted, expected);
}

#[test]
fn many_args_renders_bare_arguments_and_nested_selections() {
    let args: ManyArgs<UserActions> = ManyArgs::new(vec![
        FieldWhere { field: s("age"), value: Value::Object(vec![(s("gt"), Value::Int(1))]) },
        FieldWhere { field: s("age"), value: Value::Object(vec![(s("lt"), Value::Int(10))]) },
    ]);
    let (arguments, nested) = args
        .with(SelectionWith { selection: scalar_field(s("posts")) })
        .take(7)
        .to_graphql();
    assert_eq!(
        arguments,
        vec![
            (
                s("where"),
                Value::Object(vec![(
                    s("age"),
                    Value::Object(vec![(s("gt"), Value::Int(1)), (s("lt"), Value::Int(10))]),
                )]),
            ),
            (s("take"), Value::Int(7)),
        ]
    );
    assert_eq!(nested, vec![scalar_field(s("posts"))]);
}

#[test]
fn many_args_of_nothing_renders_nothing() {
    let args: ManyArgs<UserActions> = ManyArgs::new(vec![]);
    let (arguments, nested) = args.to_graphql();
    assert_eq!(arguments, vec![]);
    assert_eq!(nested, vec![]);
}

#[test]
fn list_value_is_wrapped_as_explicit_equality_for_cursor() {
    let serialized = SerializedWhereInput {
        field: s("pair"),
        value: Value::List(vec![Value::Int(1), Value::Int(2)]),
    };
    assert_eq!(
        serialized.transform_equals(),
        (
            s("pair"),
            Value::Object(vec![(
                s("equals"),
                Value::List(vec![Value::Int(1), Value::Int(2)]),
            )]),
        )
    );
}

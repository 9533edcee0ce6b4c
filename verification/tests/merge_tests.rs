use prisma_client_rust::{merge_fields, Value};

fn s(text: &str) -> String {
    text.to_string()
}

#[test]
fn merge_keeps_both_bounds_of_one_field() {
    let merged = merge_fields(vec![
        (s("age"), Value::Object(vec![(s("gt"), Value::Int(1))])),
        (s("age"), Value::Object(vec![(s("lt"), Value::Int(10))])),
    ]);
    assert_eq!(
        merged,
        vec![(
            s("age"),
            Value::Object(vec![(s("gt"), Value::Int(1)), (s("lt"), Value::Int(10))]),
        )]
    );
}

#[test]
fn merge_preserves_first_occurrence_order_of_distinct_keys() {
    let merged = merge_fields(vec![
        (s("b"), Value::Object(vec![(s("gt"), Value::Int(1))])),
        (s("a"), Value::Object(vec![(s("lt"), Value::Int(2))])),
        (s("b"), Value::Object(vec![(s("lt"), Value::Int(3))])),
    ]);
    assert_eq!(
        merged,
        vec![
            (
                s("b"),
                Value::Object(vec![(s("gt"), Value::Int(1)), (s("lt"), Value::Int(3))]),
            ),
            (s("a"), Value::Object(vec![(s("lt"), Value::Int(2))])),
        ]
    );
}

#[test]
fn merge_of_empty_input_is_empty() {
    assert_eq!(merge_fields(vec![]), vec![]);
}

#[test]
fn merge_keeps_later_value_for_non_object_duplicates() {
    let merged = merge_fields(vec![
        (s("id"), Value::Int(1)),
        (s("id"), Value::Int(2)),
    ]);
    assert_eq!(merged, vec![(s("id"), Value::Int(2))]);
}

#[test]
fn merge_without_duplicates_is_identity() {
    let input = vec![(s("x"), Value::Int(1)), (s("y"), Value::Boolean(true))];
    let expected = vec![(s("x"), Value::Int(1)), (s("y"), Value::Boolean(true))];
    assert_eq!(merge_fields(input), expected);
}

#[test]
fn merge_concatenates_list_values_of_one_field() {
    let merged = merge_fields(vec![
        (s("ids"), Value::List(vec![Value::Int(1)])),
        (s("ids"), Value::List(vec![Value::Int(2), Value::Int(3)])),
    ]);
    assert_eq!(
        merged,
        vec![(
            s("ids"),
            Value::List(vec![Value::Int(1), Value::Int(2), Value::Int(3)]),
        )]
    );
}

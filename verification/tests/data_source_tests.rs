use qrust::data_source::projection_indices;
use qrust::data_type::DataType;
use qrust::helper::schema;

#[test]
fn projection_indices_keep_schema_order() {
    let s = schema(vec![
        ("column1", DataType::Int64, false),
        ("column2", DataType::Int64, false),
        ("column3", DataType::Int64, false),
    ]);
    let idx = projection_indices(&s, &vec!["column1".to_string(), "column3".to_string()]);
    assert_eq!(idx, vec![0, 2]);

    let reordered = projection_indices(&s, &vec!["column3".to_string(), "column1".to_string()]);
    assert_eq!(reordered, vec![0, 2]);
}

#[test]
fn projection_indices_skip_unknown_names() {
    let s = schema(vec![
        ("a", DataType::Utf8, false),
        ("b", DataType::Int64, false),
    ]);
    let idx = projection_indices(&s, &vec!["b".to_string(), "nope".to_string()]);
    assert_eq!(idx, vec![1]);

    let none = projection_indices(&s, &Vec::new());
    assert_eq!(none, Vec::<usize>::new());
}

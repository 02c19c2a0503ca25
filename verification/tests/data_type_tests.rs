use qrust::data_type::{ArrowType, DataType};

#[test]
fn test_string() {
    let t = ArrowType::StringType;
    assert_eq!(DataType::Utf8, DataType::from(t));
}

#[test]
fn test_i64() {
    let t = ArrowType::Int64Type;
    assert_eq!(DataType::Int64, DataType::from(t));
}

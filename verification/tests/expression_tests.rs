use qrust::data_type::DataType;
use qrust::execution_context::ExecutionContext;
use qrust::expression::BinaryExpression;
use qrust::expression::{BooleanExpression, MathExpression};
use qrust::helper::{and, col, gt, gteq, lit, lt, lteq, neq, or, schema};
use qrust::helper::{avg, max, min, sum};

fn int_df() -> qrust::data_frame::DataFrame {
    let context = ExecutionContext::new();
    context.csv(
        schema(vec![("a", DataType::Int64, false), ("b", DataType::Int64, true)]),
        "nums.csv",
    )
}

#[test]
fn boolean_builders_render_their_symbols() {
    assert_eq!(neq(col("a"), col("b")).to_text(), "a!=b");
    assert_eq!(gt(col("a"), col("b")).to_text(), "a>b");
    assert_eq!(lt(col("a"), col("b")).to_text(), "a<b");
    assert_eq!(gteq(col("a"), col("b")).to_text(), "a>=b");
    assert_eq!(lteq(col("a"), col("b")).to_text(), "a<=b");
    assert_eq!(and(col("a"), col("b")).to_text(), "aANDb");
    assert_eq!(or(col("a"), col("b")).to_text(), "aORb");
}

#[test]
fn math_builders_render_their_symbols() {
    assert_eq!(
        qrust::helper::add(col("a"), col("b")).to_text(),
        "a + b"
    );
    assert_eq!(
        qrust::helper::subtract(col("a"), col("b")).to_text(),
        "a - b"
    );
    assert_eq!(
        qrust::helper::multiply(col("a"), lit(&3i64)).to_text(),
        "a * 3"
    );
    assert_eq!(
        qrust::helper::divide(col("a"), col("b")).to_text(),
        "a / b"
    );
    assert_eq!(
        qrust::helper::modulus(col("a"), lit(&-2i64)).to_text(),
        "a % -2"
    );
}

#[test]
fn aggregate_builders_render_their_names() {
    assert_eq!(sum(col("a")).to_text(), "sum(a)");
    assert_eq!(min(col("a")).to_text(), "min(a)");
    assert_eq!(max(col("a")).to_text(), "max(a)");
    assert_eq!(avg(col("a")).to_text(), "avg(a)");
}

#[test]
fn boolean_fields_are_named_after_their_kind() {
    let df = int_df();
    let out = df
        .select(vec![
            neq(col("a"), col("b")),
            and(col("a"), col("b")),
            or(col("a"), col("b")),
        ])
        .unwrap();
    assert_eq!(
        out.schema(),
        schema(vec![
            ("neq", DataType::Boolean, false),
            ("and", DataType::Boolean, false),
            ("or", DataType::Boolean, false),
        ])
    );
}

#[test]
fn math_fields_are_named_after_their_kind() {
    let df = int_df();
    let out = df
        .select(vec![
            qrust::helper::add(col("a"), col("b")),
            qrust::helper::subtract(col("a"), col("b")),
            qrust::helper::multiply(col("a"), col("b")),
            qrust::helper::divide(col("a"), col("b")),
            qrust::helper::modulus(col("a"), col("b")),
        ])
        .unwrap();
    assert_eq!(
        out.schema(),
        schema(vec![
            ("add", DataType::Int64, false),
            ("subtract", DataType::Int64, false),
            ("mult", DataType::Int64, false),
            ("div", DataType::Int64, false),
            ("modulus", DataType::Int64, false),
        ])
    );
}

#[test]
fn aggregate_fields_take_the_inner_type() {
    let context = ExecutionContext::new();
    let df = context.csv(
        schema(vec![("tag", DataType::Utf8, false), ("n", DataType::Int64, false)]),
        "t.csv",
    );
    let out = df
        .aggregate(vec![col("tag")], vec![min(col("tag")), max(col("n"))])
        .unwrap();
    assert_eq!(
        out.schema(),
        schema(vec![
            ("tag", DataType::Utf8, false),
            ("min", DataType::Utf8, false),
            ("max", DataType::Int64, false),
        ])
    );
}

#[test]
fn binary_accessors_expose_the_parts() {
    let b = BooleanExpression::lteq(col("x"), lit(&9i64));
    assert_eq!(b.name(), "lteq");
    assert_eq!(b.op(), "<=");
    assert_eq!(b.l().to_text(), "x");
    assert_eq!(b.r().to_text(), "9");

    let m = MathExpression::divide(col("x"), col("y"));
    assert_eq!(m.name(), "div");
    assert_eq!(m.op(), "/");
    assert_eq!(m.l().to_text(), "x");
    assert_eq!(m.r().to_text(), "y");
}

#[test]
fn nested_expressions_render_inside_out() {
    let e = gt(
        qrust::helper::add(col("a"), lit(&1i64)),
        qrust::helper::multiply(col("b"), lit(&2i64)),
    );
    assert_eq!(e.to_text(), "a + 1>b * 2");
}

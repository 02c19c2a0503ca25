use std::sync::Arc;

use qrust::data_frame::DataFrame;
use qrust::data_type::DataType;
use qrust::error::PlanError;
use qrust::execution_context::ExecutionContext;
use qrust::expression::{AggregateExpression, BooleanExpression, MathExpression};
use qrust::helper::{col, eq, lit, schema, sum};
use qrust::logical_plan::Scan;
use qrust::text::i64_to_text;

fn base_df() -> DataFrame {
    let context = ExecutionContext::new();
    let s = schema(vec![
        ("column1", DataType::Int64, false),
        ("column2", DataType::Int64, false),
        ("column3", DataType::Int64, false),
    ]);
    context.csv(s, "test.csv")
}

#[test]
fn format_is_deterministic() {
    let df = base_df()
        .filter(eq(col("column1"), lit(&123i64)))
        .select(vec![col("column1"), col("column3")])
        .unwrap();

    assert_eq!(
        df.plan().format(),
        "Projection: column1, column3\n  Filter: column1=123\n    Scan: test.csv, projection=None\n"
    );
}

#[test]
fn select_unknown_column_fails() {
    let r = base_df().select(vec![col("no_such_column")]);
    match r {
        Err(PlanError::UnknownColumn(name)) => assert_eq!(name, "no_such_column"),
        Ok(_) => panic!("selecting a nonexistent column must fail"),
    }
}

#[test]
fn select_duplicate_column_fails() {
    let context = ExecutionContext::new();
    let s = schema(vec![
        ("twice", DataType::Int64, false),
        ("twice", DataType::Utf8, true),
    ]);
    let df = context.csv(s, "dup.csv");
    let r = df.select(vec![col("twice")]);
    assert!(matches!(r, Err(PlanError::UnknownColumn(_))));
}

#[test]
fn select_copies_fields_in_given_order() {
    let context = ExecutionContext::new();
    let s = schema(vec![
        ("a", DataType::Int64, false),
        ("b", DataType::Utf8, true),
        ("c", DataType::Boolean, false),
    ]);
    let df = context.csv(s, "t.csv");
    let out = df.select(vec![col("c"), col("a")]).unwrap();
    assert_eq!(
        out.schema(),
        schema(vec![
            ("c", DataType::Boolean, false),
            ("a", DataType::Int64, false),
        ])
    );
}

#[test]
fn filter_preserves_schema() {
    let df = base_df();
    let filtered = df.filter(eq(col("column2"), lit(&7i64)));
    assert_eq!(df.schema(), filtered.schema());
}

#[test]
fn aggregate_schema_groups_first() {
    let df = base_df();
    let out = df
        .aggregate(
            vec![col("column2"), col("column1")],
            vec![sum(col("column3"))],
        )
        .unwrap();
    let s = out.schema();
    assert_eq!(s.len(), 3);
    assert_eq!(
        s,
        schema(vec![
            ("column2", DataType::Int64, false),
            ("column1", DataType::Int64, false),
            ("sum", DataType::Int64, false),
        ])
    );
}

#[test]
fn branch_independence() {
    let base = base_df();
    let a = base.select(vec![col("column1")]).unwrap();
    let b = base.select(vec![col("column2"), col("column3")]).unwrap();

    assert_eq!(a.schema(), schema(vec![("column1", DataType::Int64, false)]));
    assert_eq!(
        b.schema(),
        schema(vec![
            ("column2", DataType::Int64, false),
            ("column3", DataType::Int64, false),
        ])
    );
    assert_eq!(
        a.plan().format(),
        "Projection: column1\n  Scan: test.csv, projection=None\n"
    );
    assert_eq!(
        b.plan().format(),
        "Projection: column2, column3\n  Scan: test.csv, projection=None\n"
    );
    assert_eq!(
        base.schema(),
        schema(vec![
            ("column1", DataType::Int64, false),
            ("column2", DataType::Int64, false),
            ("column3", DataType::Int64, false),
        ])
    );
    assert_eq!(base.plan().format(), "Scan: test.csv, projection=None\n");
}

#[test]
fn boolean_display_has_no_spaces() {
    let e = BooleanExpression::gteq(col("a"), lit(&5i64)).into_expr();
    assert_eq!(e.to_text(), "a>=5");
    let e = BooleanExpression::and(col("x"), col("y")).into_expr();
    assert_eq!(e.to_text(), "xANDy");
}

#[test]
fn math_display_has_spaces() {
    let e = MathExpression::multiply(col("a"), lit(&2i64)).into_expr();
    assert_eq!(e.to_text(), "a * 2");
    let e = MathExpression::modulus(col("a"), col("b")).into_expr();
    assert_eq!(e.to_text(), "a % b");
}

#[test]
fn string_literal_display_is_quoted() {
    let e = lit(&"hello");
    assert_eq!(e.to_text(), "'hello'");
}

#[test]
fn aggregate_display_wraps_inner() {
    let e = AggregateExpression::avg(col("price"));
    assert_eq!(e.to_text(), "avg(price)");
}

#[test]
fn math_field_takes_left_type() {
    let context = ExecutionContext::new();
    let s = schema(vec![
        ("words", DataType::Utf8, false),
        ("num", DataType::Int64, false),
    ]);
    let df = context.csv(s, "t.csv");
    let out = df
        .select(vec![MathExpression::add(col("words"), col("num")).into_expr()])
        .unwrap();
    assert_eq!(out.schema(), schema(vec![("add", DataType::Utf8, false)]));
}

#[test]
fn boolean_field_ignores_operands() {
    let df = base_df();
    let out = df
        .select(vec![eq(col("no_such_column"), lit(&1i64))])
        .unwrap();
    assert_eq!(out.schema(), schema(vec![("eq", DataType::Boolean, false)]));
}

#[test]
fn literal_fields_are_named_after_their_text() {
    let df = base_df();
    let out = df.select(vec![lit(&42i64), lit(&"tag")]).unwrap();
    assert_eq!(
        out.schema(),
        schema(vec![("42", DataType::Int64, false), ("tag", DataType::Utf8, false)])
    );
}

#[test]
fn scan_display_shows_projection_list() {
    let s = schema(vec![("a", DataType::Int64, false)]);
    let scan = Scan::new(
        String::from("data.csv"),
        s,
        vec![String::from("a"), String::from("b")],
    );
    assert_eq!(
        scan.to_text(),
        "Scan: data.csv, projection=[\"a\", \"b\"]"
    );
}

#[test]
fn i64_rendering() {
    assert_eq!(i64_to_text(0), "0");
    assert_eq!(i64_to_text(7), "7");
    assert_eq!(i64_to_text(-1), "-1");
    assert_eq!(i64_to_text(1234567890), "1234567890");
    assert_eq!(i64_to_text(i64::MAX), "9223372036854775807");
    assert_eq!(i64_to_text(i64::MIN), "-9223372036854775808");
}

#[test]
fn data_frame_new_derives_schema_eagerly() {
    let base = base_df();
    let plan = base.plan();
    let df = DataFrame::new(Arc::clone(&plan)).unwrap();
    assert_eq!(df.schema(), base.schema());
}

#[test]
fn children_are_ordered_inputs() {
    let base = base_df();
    let filtered = base.filter(eq(col("column1"), lit(&1i64)));
    let plan = filtered.plan();
    let children = plan.children();
    assert_eq!(children.len(), 1);
    assert_eq!(children[0].format(), "Scan: test.csv, projection=None\n");
    assert_eq!(base.plan().children().len(), 0);
}

#[test]
fn error_carries_column_name() {
    let r = base_df().select(vec![col("ghost_col")]);
    match r {
        Err(e) => assert_eq!(e.column_name(), "ghost_col"),
        Ok(_) => panic!("expected an error"),
    }
}

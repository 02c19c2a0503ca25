use std::sync::Arc;

use qrust::data_frame::DataFrame;
use qrust::data_type::DataType;
use qrust::execution_context::ExecutionContext;
use qrust::helper::{col, eq, lit, schema, sum};

fn generate_df() -> Arc<DataFrame> {
    let context = ExecutionContext::new();
    let schema = schema(vec![
        ("column1", DataType::Int64, false),
        ("column2", DataType::Int64, false),
        ("column3", DataType::Int64, false),
    ]);
    let path = "test.csv";
    Arc::new(context.csv(schema, path))
}

fn normalize_plan(p: &str) -> Vec<&str> {
    p.trim().split("\n").map(|s| s.trim()).collect::<Vec<&str>>()
}

fn check_plan(df: DataFrame, plan: &str) {
    assert_eq!(
        normalize_plan(df.plan().format().as_str()),
        normalize_plan(plan)
    );
}

#[test]
fn data_frame_init() {
    let df = generate_df();

    assert_eq!(
        df.schema(),
        schema(vec![
            ("column1", DataType::Int64, false),
            ("column2", DataType::Int64, false),
            ("column3", DataType::Int64, false),
        ])
    );

    assert_eq!(df.plan().format().trim(), "Scan: test.csv, projection=None");
}

#[test]
fn data_frame_select() {
    let df = generate_df().select(vec![col("column1"), col("column3")]).unwrap();

    assert_eq!(
        df.schema(),
        schema(vec![
            ("column1", DataType::Int64, false),
            ("column3", DataType::Int64, false),
        ])
    );

    check_plan(
        df,
        "Projection: column1, column3
                    Scan: test.csv, projection=None",
    );
}

#[test]
fn data_frame_filter() {
    let df = generate_df().filter(eq(col("column1"), lit(&"abc")));

    assert_eq!(
        df.schema(),
        schema(vec![
            ("column1", DataType::Int64, false),
            ("column2", DataType::Int64, false),
            ("column3", DataType::Int64, false),
        ])
    );

    check_plan(
        df,
        "Filter: column1='abc'
                    Scan: test.csv, projection=None",
    );
}

#[test]
fn data_frame_aggregate() {
    let df = generate_df()
        .aggregate(vec![col("column1")], vec![sum(col("column3"))])
        .unwrap();

    assert_eq!(
        df.schema(),
        schema(vec![
            ("column1", DataType::Int64, false),
            ("sum", DataType::Int64, false),
        ])
    );

    check_plan(
        df,
        "Aggregate: groupExpr=column1, aggregateExpr=sum(column3)
                    Scan: test.csv, projection=None",
    );
}

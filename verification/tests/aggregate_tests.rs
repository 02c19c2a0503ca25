use qrust::data_type::DataType;
use qrust::execution_context::ExecutionContext;
use qrust::expression::LogicalExpression;
use qrust::helper::{col, schema, sum};
use qrust::logical_plan::Aggregate;

#[test]
fn test_aggregate() {
    let ctx = ExecutionContext::new();
    let input = ctx.csv(
        schema(vec![
            ("abc", DataType::Utf8, false),
            ("values", DataType::Int64, false),
        ]),
        "path.csv",
    );
    let group: Vec<LogicalExpression> = vec![col("abc")];
    let agg = vec![sum(col("values"))];
    let expr = Aggregate::new(input.plan(), group, agg).unwrap();

    assert_eq!(
        expr.to_text().as_str(),
        "Aggregate: groupExpr=abc, aggregateExpr=sum(values)"
    );

    assert_eq!(
        expr.schema().unwrap(),
        schema(vec![
            ("abc", DataType::Utf8, false),
            ("sum", DataType::Int64, false),
        ])
    )
}

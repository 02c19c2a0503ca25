//! Mechanical builders for schemas, columns, literals and operators: thin
//! delegations to the node constructors.

use vstd::prelude::*;

use crate::data_type::DataType;
use crate::expression::{
    AggregateExpression, AggregateOp, BooleanExpression, BooleanOp, ColumnExpression, ExprV,
    LiteralI64Expression, LiteralStringExpression, LogicalExpression, MathExpression, MathOp,
};
use crate::schema::{Field, FieldV, Schema};

verus! {

/// Builds a schema from one `(name, type, nullable)` triple per field.
pub fn schema(fields: Vec<(&str, DataType, bool)>) -> (r: Schema)
    ensures
        r@.len() == fields@.len(),
        forall|i: int|
            0 <= i < fields@.len() ==> r@[i] == (FieldV {
                name: fields@[i].0@,
                data_type: fields@[i].1,
                nullable: fields@[i].2,
            }),
{
    let mut out: Vec<Field> = Vec::new();
    let n = fields.len();
    let mut i: usize = 0;
    while i < n
        invariant
            n == fields@.len(),
            i <= n,
            out@.len() == i,
            forall|j: int|
                0 <= j < i ==> out@[j]@ == (FieldV {
                    name: fields@[j].0@,
                    data_type: fields@[j].1,
                    nullable: fields@[j].2,
                }),
        decreases n - i,
    {
        let (name, data_type, nullable) = fields[i];
        out.push(Field::new(name.to_owned(), data_type, nullable));
        i = i + 1;
    }
    let r = Schema::new(out);
    proof {
        assert forall|i: int| 0 <= i < fields@.len() implies r@[i] == (FieldV {
            name: fields@[i].0@,
            data_type: fields@[i].1,
            nullable: fields@[i].2,
        }) by {
            assert(r@[i] == out@[i]@);
        }
    }
    r
}

/// A column reference by name.
pub fn col(name: &str) -> (r: LogicalExpression)
    ensures
        r@ == (ExprV::Column { name: name@ }),
{
    ColumnExpression::new(name.to_owned()).into_expr()
}

/// What can be turned into a literal expression.
pub trait IntoLit {
    /// The literal node this value denotes.
    spec fn lit_view(&self) -> ExprV;

    /// Builds the literal expression for this value.
    fn into_lit(&self) -> (r: LogicalExpression)
        ensures
            r@ == self.lit_view(),
    ;
}

impl IntoLit for i64 {
    open spec fn lit_view(&self) -> ExprV {
        ExprV::LiteralI64 { val: *self as int }
    }

    fn into_lit(&self) -> (r: LogicalExpression) {
        LiteralI64Expression::new(*self).into_expr()
    }
}

impl IntoLit for &str {
    open spec fn lit_view(&self) -> ExprV {
        ExprV::LiteralString { val: (*self)@ }
    }

    fn into_lit(&self) -> (r: LogicalExpression) {
        LiteralStringExpression::new((*self).to_owned()).into_expr()
    }
}

/// A literal expression from any value that [`IntoLit`] accepts.
pub fn lit<T: IntoLit>(val: &T) -> (r: LogicalExpression)
    ensures
        r@ == val.lit_view(),
{
    val.into_lit()
}

/// A boolean expression true when the operands are equal.
pub fn eq(l: LogicalExpression, r: LogicalExpression) -> (b: LogicalExpression)
    ensures
        b@ == (ExprV::Boolean { op: BooleanOp::Eq, l: Box::new(l@), r: Box::new(r@) }),
{
    BooleanExpression::eq(l, r).into_expr()
}

/// A boolean expression true when the operands differ.
pub fn neq(l: LogicalExpression, r: LogicalExpression) -> (b: LogicalExpression)
    ensures
        b@ == (ExprV::Boolean { op: BooleanOp::Neq, l: Box::new(l@), r: Box::new(r@) }),
{
    BooleanExpression::neq(l, r).into_expr()
}

/// A boolean expression true when the left operand is greater.
pub fn gt(l: LogicalExpression, r: LogicalExpression) -> (b: LogicalExpression)
    ensures
        b@ == (ExprV::Boolean { op: BooleanOp::Gt, l: Box::new(l@), r: Box::new(r@) }),
{
    BooleanExpression::gt(l, r).into_expr()
}

/// A boolean expression true when the left operand is smaller.
pub fn lt(l: LogicalExpression, r: LogicalExpression) -> (b: LogicalExpression)
    ensures
        b@ == (ExprV::Boolean { op: BooleanOp::Lt, l: Box::new(l@), r: Box::new(r@) }),
{
    BooleanExpression::lt(l, r).into_expr()
}

/// A boolean expression true when the left operand is greater or equal.
pub fn gteq(l: LogicalExpression, r: LogicalExpression) -> (b: LogicalExpression)
    ensures
        b@ == (ExprV::Boolean { op: BooleanOp::GtEq, l: Box::new(l@), r: Box::new(r@) }),
{
    BooleanExpression::gteq(l, r).into_expr()
}

/// A boolean expression true when the left operand is smaller or equal.
pub fn lteq(l: LogicalExpression, r: LogicalExpression) -> (b: LogicalExpression)
    ensures
        b@ == (ExprV::Boolean { op: BooleanOp::LtEq, l: Box::new(l@), r: Box::new(r@) }),
{
    BooleanExpression::lteq(l, r).into_expr()
}

/// A boolean expression true when both operands hold.
pub fn and(l: LogicalExpression, r: LogicalExpression) -> (b: LogicalExpression)
    ensures
        b@ == (ExprV::Boolean { op: BooleanOp::And, l: Box::new(l@), r: Box::new(r@) }),
{
    BooleanExpression::and(l, r).into_expr()
}

/// A boolean expression true when at least one operand holds.
pub fn or(l: LogicalExpression, r: LogicalExpression) -> (b: LogicalExpression)
    ensures
        b@ == (ExprV::Boolean { op: BooleanOp::Or, l: Box::new(l@), r: Box::new(r@) }),
{
    BooleanExpression::or(l, r).into_expr()
}

/// A math expression that sums the operands.
pub fn add(l: LogicalExpression, r: LogicalExpression) -> (m: LogicalExpression)
    ensures
        m@ == (ExprV::Math { op: MathOp::Add, l: Box::new(l@), r: Box::new(r@) }),
{
    MathExpression::add(l, r).into_expr()
}

/// A math expression that subtracts the right operand from the left.
pub fn subtract(l: LogicalExpression, r: LogicalExpression) -> (m: LogicalExpression)
    ensures
        m@ == (ExprV::Math { op: MathOp::Subtract, l: Box::new(l@), r: Box::new(r@) }),
{
    MathExpression::subtract(l, r).into_expr()
}

/// A math expression that multiplies the operands.
pub fn multiply(l: LogicalExpression, r: LogicalExpression) -> (m: LogicalExpression)
    ensures
        m@ == (ExprV::Math { op: MathOp::Multiply, l: Box::new(l@), r: Box::new(r@) }),
{
    MathExpression::multiply(l, r).into_expr()
}

/// A math expression that divides the left operand by the right.
pub fn divide(l: LogicalExpression, r: LogicalExpression) -> (m: LogicalExpression)
    ensures
        m@ == (ExprV::Math { op: MathOp::Divide, l: Box::new(l@), r: Box::new(r@) }),
{
    MathExpression::divide(l, r).into_expr()
}

/// A math expression that takes the left operand modulo the right.
pub fn modulus(l: LogicalExpression, r: LogicalExpression) -> (m: LogicalExpression)
    ensures
        m@ == (ExprV::Math { op: MathOp::Modulus, l: Box::new(l@), r: Box::new(r@) }),
{
    MathExpression::modulus(l, r).into_expr()
}

/// An aggregate expression that sums the input.
pub fn sum(input: LogicalExpression) -> (a: AggregateExpression)
    ensures
        a@ == (ExprV::Aggregate { op: AggregateOp::Sum, expr: Box::new(input@) }),
{
    AggregateExpression::sum(input)
}

/// An aggregate expression that takes the minimum of the input.
pub fn min(input: LogicalExpression) -> (a: AggregateExpression)
    ensures
        a@ == (ExprV::Aggregate { op: AggregateOp::Min, expr: Box::new(input@) }),
{
    AggregateExpression::min(input)
}

/// An aggregate expression that takes the maximum of the input.
pub fn max(input: LogicalExpression) -> (a: AggregateExpression)
    ensures
        a@ == (ExprV::Aggregate { op: AggregateOp::Max, expr: Box::new(input@) }),
{
    AggregateExpression::max(input)
}

/// An aggregate expression that averages the input.
pub fn avg(input: LogicalExpression) -> (a: AggregateExpression)
    ensures
        a@ == (ExprV::Aggregate { op: AggregateOp::Avg, expr: Box::new(input@) }),
{
    AggregateExpression::avg(input)
}

} // verus!

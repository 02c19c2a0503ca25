//! The expression model: a closed set of node kinds, each able to derive a
//! `Field` from an input schema and to render itself as text.

use vstd::prelude::*;

use crate::data_type::DataType;
use crate::error::PlanError;
use crate::schema::{lookup_field, Field, FieldV, Schema};
use crate::text::{i64_to_text, int_display};

verus! {

/// The comparison and connective kinds a boolean binary expression can carry.
#[derive(Clone, Copy, Debug, PartialEq, Eq, Structural)]
pub enum BooleanOp {
    Eq,
    Neq,
    Gt,
    Lt,
    GtEq,
    LtEq,
    And,
    Or,
}

/// The arithmetic kinds a math binary expression can carry.
#[derive(Clone, Copy, Debug, PartialEq, Eq, Structural)]
pub enum MathOp {
    Add,
    Subtract,
    Multiply,
    Divide,
    Modulus,
}

/// The aggregation kinds an aggregate expression can carry.
#[derive(Clone, Copy, Debug, PartialEq, Eq, Structural)]
pub enum AggregateOp {
    Sum,
    Min,
    Max,
    Avg,
}

/// The name a boolean expression's derived field carries.
pub open spec fn boolean_op_name(op: BooleanOp) -> Seq<char> {
    match op {
        BooleanOp::Eq => "eq"@,
        BooleanOp::Neq => "neq"@,
        BooleanOp::Gt => "gt"@,
        BooleanOp::Lt => "lt"@,
        BooleanOp::GtEq => "gteq"@,
        BooleanOp::LtEq => "lteq"@,
        BooleanOp::And => "and"@,
        BooleanOp::Or => "or"@,
    }
}

/// The symbol a boolean expression renders between its operands.
pub open spec fn boolean_op_symbol(op: BooleanOp) -> Seq<char> {
    match op {
        BooleanOp::Eq => "="@,
        BooleanOp::Neq => "!="@,
        BooleanOp::Gt => ">"@,
        BooleanOp::Lt => "<"@,
        BooleanOp::GtEq => ">="@,
        BooleanOp::LtEq => "<="@,
        BooleanOp::And => "AND"@,
        BooleanOp::Or => "OR"@,
    }
}

/// The name a math expression's derived field carries.
pub open spec fn math_op_name(op: MathOp) -> Seq<char> {
    match op {
        MathOp::Add => "add"@,
        MathOp::Subtract => "subtract"@,
        MathOp::Multiply => "mult"@,
        MathOp::Divide => "div"@,
        MathOp::Modulus => "modulus"@,
    }
}

/// The symbol a math expression renders between its operands.
pub open spec fn math_op_symbol(op: MathOp) -> Seq<char> {
    match op {
        MathOp::Add => "+"@,
        MathOp::Subtract => "-"@,
        MathOp::Multiply => "*"@,
        MathOp::Divide => "/"@,
        MathOp::Modulus => "%"@,
    }
}

/// The lowercase name of an aggregation kind: both the derived field's name
/// and the function name in the rendered text.
pub open spec fn aggregate_op_name(op: AggregateOp) -> Seq<char> {
    match op {
        AggregateOp::Sum => "sum"@,
        AggregateOp::Min => "min"@,
        AggregateOp::Max => "max"@,
        AggregateOp::Avg => "avg"@,
    }
}

/// The uniform sub-contract of the binary-operator expression kinds: a
/// derived-field name, a rendered operator symbol, and the two operands.
pub trait BinaryExpression {
    /// The name the derived field carries.
    spec fn name_spec(&self) -> Seq<char>;

    /// The symbol rendered between the operands.
    spec fn symbol_spec(&self) -> Seq<char>;

    /// The left operand's value.
    spec fn left_spec(&self) -> ExprV;

    /// The right operand's value.
    spec fn right_spec(&self) -> ExprV;

    /// The derived field's name.
    fn name(&self) -> (r: String)
        ensures
            r@ == self.name_spec(),
    ;

    /// The rendered operator symbol.
    fn op(&self) -> (r: String)
        ensures
            r@ == self.symbol_spec(),
    ;

    /// The left operand.
    fn l(&self) -> (r: &LogicalExpression)
        ensures
            r@ == self.left_spec(),
    ;

    /// The right operand.
    fn r(&self) -> (r: &LogicalExpression)
        ensures
            r@ == self.right_spec(),
    ;
}

/// A reference to a named column of the input.
pub struct ColumnExpression {
    name: String,
}

/// A string literal.
pub struct LiteralStringExpression {
    val: String,
}

/// A 64-bit integer literal.
pub struct LiteralI64Expression {
    val: i64,
}

/// A binary expression of boolean kind: a comparison or a connective.
pub struct BooleanExpression {
    op: BooleanOp,
    l: Box<LogicalExpression>,
    r: Box<LogicalExpression>,
}

/// A binary expression of arithmetic kind.
pub struct MathExpression {
    op: MathOp,
    l: Box<LogicalExpression>,
    r: Box<LogicalExpression>,
}

/// An aggregation over an inner expression.
pub struct AggregateExpression {
    op: AggregateOp,
    expr: Box<LogicalExpression>,
}

/// The closed set of expression node kinds.
pub enum LogicalExpression {
    Column(ColumnExpression),
    LiteralString(LiteralStringExpression),
    LiteralI64(LiteralI64Expression),
    Boolean(BooleanExpression),
    Math(MathExpression),
    Aggregate(AggregateExpression),
}

/// The mathematical value of an expression tree.
pub ghost enum ExprV {
    Column { name: Seq<char> },
    LiteralString { val: Seq<char> },
    LiteralI64 { val: int },
    Boolean { op: BooleanOp, l: Box<ExprV>, r: Box<ExprV> },
    Math { op: MathOp, l: Box<ExprV>, r: Box<ExprV> },
    Aggregate { op: AggregateOp, expr: Box<ExprV> },
}

/// The mathematical value of an expression node.
pub closed spec fn expr_view(e: LogicalExpression) -> ExprV
    decreases e,
{
    match e {
        LogicalExpression::Column(c) => ExprV::Column { name: c.name@ },
        LogicalExpression::LiteralString(l) => ExprV::LiteralString { val: l.val@ },
        LogicalExpression::LiteralI64(l) => ExprV::LiteralI64 { val: l.val as int },
        LogicalExpression::Boolean(b) => ExprV::Boolean {
            op: b.op,
            l: Box::new(expr_view(*b.l)),
            r: Box::new(expr_view(*b.r)),
        },
        LogicalExpression::Math(m) => ExprV::Math {
            op: m.op,
            l: Box::new(expr_view(*m.l)),
            r: Box::new(expr_view(*m.r)),
        },
        LogicalExpression::Aggregate(a) => ExprV::Aggregate {
            op: a.op,
            expr: Box::new(expr_view(*a.expr)),
        },
    }
}

impl View for LogicalExpression {
    type V = ExprV;

    open spec fn view(&self) -> ExprV {
        expr_view(*self)
    }
}

impl DeepView for LogicalExpression {
    type V = ExprV;

    open spec fn deep_view(&self) -> ExprV {
        expr_view(*self)
    }
}

impl View for ColumnExpression {
    type V = ExprV;

    closed spec fn view(&self) -> ExprV {
        ExprV::Column { name: self.name@ }
    }
}

impl View for LiteralStringExpression {
    type V = ExprV;

    closed spec fn view(&self) -> ExprV {
        ExprV::LiteralString { val: self.val@ }
    }
}

impl View for LiteralI64Expression {
    type V = ExprV;

    closed spec fn view(&self) -> ExprV {
        ExprV::LiteralI64 { val: self.val as int }
    }
}

impl View for BooleanExpression {
    type V = ExprV;

    closed spec fn view(&self) -> ExprV {
        ExprV::Boolean {
            op: self.op,
            l: Box::new(expr_view(*self.l)),
            r: Box::new(expr_view(*self.r)),
        }
    }
}

impl View for MathExpression {
    type V = ExprV;

    closed spec fn view(&self) -> ExprV {
        ExprV::Math {
            op: self.op,
            l: Box::new(expr_view(*self.l)),
            r: Box::new(expr_view(*self.r)),
        }
    }
}

impl View for AggregateExpression {
    type V = ExprV;

    closed spec fn view(&self) -> ExprV {
        ExprV::Aggregate { op: self.op, expr: Box::new(expr_view(*self.expr)) }
    }
}

impl DeepView for AggregateExpression {
    type V = ExprV;

    open spec fn deep_view(&self) -> ExprV {
        self@
    }
}

/// The field an expression derives against an input schema, or the column
/// name that failed to resolve.
///
/// A literal's field is named after the literal's own textual form, not a
/// caller-supplied alias, so two equal literals in one projection derive
/// two fields of the same name. A boolean expression derives a `Boolean`
/// field named after its kind without consulting its operands. A math
/// expression takes its type from its left operand only; the right operand
/// is not consulted. An aggregate takes its inner expression's type and is
/// named after its kind.
pub open spec fn expr_field(e: ExprV, s: Seq<FieldV>) -> Result<FieldV, Seq<char>>
    decreases e,
{
    match e {
        ExprV::Column { name } => match lookup_field(s, name) {
            Some(f) => Ok(f),
            None => Err(name),
        },
        ExprV::LiteralString { val } => Ok(
            FieldV { name: val, data_type: DataType::Utf8, nullable: false },
        ),
        ExprV::LiteralI64 { val } => Ok(
            FieldV { name: int_display(val), data_type: DataType::Int64, nullable: false },
        ),
        ExprV::Boolean { op, .. } => Ok(
            FieldV { name: boolean_op_name(op), data_type: DataType::Boolean, nullable: false },
        ),
        ExprV::Math { op, l, .. } => match expr_field(*l, s) {
            Ok(f) => Ok(
                FieldV { name: math_op_name(op), data_type: f.data_type, nullable: false },
            ),
            Err(n) => Err(n),
        },
        ExprV::Aggregate { op, expr } => match expr_field(*expr, s) {
            Ok(f) => Ok(
                FieldV { name: aggregate_op_name(op), data_type: f.data_type, nullable: false },
            ),
            Err(n) => Err(n),
        },
    }
}

/// The rendered text of an expression: a bare column name; a quoted string
/// literal; decimal digits; operands joined by the kind's symbol, without
/// spaces for boolean kinds and with spaces for math kinds; or
/// `kind(inner)` for aggregates.
pub open spec fn expr_display(e: ExprV) -> Seq<char>
    decreases e,
{
    match e {
        ExprV::Column { name } => name,
        ExprV::LiteralString { val } => seq!['\''] + val + seq!['\''],
        ExprV::LiteralI64 { val } => int_display(val),
        ExprV::Boolean { op, l, r } => expr_display(*l) + boolean_op_symbol(op) + expr_display(*r),
        ExprV::Math { op, l, r } => expr_display(*l) + seq![' '] + math_op_symbol(op) + seq![' ']
            + expr_display(*r),
        ExprV::Aggregate { op, expr } => aggregate_op_name(op) + seq!['('] + expr_display(*expr)
            + seq![')'],
    }
}

/// The name a boolean expression's derived field carries, as text.
fn boolean_op_name_str(op: BooleanOp) -> (r: &'static str)
    ensures
        r@ == boolean_op_name(op),
{
    match op {
        BooleanOp::Eq => "eq",
        BooleanOp::Neq => "neq",
        BooleanOp::Gt => "gt",
        BooleanOp::Lt => "lt",
        BooleanOp::GtEq => "gteq",
        BooleanOp::LtEq => "lteq",
        BooleanOp::And => "and",
        BooleanOp::Or => "or",
    }
}

/// The symbol a boolean expression renders between its operands, as text.
fn boolean_op_symbol_str(op: BooleanOp) -> (r: &'static str)
    ensures
        r@ == boolean_op_symbol(op),
{
    match op {
        BooleanOp::Eq => "=",
        BooleanOp::Neq => "!=",
        BooleanOp::Gt => ">",
        BooleanOp::Lt => "<",
        BooleanOp::GtEq => ">=",
        BooleanOp::LtEq => "<=",
        BooleanOp::And => "AND",
        BooleanOp::Or => "OR",
    }
}

/// The name a math expression's derived field carries, as text.
fn math_op_name_str(op: MathOp) -> (r: &'static str)
    ensures
        r@ == math_op_name(op),
{
    match op {
        MathOp::Add => "add",
        MathOp::Subtract => "subtract",
        MathOp::Multiply => "mult",
        MathOp::Divide => "div",
        MathOp::Modulus => "modulus",
    }
}

/// The symbol a math expression renders between its operands, as text.
fn math_op_symbol_str(op: MathOp) -> (r: &'static str)
    ensures
        r@ == math_op_symbol(op),
{
    match op {
        MathOp::Add => "+",
        MathOp::Subtract => "-",
        MathOp::Multiply => "*",
        MathOp::Divide => "/",
        MathOp::Modulus => "%",
    }
}

/// The lowercase name of an aggregation kind, as text.
fn aggregate_op_name_str(op: AggregateOp) -> (r: &'static str)
    ensures
        r@ == aggregate_op_name(op),
{
    match op {
        AggregateOp::Sum => "sum",
        AggregateOp::Min => "min",
        AggregateOp::Max => "max",
        AggregateOp::Avg => "avg",
    }
}

impl ColumnExpression {
    /// Builds a reference to the column called `name`.
    pub fn new(name: String) -> (r: ColumnExpression)
        ensures
            r@ == (ExprV::Column { name: name@ }),
    {
        ColumnExpression { name }
    }

    /// Wraps the node as an expression.
    pub fn into_expr(self) -> (r: LogicalExpression)
        ensures
            r@ == self@,
    {
        LogicalExpression::Column(self)
    }
}

impl LiteralStringExpression {
    /// Builds a string literal.
    pub fn new(val: String) -> (r: LiteralStringExpression)
        ensures
            r@ == (ExprV::LiteralString { val: val@ }),
    {
        LiteralStringExpression { val }
    }

    /// Wraps the node as an expression.
    pub fn into_expr(self) -> (r: LogicalExpression)
        ensures
            r@ == self@,
    {
        LogicalExpression::LiteralString(self)
    }
}

impl LiteralI64Expression {
    /// Builds an integer literal.
    pub fn new(val: i64) -> (r: LiteralI64Expression)
        ensures
            r@ == (ExprV::LiteralI64 { val: val as int }),
    {
        LiteralI64Expression { val }
    }

    /// Wraps the node as an expression.
    pub fn into_expr(self) -> (r: LogicalExpression)
        ensures
            r@ == self@,
    {
        LogicalExpression::LiteralI64(self)
    }
}

impl BooleanExpression {
    /// Builds a boolean expression of the given kind.
    fn of_op(op: BooleanOp, l: LogicalExpression, r: LogicalExpression) -> (b: BooleanExpression)
        ensures
            b@ == (ExprV::Boolean { op, l: Box::new(l@), r: Box::new(r@) }),
    {
        BooleanExpression { op, l: Box::new(l), r: Box::new(r) }
    }

    /// An equality comparison of the operands.
    pub fn eq(l: LogicalExpression, r: LogicalExpression) -> (b: BooleanExpression)
        ensures
            b@ == (ExprV::Boolean { op: BooleanOp::Eq, l: Box::new(l@), r: Box::new(r@) }),
    {
        BooleanExpression::of_op(BooleanOp::Eq, l, r)
    }

    /// An inequality comparison of the operands.
    pub fn neq(l: LogicalExpression, r: LogicalExpression) -> (b: BooleanExpression)
        ensures
            b@ == (ExprV::Boolean { op: BooleanOp::Neq, l: Box::new(l@), r: Box::new(r@) }),
    {
        BooleanExpression::of_op(BooleanOp::Neq, l, r)
    }

    /// A greater-than comparison of the operands.
    pub fn gt(l: LogicalExpression, r: LogicalExpression) -> (b: BooleanExpression)
        ensures
            b@ == (ExprV::Boolean { op: BooleanOp::Gt, l: Box::new(l@), r: Box::new(r@) }),
    {
        BooleanExpression::of_op(BooleanOp::Gt, l, r)
    }

    /// A less-than comparison of the operands.
    pub fn lt(l: LogicalExpression, r: LogicalExpression) -> (b: BooleanExpression)
        ensures
            b@ == (ExprV::Boolean { op: BooleanOp::Lt, l: Box::new(l@), r: Box::new(r@) }),
    {
        BooleanExpression::of_op(BooleanOp::Lt, l, r)
    }

    /// A greater-than-or-equal comparison of the operands.
    pub fn gteq(l: LogicalExpression, r: LogicalExpression) -> (b: BooleanExpression)
        ensures
            b@ == (ExprV::Boolean { op: BooleanOp::GtEq, l: Box::new(l@), r: Box::new(r@) }),
    {
        BooleanExpression::of_op(BooleanOp::GtEq, l, r)
    }

    /// A less-than-or-equal comparison of the operands.
    pub fn lteq(l: LogicalExpression, r: LogicalExpression) -> (b: BooleanExpression)
        ensures
            b@ == (ExprV::Boolean { op: BooleanOp::LtEq, l: Box::new(l@), r: Box::new(r@) }),
    {
        BooleanExpression::of_op(BooleanOp::LtEq, l, r)
    }

    /// A conjunction of the operands.
    pub fn and(l: LogicalExpression, r: LogicalExpression) -> (b: BooleanExpression)
        ensures
            b@ == (ExprV::Boolean { op: BooleanOp::And, l: Box::new(l@), r: Box::new(r@) }),
    {
        BooleanExpression::of_op(BooleanOp::And, l, r)
    }

    /// A disjunction of the operands.
    pub fn or(l: LogicalExpression, r: LogicalExpression) -> (b: BooleanExpression)
        ensures
            b@ == (ExprV::Boolean { op: BooleanOp::Or, l: Box::new(l@), r: Box::new(r@) }),
    {
        BooleanExpression::of_op(BooleanOp::Or, l, r)
    }

    /// Wraps the node as an expression.
    pub fn into_expr(self) -> (r: LogicalExpression)
        ensures
            r@ == self@,
    {
        LogicalExpression::Boolean(self)
    }
}

impl BinaryExpression for BooleanExpression {
    open spec fn name_spec(&self) -> Seq<char> {
        boolean_op_name(self@->Boolean_op)
    }

    open spec fn symbol_spec(&self) -> Seq<char> {
        boolean_op_symbol(self@->Boolean_op)
    }

    open spec fn left_spec(&self) -> ExprV {
        *self@->Boolean_l
    }

    open spec fn right_spec(&self) -> ExprV {
        *self@->Boolean_r
    }

    fn name(&self) -> (r: String) {
        boolean_op_name_str(self.op).to_owned()
    }

    fn op(&self) -> (r: String) {
        boolean_op_symbol_str(self.op).to_owned()
    }

    fn l(&self) -> (r: &LogicalExpression) {
        &self.l
    }

    fn r(&self) -> (r: &LogicalExpression) {
        &self.r
    }
}

impl MathExpression {
    /// Builds a math expression of the given kind.
    fn of_op(op: MathOp, l: LogicalExpression, r: LogicalExpression) -> (m: MathExpression)
        ensures
            m@ == (ExprV::Math { op, l: Box::new(l@), r: Box::new(r@) }),
    {
        MathExpression { op, l: Box::new(l), r: Box::new(r) }
    }

    /// A sum of the operands.
    pub fn add(l: LogicalExpression, r: LogicalExpression) -> (m: MathExpression)
        ensures
            m@ == (ExprV::Math { op: MathOp::Add, l: Box::new(l@), r: Box::new(r@) }),
    {
        MathExpression::of_op(MathOp::Add, l, r)
    }

    /// A difference of the operands.
    pub fn subtract(l: LogicalExpression, r: LogicalExpression) -> (m: MathExpression)
        ensures
            m@ == (ExprV::Math { op: MathOp::Subtract, l: Box::new(l@), r: Box::new(r@) }),
    {
        MathExpression::of_op(MathOp::Subtract, l, r)
    }

    /// A product of the operands.
    pub fn multiply(l: LogicalExpression, r: LogicalExpression) -> (m: MathExpression)
        ensures
            m@ == (ExprV::Math { op: MathOp::Multiply, l: Box::new(l@), r: Box::new(r@) }),
    {
        MathExpression::of_op(MathOp::Multiply, l, r)
    }

    /// A quotient of the operands.
    pub fn divide(l: LogicalExpression, r: LogicalExpression) -> (m: MathExpression)
        ensures
            m@ == (ExprV::Math { op: MathOp::Divide, l: Box::new(l@), r: Box::new(r@) }),
    {
        MathExpression::of_op(MathOp::Divide, l, r)
    }

    /// A remainder of the operands.
    pub fn modulus(l: LogicalExpression, r: LogicalExpression) -> (m: MathExpression)
        ensures
            m@ == (ExprV::Math { op: MathOp::Modulus, l: Box::new(l@), r: Box::new(r@) }),
    {
        MathExpression::of_op(MathOp::Modulus, l, r)
    }

    /// Wraps the node as an expression.
    pub fn into_expr(self) -> (r: LogicalExpression)
        ensures
            r@ == self@,
    {
        LogicalExpression::Math(self)
    }
}

impl BinaryExpression for MathExpression {
    open spec fn name_spec(&self) -> Seq<char> {
        math_op_name(self@->Math_op)
    }

    open spec fn symbol_spec(&self) -> Seq<char> {
        math_op_symbol(self@->Math_op)
    }

    open spec fn left_spec(&self) -> ExprV {
        *self@->Math_l
    }

    open spec fn right_spec(&self) -> ExprV {
        *self@->Math_r
    }

    fn name(&self) -> (r: String) {
        math_op_name_str(self.op).to_owned()
    }

    fn op(&self) -> (r: String) {
        math_op_symbol_str(self.op).to_owned()
    }

    fn l(&self) -> (r: &LogicalExpression) {
        &self.l
    }

    fn r(&self) -> (r: &LogicalExpression) {
        &self.r
    }
}

impl AggregateExpression {
    /// Builds an aggregate expression of the given kind.
    fn of_op(op: AggregateOp, input: LogicalExpression) -> (a: AggregateExpression)
        ensures
            a@ == (ExprV::Aggregate { op, expr: Box::new(input@) }),
    {
        AggregateExpression { op, expr: Box::new(input) }
    }

    /// A sum of the input.
    pub fn sum(input: LogicalExpression) -> (a: AggregateExpression)
        ensures
            a@ == (ExprV::Aggregate { op: AggregateOp::Sum, expr: Box::new(input@) }),
    {
        AggregateExpression::of_op(AggregateOp::Sum, input)
    }

    /// A minimum of the input.
    pub fn min(input: LogicalExpression) -> (a: AggregateExpression)
        ensures
            a@ == (ExprV::Aggregate { op: AggregateOp::Min, expr: Box::new(input@) }),
    {
        AggregateExpression::of_op(AggregateOp::Min, input)
    }

    /// A maximum of the input.
    pub fn max(input: LogicalExpression) -> (a: AggregateExpression)
        ensures
            a@ == (ExprV::Aggregate { op: AggregateOp::Max, expr: Box::new(input@) }),
    {
        AggregateExpression::of_op(AggregateOp::Max, input)
    }

    /// An average of the input.
    pub fn avg(input: LogicalExpression) -> (a: AggregateExpression)
        ensures
            a@ == (ExprV::Aggregate { op: AggregateOp::Avg, expr: Box::new(input@) }),
    {
        AggregateExpression::of_op(AggregateOp::Avg, input)
    }

    /// Wraps the node as an expression.
    pub fn into_expr(self) -> (r: LogicalExpression)
        ensures
            r@ == self@,
    {
        LogicalExpression::Aggregate(self)
    }

    /// Derives the field this aggregate contributes against `input_schema`.
    pub fn derive_field(&self, input_schema: &Schema) -> (r: Result<Field, PlanError>)
        ensures
            match r {
                Ok(f) => expr_field(self@, input_schema@) == Ok::<FieldV, Seq<char>>(f@),
                Err(e) => expr_field(self@, input_schema@) == Err::<FieldV, Seq<char>>(e@),
            },
    {
        match self.expr.derive_field(input_schema) {
            Ok(f) => Ok(
                Field::new(aggregate_op_name_str(self.op).to_owned(), f.data_type, false),
            ),
            Err(e) => Err(e),
        }
    }

    /// Renders the aggregate as `kind(inner)`.
    pub fn to_text(&self) -> (r: String)
        ensures
            r@ == expr_display(self@),
    {
        let mut s = aggregate_op_name_str(self.op).to_owned();
        s.append("(");
        s.append(self.expr.to_text().as_str());
        s.append(")");
        proof {
            reveal_strlit("(");
            reveal_strlit(")");
            assert(s@ =~= expr_display(self@));
        }
        s
    }
}

impl LogicalExpression {
    /// Derives the field this expression contributes against `input_schema`:
    /// the resolved column for a column reference, a synthesized non-nullable
    /// field for the other kinds. Returns the offending column name when a
    /// consulted column fails to resolve.
    pub fn derive_field(&self, input_schema: &Schema) -> (r: Result<Field, PlanError>)
        ensures
            match r {
                Ok(f) => expr_field(self@, input_schema@) == Ok::<FieldV, Seq<char>>(f@),
                Err(e) => expr_field(self@, input_schema@) == Err::<FieldV, Seq<char>>(e@),
            },
        decreases *self,
    {
        match self {
            LogicalExpression::Column(c) => match input_schema.lookup(&c.name) {
                Some(f) => Ok(f),
                None => Err(PlanError::UnknownColumn(c.name.clone())),
            },
            LogicalExpression::LiteralString(l) => Ok(
                Field::new(l.val.clone(), DataType::Utf8, false),
            ),
            LogicalExpression::LiteralI64(l) => Ok(
                Field::new(i64_to_text(l.val), DataType::Int64, false),
            ),
            LogicalExpression::Boolean(b) => Ok(
                Field::new(boolean_op_name_str(b.op).to_owned(), DataType::Boolean, false),
            ),
            LogicalExpression::Math(m) => match m.l.derive_field(input_schema) {
                Ok(f) => Ok(
                    Field::new(math_op_name_str(m.op).to_owned(), f.data_type, false),
                ),
                Err(e) => Err(e),
            },
            LogicalExpression::Aggregate(a) => match a.expr.derive_field(input_schema) {
                Ok(f) => Ok(
                    Field::new(aggregate_op_name_str(a.op).to_owned(), f.data_type, false),
                ),
                Err(e) => Err(e),
            },
        }
    }

    /// Renders the expression as text.
    pub fn to_text(&self) -> (r: String)
        ensures
            r@ == expr_display(self@),
        decreases *self,
    {
        match self {
            LogicalExpression::Column(c) => c.name.clone(),
            LogicalExpression::LiteralString(l) => {
                let mut s = "'".to_owned();
                s.append(l.val.as_str());
                s.append("'");
                proof {
                    reveal_strlit("'");
                    assert(s@ =~= expr_display(self@));
                }
                s
            },
            LogicalExpression::LiteralI64(l) => i64_to_text(l.val),
            LogicalExpression::Boolean(b) => {
                let mut s = b.l.to_text();
                s.append(boolean_op_symbol_str(b.op));
                s.append(b.r.to_text().as_str());
                s
            },
            LogicalExpression::Math(m) => {
                let mut s = m.l.to_text();
                s.append(" ");
                s.append(math_op_symbol_str(m.op));
                s.append(" ");
                s.append(m.r.to_text().as_str());
                proof {
                    reveal_strlit(" ");
                    assert(s@ =~= expr_display(self@));
                }
                s
            },
            LogicalExpression::Aggregate(a) => {
                let mut s = aggregate_op_name_str(a.op).to_owned();
                s.append("(");
                s.append(a.expr.to_text().as_str());
                s.append(")");
                proof {
                    reveal_strlit("(");
                    reveal_strlit(")");
                    assert(s@ =~= expr_display(self@));
                }
                s
            },
        }
    }
}

} // verus!

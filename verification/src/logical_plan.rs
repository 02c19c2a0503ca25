//! The logical-plan model: a closed set of plan node kinds, each able to
//! derive its output schema, expose its child plans, render one line of
//! text, and format its subtree as an indented multi-line dump.

use std::sync::Arc;

use vstd::prelude::*;

use crate::error::PlanError;
use crate::expression::{
    expr_display, expr_field, AggregateExpression, ExprV, LogicalExpression,
};
use crate::schema::{Field, FieldV, Schema};
use crate::views::{lemma_deep_view_concat, lemma_deep_view_push};

verus! {

/// A leaf node: a scan of a named source with a declared schema and a stored
/// projection. The physical source behind the path is bound at the
/// input/output boundary, outside the plan model; the node keeps the declared
/// schema so that the two cannot silently diverge.
pub struct Scan {
    path: String,
    schema: Schema,
    projection: Vec<String>,
}

/// A projection node: derives one output column per expression, in order.
pub struct Projection {
    input: Arc<LogicalPlan>,
    expr: Vec<LogicalExpression>,
}

/// A selection (filter) node: keeps its input's schema unchanged.
pub struct Selection {
    input: Arc<LogicalPlan>,
    expr: Box<LogicalExpression>,
}

/// An aggregate node: group-derived columns first, then aggregate-derived
/// columns.
pub struct Aggregate {
    input: Arc<LogicalPlan>,
    groupexpr: Vec<LogicalExpression>,
    aggregateexpr: Vec<AggregateExpression>,
}

/// The closed set of plan node kinds.
pub enum LogicalPlan {
    Scan(Scan),
    Projection(Projection),
    Selection(Selection),
    Aggregate(Aggregate),
}

/// The mathematical value of a plan tree.
pub ghost enum PlanV {
    Scan { path: Seq<char>, schema: Seq<FieldV>, projection: Seq<Seq<char>> },
    Projection { input: Box<PlanV>, exprs: Seq<ExprV> },
    Selection { input: Box<PlanV>, predicate: ExprV },
    Aggregate { input: Box<PlanV>, groups: Seq<ExprV>, aggs: Seq<ExprV> },
}

/// The mathematical value of a plan node.
pub closed spec fn plan_view(p: LogicalPlan) -> PlanV
    decreases p,
{
    match p {
        LogicalPlan::Scan(s) => PlanV::Scan {
            path: s.path@,
            schema: s.schema@,
            projection: s.projection.deep_view(),
        },
        LogicalPlan::Projection(pr) => PlanV::Projection {
            input: Box::new(plan_view(*pr.input)),
            exprs: pr.expr.deep_view(),
        },
        LogicalPlan::Selection(se) => PlanV::Selection {
            input: Box::new(plan_view(*se.input)),
            predicate: (*se.expr)@,
        },
        LogicalPlan::Aggregate(a) => PlanV::Aggregate {
            input: Box::new(plan_view(*a.input)),
            groups: a.groupexpr.deep_view(),
            aggs: a.aggregateexpr.deep_view(),
        },
    }
}

impl View for LogicalPlan {
    type V = PlanV;

    open spec fn view(&self) -> PlanV {
        plan_view(*self)
    }
}

impl DeepView for LogicalPlan {
    type V = PlanV;

    open spec fn deep_view(&self) -> PlanV {
        plan_view(*self)
    }
}

impl View for Scan {
    type V = PlanV;

    closed spec fn view(&self) -> PlanV {
        PlanV::Scan {
            path: self.path@,
            schema: self.schema@,
            projection: self.projection.deep_view(),
        }
    }
}

impl View for Projection {
    type V = PlanV;

    closed spec fn view(&self) -> PlanV {
        PlanV::Projection {
            input: Box::new(plan_view(*self.input)),
            exprs: self.expr.deep_view(),
        }
    }
}

impl View for Selection {
    type V = PlanV;

    closed spec fn view(&self) -> PlanV {
        PlanV::Selection { input: Box::new(plan_view(*self.input)), predicate: (*self.expr)@ }
    }
}

impl View for Aggregate {
    type V = PlanV;

    closed spec fn view(&self) -> PlanV {
        PlanV::Aggregate {
            input: Box::new(plan_view(*self.input)),
            groups: self.groupexpr.deep_view(),
            aggs: self.aggregateexpr.deep_view(),
        }
    }
}

/// The fields a list of expressions derives against an input schema, in
/// order, or the name carried by the first failing expression.
pub open spec fn exprs_fields(es: Seq<ExprV>, s: Seq<FieldV>) -> Result<Seq<FieldV>, Seq<char>>
    decreases es.len(),
{
    if es.len() == 0 {
        Ok(Seq::empty())
    } else {
        match exprs_fields(es.drop_last(), s) {
            Ok(fs) => match expr_field(es.last(), s) {
                Ok(f) => Ok(fs.push(f)),
                Err(n) => Err(n),
            },
            Err(n) => Err(n),
        }
    }
}

/// When every expression before `i` derives a field and the expression at
/// `i` fails, the whole list fails with that expression's error.
pub proof fn lemma_exprs_fields_first_error(es: Seq<ExprV>, s: Seq<FieldV>, i: int)
    requires
        0 <= i < es.len(),
        exprs_fields(es.take(i), s) is Ok,
        expr_field(es[i], s) is Err,
    ensures
        exprs_fields(es, s) == Err::<Seq<FieldV>, Seq<char>>(expr_field(es[i], s)->Err_0),
    decreases es.len(),
{
    if i == es.len() - 1 {
        assert(es.take(i) =~= es.drop_last());
    } else {
        assert(es.drop_last().take(i) =~= es.take(i));
        lemma_exprs_fields_first_error(es.drop_last(), s, i);
    }
}

/// The schema a plan derives: a scan's declared schema verbatim (its stored
/// projection is not reflected — a documented quirk of the model); one field
/// per expression for a projection; the input's schema unchanged for a
/// selection; group fields then aggregate fields for an aggregate. An
/// `UnknownColumn` failure anywhere in the derivation is the derivation's
/// result.
pub open spec fn plan_schema(p: PlanV) -> Result<Seq<FieldV>, Seq<char>>
    decreases p,
{
    match p {
        PlanV::Scan { schema, .. } => Ok(schema),
        PlanV::Projection { input, exprs } => match plan_schema(*input) {
            Ok(s) => exprs_fields(exprs, s),
            Err(n) => Err(n),
        },
        PlanV::Selection { input, .. } => plan_schema(*input),
        PlanV::Aggregate { input, groups, aggs } => match plan_schema(*input) {
            Ok(s) => match exprs_fields(groups, s) {
                Ok(g) => match exprs_fields(aggs, s) {
                    Ok(a) => Ok(g + a),
                    Err(n) => Err(n),
                },
                Err(n) => Err(n),
            },
            Err(n) => Err(n),
        },
    }
}

/// The child plans of a node, in order.
pub open spec fn plan_children(p: PlanV) -> Seq<PlanV> {
    match p {
        PlanV::Scan { .. } => Seq::empty(),
        PlanV::Projection { input, .. } => seq![*input],
        PlanV::Selection { input, .. } => seq![*input],
        PlanV::Aggregate { input, .. } => seq![*input],
    }
}

/// The rendered texts of a list of expressions, joined by `", "`.
pub open spec fn exprs_display_join(es: Seq<ExprV>) -> Seq<char>
    decreases es.len(),
{
    if es.len() == 0 {
        Seq::empty()
    } else if es.len() == 1 {
        expr_display(es[0])
    } else {
        exprs_display_join(es.drop_last()) + ", "@ + expr_display(es.last())
    }
}

/// A name wrapped in double quotes.
pub open spec fn quoted(n: Seq<char>) -> Seq<char> {
    "\""@ + n + "\""@
}

/// Quoted names joined by `", "`.
pub open spec fn names_join(ns: Seq<Seq<char>>) -> Seq<char>
    decreases ns.len(),
{
    if ns.len() == 0 {
        Seq::empty()
    } else if ns.len() == 1 {
        quoted(ns[0])
    } else {
        names_join(ns.drop_last()) + ", "@ + quoted(ns.last())
    }
}

/// A list of names rendered as a bracketed list of quoted names. Names are
/// quoted verbatim; they are expected not to contain quote characters.
pub open spec fn names_display(ns: Seq<Seq<char>>) -> Seq<char> {
    "["@ + names_join(ns) + "]"@
}

/// The one-line rendering of a plan node.
pub open spec fn plan_display(p: PlanV) -> Seq<char> {
    match p {
        PlanV::Scan { path, projection, .. } => "Scan: "@ + path + (if projection.len() == 0 {
            ", projection=None"@
        } else {
            ", projection="@ + names_display(projection)
        }),
        PlanV::Projection { exprs, .. } => "Projection: "@ + exprs_display_join(exprs),
        PlanV::Selection { predicate, .. } => "Filter: "@ + expr_display(predicate),
        PlanV::Aggregate { groups, aggs, .. } => "Aggregate: groupExpr="@ + exprs_display_join(
            groups,
        ) + ", aggregateExpr="@ + exprs_display_join(aggs),
    }
}

/// The multi-line rendering of a plan tree: a pre-order depth-first
/// traversal, each node's line preceded by `prefix`, each child's subtree
/// indented by two further spaces.
pub open spec fn plan_format(p: PlanV, prefix: Seq<char>) -> Seq<char>
    decreases p,
{
    prefix + plan_display(p) + "\n"@ + (match p {
        PlanV::Scan { .. } => Seq::<char>::empty(),
        PlanV::Projection { input, .. } => plan_format(*input, prefix + "  "@),
        PlanV::Selection { input, .. } => plan_format(*input, prefix + "  "@),
        PlanV::Aggregate { input, .. } => plan_format(*input, prefix + "  "@),
    })
}

/// Renders the texts of a list of expressions, joined by `", "`.
fn join_expr_texts(exprs: &Vec<LogicalExpression>) -> (r: String)
    ensures
        r@ == exprs_display_join(exprs.deep_view()),
{
    let ghost es = exprs.deep_view();
    let mut s = String::new();
    let n = exprs.len();
    let mut i: usize = 0;
    while i < n
        invariant
            n == exprs@.len(),
            es == exprs.deep_view(),
            es.len() == n,
            i <= n,
            s@ == exprs_display_join(es.take(i as int)),
        decreases n - i,
    {
        if i > 0 {
            s.append(", ");
        }
        s.append(exprs[i].to_text().as_str());
        proof {
            assert(es[i as int] == exprs@[i as int]@);
            assert(es.take(i + 1).drop_last() =~= es.take(i as int));
            assert(es.take(i + 1).last() == es[i as int]);
            if i == 0 {
                assert(s@ =~= exprs_display_join(es.take(1)));
            }
        }
        i = i + 1;
    }
    proof {
        assert(es.take(n as int) =~= es);
    }
    s
}

/// Renders the texts of a list of aggregate expressions, joined by `", "`.
fn join_aggregate_texts(exprs: &Vec<AggregateExpression>) -> (r: String)
    ensures
        r@ == exprs_display_join(exprs.deep_view()),
{
    let ghost es = exprs.deep_view();
    let mut s = String::new();
    let n = exprs.len();
    let mut i: usize = 0;
    while i < n
        invariant
            n == exprs@.len(),
            es == exprs.deep_view(),
            es.len() == n,
            i <= n,
            s@ == exprs_display_join(es.take(i as int)),
        decreases n - i,
    {
        if i > 0 {
            s.append(", ");
        }
        s.append(exprs[i].to_text().as_str());
        proof {
            assert(es[i as int] == exprs@[i as int]@);
            assert(es.take(i + 1).drop_last() =~= es.take(i as int));
            assert(es.take(i + 1).last() == es[i as int]);
            if i == 0 {
                assert(s@ =~= exprs_display_join(es.take(1)));
            }
        }
        i = i + 1;
    }
    proof {
        assert(es.take(n as int) =~= es);
    }
    s
}

/// Renders a list of names as a bracketed list of quoted names.
fn names_display_text(names: &Vec<String>) -> (r: String)
    ensures
        r@ == names_display(names.deep_view()),
{
    let ghost ns = names.deep_view();
    let mut s = String::new();
    let n = names.len();
    let mut i: usize = 0;
    while i < n
        invariant
            n == names@.len(),
            ns == names.deep_view(),
            ns.len() == n,
            i <= n,
            s@ == names_join(ns.take(i as int)),
        decreases n - i,
    {
        if i > 0 {
            s.append(", ");
        }
        s.append("\"");
        s.append(names[i].as_str());
        s.append("\"");
        proof {
            assert(ns[i as int] == names@[i as int]@);
            assert(ns.take(i + 1).drop_last() =~= ns.take(i as int));
            assert(ns.take(i + 1).last() == ns[i as int]);
            if i == 0 {
                assert(s@ =~= names_join(ns.take(1)));
            } else {
                assert(s@ =~= names_join(ns.take(i + 1)));
            }
        }
        i = i + 1;
    }
    let mut out = "[".to_owned();
    out.append(s.as_str());
    out.append("]");
    proof {
        assert(ns.take(n as int) =~= ns);
        assert(out@ =~= names_display(ns));
    }
    out
}

/// Derives the fields of a list of expressions against `input_schema`,
/// stopping at the first failure.
fn derive_fields(exprs: &Vec<LogicalExpression>, input_schema: &Schema) -> (r: Result<
    Vec<Field>,
    PlanError,
>)
    ensures
        match r {
            Ok(fs) => exprs_fields(exprs.deep_view(), input_schema@) == Ok::<
                Seq<FieldV>,
                Seq<char>,
            >(fs.deep_view()),
            Err(e) => exprs_fields(exprs.deep_view(), input_schema@) == Err::<
                Seq<FieldV>,
                Seq<char>,
            >(e@),
        },
{
    let ghost es = exprs.deep_view();
    let mut fields: Vec<Field> = Vec::new();
    proof {
        assert(es.take(0) =~= Seq::<ExprV>::empty());
        assert(fields.deep_view() =~= Seq::<FieldV>::empty());
    }
    let n = exprs.len();
    let mut i: usize = 0;
    while i < n
        invariant
            n == exprs@.len(),
            es == exprs.deep_view(),
            es.len() == n,
            i <= n,
            exprs_fields(es.take(i as int), input_schema@) == Ok::<Seq<FieldV>, Seq<char>>(
                fields.deep_view(),
            ),
        decreases n - i,
    {
        let ghost pre = fields;
        match exprs[i].derive_field(input_schema) {
            Ok(f) => {
                proof {
                    assert(es[i as int] == exprs@[i as int]@);
                }
                let ghost fv = f@;
                fields.push(f);
                proof {
                    lemma_deep_view_push(pre, fields, f);
                    assert(es.take(i + 1).drop_last() =~= es.take(i as int));
                    assert(es.take(i + 1).last() == es[i as int]);
                }
            },
            Err(e) => {
                proof {
                    assert(es[i as int] == exprs@[i as int]@);
                    lemma_exprs_fields_first_error(es, input_schema@, i as int);
                }
                return Err(e);
            },
        }
        i = i + 1;
    }
    proof {
        assert(es.take(n as int) =~= es);
    }
    Ok(fields)
}

/// Derives the fields of a list of aggregate expressions against
/// `input_schema`, stopping at the first failure.
fn derive_aggregate_fields(exprs: &Vec<AggregateExpression>, input_schema: &Schema) -> (r: Result<
    Vec<Field>,
    PlanError,
>)
    ensures
        match r {
            Ok(fs) => exprs_fields(exprs.deep_view(), input_schema@) == Ok::<
                Seq<FieldV>,
                Seq<char>,
            >(fs.deep_view()),
            Err(e) => exprs_fields(exprs.deep_view(), input_schema@) == Err::<
                Seq<FieldV>,
                Seq<char>,
            >(e@),
        },
{
    let ghost es = exprs.deep_view();
    let mut fields: Vec<Field> = Vec::new();
    proof {
        assert(es.take(0) =~= Seq::<ExprV>::empty());
        assert(fields.deep_view() =~= Seq::<FieldV>::empty());
    }
    let n = exprs.len();
    let mut i: usize = 0;
    while i < n
        invariant
            n == exprs@.len(),
            es == exprs.deep_view(),
            es.len() == n,
            i <= n,
            exprs_fields(es.take(i as int), input_schema@) == Ok::<Seq<FieldV>, Seq<char>>(
                fields.deep_view(),
            ),
        decreases n - i,
    {
        let ghost pre = fields;
        match exprs[i].derive_field(input_schema) {
            Ok(f) => {
                proof {
                    assert(es[i as int] == exprs@[i as int]@);
                }
                fields.push(f);
                proof {
                    lemma_deep_view_push(pre, fields, f);
                    assert(es.take(i + 1).drop_last() =~= es.take(i as int));
                    assert(es.take(i + 1).last() == es[i as int]);
                }
            },
            Err(e) => {
                proof {
                    assert(es[i as int] == exprs@[i as int]@);
                    lemma_exprs_fields_first_error(es, input_schema@, i as int);
                }
                return Err(e);
            },
        }
        i = i + 1;
    }
    proof {
        assert(es.take(n as int) =~= es);
    }
    Ok(fields)
}

impl Scan {
    /// Builds a scan of `path` with the declared `schema`, keeping `projection`
    /// for the physical read.
    pub fn new(path: String, schema: Schema, projection: Vec<String>) -> (r: Scan)
        ensures
            r@ == (PlanV::Scan {
                path: path@,
                schema: schema@,
                projection: projection.deep_view(),
            }),
    {
        Scan { path, schema, projection }
    }

    /// The declared schema, verbatim. The stored projection is not
    /// reflected here: a documented quirk preserved from the model.
    pub fn schema(&self) -> (r: Schema)
        ensures
            plan_schema(self@) == Ok::<Seq<FieldV>, Seq<char>>(r@),
    {
        self.schema.clone()
    }

    /// Wraps the node as a plan.
    pub fn into_plan(self) -> (r: LogicalPlan)
        ensures
            r@ == self@,
    {
        LogicalPlan::Scan(self)
    }

    /// Renders the node's line of text.
    pub fn to_text(&self) -> (r: String)
        ensures
            r@ == plan_display(self@),
    {
        let mut s = "Scan: ".to_owned();
        s.append(self.path.as_str());
        if self.projection.len() == 0 {
            s.append(", projection=None");
            proof {
                assert(self.projection.deep_view().len() == 0);
                assert(s@ =~= plan_display(self@));
            }
        } else {
            s.append(", projection=");
            s.append(names_display_text(&self.projection).as_str());
            proof {
                assert(self.projection.deep_view().len() != 0);
                assert(s@ =~= plan_display(self@));
            }
        }
        s
    }
}

impl Projection {
    /// Builds a projection of `expr` over `input`, eagerly deriving its
    /// schema: when any expression fails to resolve, the error is returned
    /// and no node is produced.
    pub fn new(input: Arc<LogicalPlan>, expr: Vec<LogicalExpression>) -> (r: Result<
        Projection,
        PlanError,
    >)
        ensures
            ({
                let v = PlanV::Projection { input: Box::new(input@), exprs: expr.deep_view() };
                match r {
                    Ok(p) => p@ == v && plan_schema(v) is Ok,
                    Err(e) => plan_schema(v) == Err::<Seq<FieldV>, Seq<char>>(e@),
                }
            }),
    {
        let p = Projection { input, expr };
        match p.schema() {
            Ok(_) => Ok(p),
            Err(e) => Err(e),
        }
    }

    /// One derived field per expression, in order.
    pub fn schema(&self) -> (r: Result<Schema, PlanError>)
        ensures
            match r {
                Ok(s) => plan_schema(self@) == Ok::<Seq<FieldV>, Seq<char>>(s@),
                Err(e) => plan_schema(self@) == Err::<Seq<FieldV>, Seq<char>>(e@),
            },
        decreases *self,
    {
        let input_schema = match self.input.schema() {
            Ok(s) => s,
            Err(e) => {
                return Err(e);
            },
        };
        match derive_fields(&self.expr, &input_schema) {
            Ok(fs) => Ok(Schema::new(fs)),
            Err(e) => Err(e),
        }
    }

    /// Wraps the node as a plan.
    pub fn into_plan(self) -> (r: LogicalPlan)
        ensures
            r@ == self@,
    {
        LogicalPlan::Projection(self)
    }

    /// Renders the node's line of text.
    pub fn to_text(&self) -> (r: String)
        ensures
            r@ == plan_display(self@),
    {
        let mut s = "Projection: ".to_owned();
        s.append(join_expr_texts(&self.expr).as_str());
        s
    }
}

impl Selection {
    /// Builds a filter of `input` by the predicate `expr`. The predicate is
    /// not consulted for the schema, so construction cannot fail.
    pub fn new(input: Arc<LogicalPlan>, expr: LogicalExpression) -> (r: Selection)
        ensures
            r@ == (PlanV::Selection { input: Box::new(input@), predicate: expr@ }),
    {
        Selection { input, expr: Box::new(expr) }
    }

    /// The input's schema, unchanged.
    pub fn schema(&self) -> (r: Result<Schema, PlanError>)
        ensures
            match r {
                Ok(s) => plan_schema(self@) == Ok::<Seq<FieldV>, Seq<char>>(s@),
                Err(e) => plan_schema(self@) == Err::<Seq<FieldV>, Seq<char>>(e@),
            },
        decreases *self,
    {
        self.input.schema()
    }

    /// Wraps the node as a plan.
    pub fn into_plan(self) -> (r: LogicalPlan)
        ensures
            r@ == self@,
    {
        LogicalPlan::Selection(self)
    }

    /// Renders the node's line of text.
    pub fn to_text(&self) -> (r: String)
        ensures
            r@ == plan_display(self@),
    {
        let mut s = "Filter: ".to_owned();
        s.append(self.expr.to_text().as_str());
        s
    }
}

impl Aggregate {
    /// Builds an aggregate of `input`, eagerly deriving its schema: when any
    /// group or aggregate expression fails to resolve, the error is returned
    /// and no node is produced.
    pub fn new(
        input: Arc<LogicalPlan>,
        groupexpr: Vec<LogicalExpression>,
        aggregateexpr: Vec<AggregateExpression>,
    ) -> (r: Result<Aggregate, PlanError>)
        ensures
            ({
                let v = PlanV::Aggregate {
                    input: Box::new(input@),
                    groups: groupexpr.deep_view(),
                    aggs: aggregateexpr.deep_view(),
                };
                match r {
                    Ok(p) => p@ == v && plan_schema(v) is Ok,
                    Err(e) => plan_schema(v) == Err::<Seq<FieldV>, Seq<char>>(e@),
                }
            }),
    {
        let p = Aggregate { input, groupexpr, aggregateexpr };
        match p.schema() {
            Ok(_) => Ok(p),
            Err(e) => Err(e),
        }
    }

    /// Group-derived fields first, then aggregate-derived fields, each list
    /// in its original order.
    pub fn schema(&self) -> (r: Result<Schema, PlanError>)
        ensures
            match r {
                Ok(s) => plan_schema(self@) == Ok::<Seq<FieldV>, Seq<char>>(s@),
                Err(e) => plan_schema(self@) == Err::<Seq<FieldV>, Seq<char>>(e@),
            },
        decreases *self,
    {
        let input_schema = match self.input.schema() {
            Ok(s) => s,
            Err(e) => {
                return Err(e);
            },
        };
        let mut fields = match derive_fields(&self.groupexpr, &input_schema) {
            Ok(fs) => fs,
            Err(e) => {
                return Err(e);
            },
        };
        let mut agg_fields = match derive_aggregate_fields(&self.aggregateexpr, &input_schema) {
            Ok(fs) => fs,
            Err(e) => {
                return Err(e);
            },
        };
        let ghost pre = fields;
        let ghost pre_agg = agg_fields;
        fields.append(&mut agg_fields);
        proof {
            lemma_deep_view_concat(pre, pre_agg, fields);
        }
        Ok(Schema::new(fields))
    }

    /// Wraps the node as a plan.
    pub fn into_plan(self) -> (r: LogicalPlan)
        ensures
            r@ == self@,
    {
        LogicalPlan::Aggregate(self)
    }

    /// Renders the node's line of text.
    pub fn to_text(&self) -> (r: String)
        ensures
            r@ == plan_display(self@),
    {
        let mut s = "Aggregate: groupExpr=".to_owned();
        s.append(join_expr_texts(&self.groupexpr).as_str());
        s.append(", aggregateExpr=");
        s.append(join_aggregate_texts(&self.aggregateexpr).as_str());
        proof {
            assert(s@ =~= plan_display(self@));
        }
        s
    }
}

impl LogicalPlan {
    /// Derives the plan's output schema, or the first `UnknownColumn`
    /// failure anywhere in the derivation.
    pub fn schema(&self) -> (r: Result<Schema, PlanError>)
        ensures
            match r {
                Ok(s) => plan_schema(self@) == Ok::<Seq<FieldV>, Seq<char>>(s@),
                Err(e) => plan_schema(self@) == Err::<Seq<FieldV>, Seq<char>>(e@),
            },
        decreases *self,
    {
        match self {
            LogicalPlan::Scan(s) => Ok(s.schema()),
            LogicalPlan::Projection(p) => p.schema(),
            LogicalPlan::Selection(s) => s.schema(),
            LogicalPlan::Aggregate(a) => a.schema(),
        }
    }

    /// The child plans, in order: none for a scan, the single input
    /// otherwise.
    pub fn children(&self) -> (r: Vec<Arc<LogicalPlan>>)
        ensures
            r.deep_view() == plan_children(self@),
    {
        let mut v: Vec<Arc<LogicalPlan>> = Vec::new();
        match self {
            LogicalPlan::Scan(_) => {},
            LogicalPlan::Projection(p) => {
                v.push(p.input.clone());
            },
            LogicalPlan::Selection(s) => {
                v.push(s.input.clone());
            },
            LogicalPlan::Aggregate(a) => {
                v.push(a.input.clone());
            },
        }
        proof {
            assert(v.deep_view() =~= plan_children(self@));
        }
        v
    }

    /// Renders the node's line of text.
    pub fn to_text(&self) -> (r: String)
        ensures
            r@ == plan_display(self@),
    {
        match self {
            LogicalPlan::Scan(s) => s.to_text(),
            LogicalPlan::Projection(p) => p.to_text(),
            LogicalPlan::Selection(s) => s.to_text(),
            LogicalPlan::Aggregate(a) => a.to_text(),
        }
    }

    /// Renders the subtree rooted here, each line preceded by `prefix` and
    /// children indented by two further spaces.
    pub fn format_helper(&self, prefix: &str) -> (r: String)
        ensures
            r@ == plan_format(self@, prefix@),
        decreases *self,
    {
        let mut s = prefix.to_owned();
        s.append(self.to_text().as_str());
        s.append("\n");
        let mut child_prefix = prefix.to_owned();
        child_prefix.append("  ");
        match self {
            LogicalPlan::Scan(_) => {
                proof {
                    assert(s@ =~= plan_format(self@, prefix@));
                }
            },
            LogicalPlan::Projection(p) => {
                s.append(p.input.format_helper(child_prefix.as_str()).as_str());
                proof {
                    assert(s@ =~= plan_format(self@, prefix@));
                }
            },
            LogicalPlan::Selection(se) => {
                s.append(se.input.format_helper(child_prefix.as_str()).as_str());
                proof {
                    assert(s@ =~= plan_format(self@, prefix@));
                }
            },
            LogicalPlan::Aggregate(a) => {
                s.append(a.input.format_helper(child_prefix.as_str()).as_str());
                proof {
                    assert(s@ =~= plan_format(self@, prefix@));
                }
            },
        }
        s
    }

    /// Renders the whole tree: a pre-order depth-first dump, two spaces of
    /// indentation per depth level.
    pub fn format(&self) -> (r: String)
        ensures
            r@ == plan_format(self@, Seq::<char>::empty()),
    {
        let r = self.format_helper("");
        proof {
            reveal_strlit("");
            assert(""@ =~= Seq::<char>::empty());
        }
        r
    }
}

} // verus!

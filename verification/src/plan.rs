//! Database work as data: a plan is a list of SQL statements, each with what
//! counts as success and what to do when it fails. The caller runs the
//! statements one at a time and asks `next_step` what to do next, so every
//! decision about a database operation's result is taken here.

use vstd::prelude::*;

verus! {

/// A value bound to a `$n` placeholder of a statement.
pub enum SqlParam {
    Text(String),
    Int(i32),
    Bool(bool),
}

/// The mathematical value of a statement parameter.
pub enum SqlParamView {
    Text(Seq<char>),
    Int(i32),
    Bool(bool),
}

impl View for SqlParam {
    type V = SqlParamView;

    open spec fn view(&self) -> SqlParamView {
        match self {
            SqlParam::Text(s) => SqlParamView::Text(s@),
            SqlParam::Int(i) => SqlParamView::Int(*i),
            SqlParam::Bool(b) => SqlParamView::Bool(*b),
        }
    }
}

/// How a statement is sent to the database.
#[derive(Clone, Copy, Debug)]
pub enum StatementKind {
    /// Executed with its parameters; the outcome is the number of rows it changed.
    Execute,
    /// Run as a query; the outcome is the number of rows it returned.
    Query,
    /// Prepared only; the outcome is zero rows when preparation succeeded.
    Prepare,
    /// Sent as a batch of statements without parameters; zero rows on success.
    Batch,
}

/// What a plan does after a statement, for one kind of outcome.
#[derive(Clone, Copy, Debug)]
pub enum Verdict {
    /// Go on with the next statement.
    Continue,
    /// Go on with the next statement, but the plan will finish as failed.
    Flag,
    /// Stop; the plan has failed.
    Abort,
    /// Stop the program: the failure cannot be recovered from.
    Panic,
}

/// The outcome of running one statement.
#[derive(Clone, Copy, Debug)]
pub enum StatementOutcome {
    Failed,
    Rows(u64),
}

/// One SQL statement of a plan.
pub struct Statement {
    pub kind: StatementKind,
    pub sql: String,
    pub params: Vec<SqlParam>,
    /// What follows when the database reports an error.
    pub on_error: Verdict,
    /// What follows when the statement succeeds but no row was changed or returned.
    pub on_no_rows: Verdict,
}

/// The mathematical value of a statement.
pub struct StatementView {
    pub kind: StatementKind,
    pub sql: Seq<char>,
    pub params: Seq<SqlParamView>,
    pub on_error: Verdict,
    pub on_no_rows: Verdict,
}

impl View for Statement {
    type V = StatementView;

    open spec fn view(&self) -> StatementView {
        StatementView {
            kind: self.kind,
            sql: self.sql@,
            params: self.params@.map_values(|p: SqlParam| p@),
            on_error: self.on_error,
            on_no_rows: self.on_no_rows,
        }
    }
}

/// A sequence of statements run in order.
pub struct DbPlan {
    pub statements: Vec<Statement>,
}

impl View for DbPlan {
    type V = Seq<StatementView>;

    open spec fn view(&self) -> Seq<StatementView> {
        self.statements@.map_values(|s: Statement| s@)
    }
}

/// What to do next with a plan.
#[derive(Clone, Copy, Debug)]
pub enum PlanProgress {
    /// Run the statement at this index and report its outcome.
    Run(usize),
    /// The plan is over; `true` when every statement met its expectation.
    Finished(bool),
    /// A statement outcome whose verdict is `Panic` came up.
    Abandon,
}

/// What a statement's outcome leads to: an error and an empty result each
/// lead to what the statement says; rows always lead on.
pub open spec fn reaction(st: StatementView, outcome: StatementOutcome) -> Verdict {
    match outcome {
        StatementOutcome::Failed => st.on_error,
        StatementOutcome::Rows(n) => if n == 0 {
            st.on_no_rows
        } else {
            Verdict::Continue
        },
    }
}

/// Walking the statements from `i` on, in order (`ok` is false once some
/// statement was flagged): the first one without an outcome is to be run; an
/// outcome that aborts or panics ends the plan there; after the last
/// statement the plan finishes, as failed when some statement was flagged.
pub open spec fn progress_from(
    plan: Seq<StatementView>,
    outcomes: Seq<StatementOutcome>,
    i: int,
    ok: bool,
) -> PlanProgress
    decreases plan.len() - i,
{
    if i < 0 || i >= plan.len() {
        PlanProgress::Finished(ok)
    } else if i >= outcomes.len() {
        PlanProgress::Run(i as usize)
    } else {
        match reaction(plan[i], outcomes[i]) {
            Verdict::Continue => progress_from(plan, outcomes, i + 1, ok),
            Verdict::Flag => progress_from(plan, outcomes, i + 1, false),
            Verdict::Abort => PlanProgress::Finished(false),
            Verdict::Panic => PlanProgress::Abandon,
        }
    }
}

/// What to do with `plan` once its first statements have the given outcomes.
pub open spec fn progress(plan: Seq<StatementView>, outcomes: Seq<StatementOutcome>) -> PlanProgress {
    progress_from(plan, outcomes, 0, true)
}

/// A plan succeeded: it finished and nothing went wrong.
pub open spec fn succeeded(plan: Seq<StatementView>, outcomes: Seq<StatementOutcome>) -> bool {
    progress(plan, outcomes) == PlanProgress::Finished(true)
}

/// No statement of the plan merely flags a failure: every failure either is
/// accepted or stops the plan at once.
pub open spec fn is_strict(plan: Seq<StatementView>) -> bool {
    forall|i: int|
        0 <= i < plan.len() ==> !(#[trigger] plan[i].on_error is Flag) && !(
        plan[i].on_no_rows is Flag)
}

/// Tells the caller what to do next with `plan`, given the outcomes of the
/// statements run so far, in order.
pub fn next_step(plan: &DbPlan, outcomes: &Vec<StatementOutcome>) -> (p: PlanProgress)
    requires
        plan@.len() < usize::MAX,
    ensures
        p == progress(plan@, outcomes@),
{
    let n = plan.statements.len();
    let mut ok = true;
    let mut i: usize = 0;
    while i < n
        invariant
            n == plan@.len(),
            n < usize::MAX,
            i <= n,
            progress(plan@, outcomes@) == progress_from(plan@, outcomes@, i as int, ok),
        decreases n - i,
    {
        if i >= outcomes.len() {
            return PlanProgress::Run(i);
        }
        let st = &plan.statements[i];
        assert(st@ == plan@[i as int]);
        let verdict = match outcomes[i] {
            StatementOutcome::Failed => st.on_error,
            StatementOutcome::Rows(r) => if r == 0 {
                st.on_no_rows
            } else {
                Verdict::Continue
            },
        };
        match verdict {
            Verdict::Continue => {},
            Verdict::Flag => {
                ok = false;
            },
            Verdict::Abort => {
                return PlanProgress::Finished(false);
            },
            Verdict::Panic => {
                return PlanProgress::Abandon;
            },
        }
        i = i + 1;
    }
    PlanProgress::Finished(ok)
}

/// A plan with no statements has succeeded before anything was run.
pub proof fn lemma_empty_plan_succeeds(outcomes: Seq<StatementOutcome>)
    ensures
        succeeded(Seq::<StatementView>::empty(), outcomes),
{
}

proof fn lemma_progress_from_all_continue(
    plan: Seq<StatementView>,
    outcomes: Seq<StatementOutcome>,
    i: int,
)
    requires
        0 <= i <= plan.len(),
    ensures
        (progress_from(plan, outcomes, i, true) == PlanProgress::Finished(true)) <==> (forall|j: int|
            i <= j < plan.len() ==> j < outcomes.len() && reaction(#[trigger] plan[j], outcomes[j])
                is Continue),
        progress_from(plan, outcomes, i, false) != PlanProgress::Finished(true),
    decreases plan.len() - i,
{
    if i < plan.len() {
        lemma_progress_from_all_continue(plan, outcomes, i + 1);
        if i < outcomes.len() && reaction(plan[i], outcomes[i]) is Continue {
            if forall|j: int|
                i + 1 <= j < plan.len() ==> j < outcomes.len() && reaction(
                    #[trigger] plan[j],
                    outcomes[j],
                ) is Continue {
                assert forall|j: int| i <= j < plan.len() implies j < outcomes.len() && reaction(
                    #[trigger] plan[j],
                    outcomes[j],
                ) is Continue by {
                    if j > i {
                        assert(i + 1 <= j < plan.len());
                    }
                }
            }
        } else {
            let _ = plan[i];
        }
    }
}

/// A plan succeeds exactly when every one of its statements was run and its
/// outcome let the plan go on without a flag.
pub proof fn lemma_succeeded_iff_all_continue(
    plan: Seq<StatementView>,
    outcomes: Seq<StatementOutcome>,
)
    ensures
        succeeded(plan, outcomes) <==> (forall|j: int|
            0 <= j < plan.len() ==> j < outcomes.len() && reaction(#[trigger] plan[j], outcomes[j])
                is Continue),
{
    lemma_progress_from_all_continue(plan, outcomes, 0);
}

/// `p` with a `Run` index moved `d` statements further on.
pub open spec fn shifted(p: PlanProgress, d: nat) -> PlanProgress {
    match p {
        PlanProgress::Run(k) => PlanProgress::Run((k + d) as usize),
        other => other,
    }
}

proof fn lemma_concat_prefix_from(
    a: Seq<StatementView>,
    b: Seq<StatementView>,
    o: Seq<StatementOutcome>,
    i: int,
)
    requires
        o.len() <= a.len(),
        0 <= i <= a.len(),
        is_strict(a),
        progress_from(a, o, i, true) != PlanProgress::Finished(true),
    ensures
        progress_from(a + b, o, i, true) == progress_from(a, o, i, true),
    decreases a.len() - i,
{
    if i < a.len() {
        assert((a + b)[i] == a[i]);
        if i < o.len() {
            let _ = a[i].on_error;
            if reaction(a[i], o[i]) is Continue {
                lemma_concat_prefix_from(a, b, o, i + 1);
            }
        }
    }
}

/// Running a strict plan `a` then `b` as one plan: while `a` has not
/// succeeded, the joint plan does exactly what `a` alone does (it runs the
/// same statement, or stops with the same verdict).
pub proof fn lemma_concat_before_second(
    a: Seq<StatementView>,
    b: Seq<StatementView>,
    o: Seq<StatementOutcome>,
)
    requires
        o.len() <= a.len(),
        is_strict(a),
        !succeeded(a, o),
    ensures
        progress(a + b, o) == progress(a, o),
{
    lemma_concat_prefix_from(a, b, o, 0);
}

proof fn lemma_concat_first_done_from(
    a: Seq<StatementView>,
    b: Seq<StatementView>,
    oa: Seq<StatementOutcome>,
    ob: Seq<StatementOutcome>,
    i: int,
)
    requires
        oa.len() == a.len(),
        0 <= i <= a.len(),
        progress_from(a, oa, i, true) == PlanProgress::Finished(true),
    ensures
        progress_from(a + b, oa + ob, i, true) == progress_from(a + b, oa + ob, a.len() as int, true),
    decreases a.len() - i,
{
    if i < a.len() {
        assert((a + b)[i] == a[i]);
        assert((oa + ob)[i] == oa[i]);
        lemma_progress_from_all_continue(a, oa, i + 1);
        lemma_concat_first_done_from(a, b, oa, ob, i + 1);
    }
}

proof fn lemma_concat_second_from(
    a: Seq<StatementView>,
    b: Seq<StatementView>,
    oa: Seq<StatementOutcome>,
    ob: Seq<StatementOutcome>,
    j: int,
    ok: bool,
)
    requires
        oa.len() == a.len(),
        0 <= j <= b.len(),
        a.len() + b.len() < usize::MAX,
    ensures
        progress_from(a + b, oa + ob, a.len() + j, ok) == shifted(
            progress_from(b, ob, j, ok),
            a.len(),
        ),
    decreases b.len() - j,
{
    let k = a.len() + j;
    if j < b.len() {
        assert((a + b)[k] == b[j]);
        if j < ob.len() {
            assert((oa + ob)[k] == ob[j]);
            lemma_concat_second_from(a, b, oa, ob, j + 1, ok);
            lemma_concat_second_from(a, b, oa, ob, j + 1, false);
        }
    }
}

/// Running `a` then `b` as one plan: once `a` has succeeded, the joint plan
/// does what `b` alone does, with statement indices counted from the start
/// of the joint plan.
pub proof fn lemma_concat_after_first(
    a: Seq<StatementView>,
    b: Seq<StatementView>,
    oa: Seq<StatementOutcome>,
    ob: Seq<StatementOutcome>,
)
    requires
        oa.len() == a.len(),
        succeeded(a, oa),
        a.len() + b.len() < usize::MAX,
    ensures
        progress(a + b, oa + ob) == shifted(progress(b, ob), a.len()),
{
    lemma_concat_first_done_from(a, b, oa, ob, 0);
    lemma_concat_second_from(a, b, oa, ob, 0, true);
}

/// The statements of `a` followed by those of `b`.
pub fn concat_plans(a: DbPlan, b: DbPlan) -> (r: DbPlan)
    ensures
        r@ == a@ + b@,
{
    let mut statements = a.statements;
    let mut rest = b.statements;
    let ghost sa = statements@;
    let ghost sb = rest@;
    statements.append(&mut rest);
    assert(statements@ == sa + sb);
    let r = DbPlan { statements };
    assert(r@ =~= a@ + b@);
    r
}

/// The value of a statement with the given parts.
pub open spec fn statement_view(
    kind: StatementKind,
    sql: Seq<char>,
    params: Seq<SqlParamView>,
    on_error: Verdict,
    on_no_rows: Verdict,
) -> StatementView {
    StatementView { kind, sql, params, on_error, on_no_rows }
}

/// A statement that must not fail and may change no row.
pub open spec fn must_succeed(sql: Seq<char>, params: Seq<SqlParamView>) -> StatementView {
    statement_view(StatementKind::Execute, sql, params, Verdict::Abort, Verdict::Continue)
}

/// A statement that must change at least one row.
pub open spec fn must_change(sql: Seq<char>, params: Seq<SqlParamView>) -> StatementView {
    statement_view(StatementKind::Execute, sql, params, Verdict::Abort, Verdict::Abort)
}

/// A statement built from its parts.
pub fn statement(
    kind: StatementKind,
    sql: String,
    params: Vec<SqlParam>,
    on_error: Verdict,
    on_no_rows: Verdict,
) -> (st: Statement)
    ensures
        st@ == statement_view(kind, sql@, params@.map_values(|p: SqlParam| p@), on_error, on_no_rows),
{
    Statement { kind, sql, params, on_error, on_no_rows }
}

/// A text parameter.
pub fn text_param(s: &str) -> (p: SqlParam)
    ensures
        p@ == SqlParamView::Text(s@),
{
    SqlParam::Text(s.to_owned())
}

/// No parameters.
pub fn no_params() -> (ps: Vec<SqlParam>)
    ensures
        ps@.map_values(|p: SqlParam| p@) == Seq::<SqlParamView>::empty(),
{
    let ps: Vec<SqlParam> = Vec::new();
    assert(ps@.map_values(|p: SqlParam| p@) =~= Seq::<SqlParamView>::empty());
    ps
}

/// One parameter.
pub fn params1(a: SqlParam) -> (ps: Vec<SqlParam>)
    ensures
        ps@.map_values(|p: SqlParam| p@) == seq![a@],
{
    let ghost va = a@;
    let mut ps: Vec<SqlParam> = Vec::new();
    ps.push(a);
    assert(ps@.map_values(|p: SqlParam| p@) =~= seq![va]);
    ps
}

/// Two parameters.
pub fn params2(a: SqlParam, b: SqlParam) -> (ps: Vec<SqlParam>)
    ensures
        ps@.map_values(|p: SqlParam| p@) == seq![a@, b@],
{
    let ghost va = a@;
    let ghost vb = b@;
    let mut ps: Vec<SqlParam> = Vec::new();
    ps.push(a);
    ps.push(b);
    assert(ps@.map_values(|p: SqlParam| p@) =~= seq![va, vb]);
    ps
}

/// Three parameters.
pub fn params3(a: SqlParam, b: SqlParam, c: SqlParam) -> (ps: Vec<SqlParam>)
    ensures
        ps@.map_values(|p: SqlParam| p@) == seq![a@, b@, c@],
{
    let ghost va = a@;
    let ghost vb = b@;
    let ghost vc = c@;
    let mut ps: Vec<SqlParam> = Vec::new();
    ps.push(a);
    ps.push(b);
    ps.push(c);
    assert(ps@.map_values(|p: SqlParam| p@) =~= seq![va, vb, vc]);
    ps
}

/// Five parameters.
pub fn params5(a: SqlParam, b: SqlParam, c: SqlParam, d: SqlParam, e: SqlParam) -> (ps: Vec<
    SqlParam,
>)
    ensures
        ps@.map_values(|p: SqlParam| p@) == seq![a@, b@, c@, d@, e@],
{
    let ghost va = a@;
    let ghost vb = b@;
    let ghost vc = c@;
    let ghost vd = d@;
    let ghost ve = e@;
    let mut ps: Vec<SqlParam> = Vec::new();
    ps.push(a);
    ps.push(b);
    ps.push(c);
    ps.push(d);
    ps.push(e);
    assert(ps@.map_values(|p: SqlParam| p@) =~= seq![va, vb, vc, vd, ve]);
    ps
}

/// A plan of no statements.
pub fn empty_plan() -> (p: DbPlan)
    ensures
        p@ == Seq::<StatementView>::empty(),
{
    let p = DbPlan { statements: Vec::new() };
    assert(p@ =~= Seq::<StatementView>::empty());
    p
}

/// A plan of one statement.
pub fn single(st: Statement) -> (p: DbPlan)
    ensures
        p@ == seq![st@],
{
    let ghost v = st@;
    let mut statements: Vec<Statement> = Vec::new();
    statements.push(st);
    let p = DbPlan { statements };
    assert(p@ =~= seq![v]);
    p
}

/// `plan` with `st` added at the end.
pub fn push_statement(plan: DbPlan, st: Statement) -> (p: DbPlan)
    ensures
        p@ == plan@.push(st@),
{
    let ghost v = st@;
    let ghost before = plan@;
    let mut statements = plan.statements;
    statements.push(st);
    let p = DbPlan { statements };
    assert(p@ =~= before.push(v));
    p
}

} // verus!

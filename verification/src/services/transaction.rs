//! The transaction that carries a write plan out, as a machine that is told
//! what came of each step and answers with the next one, and the findings
//! that go with a statement the database refused.

use crate::models::communication_record::{
    reports_excesses, find_excesses, CommunicationRecord, FieldExcess, LengthCheck,
};
use crate::services::database::{Table, WritePlan};
use crate::services::tables::{
    apply_plan, apply_statement, committed, distinct_keys, lemma_plan_progress, Tables,
};
use crate::timestamp::Timestamp;
use crate::text::{decimal_digits, format_decimal};
use vstd::prelude::*;
use vstd::string::{StrSliceExecFns, StringExecFns};

verus! {

/// The text of an optional column, empty where the column has no value.
pub open spec fn text_of(column: Option<String>) -> Seq<char> {
    match column {
        Some(text) => text@,
        None => Seq::empty(),
    }
}

/// The length-bounded columns of a row with their limits: `cell_id`, `lac`,
/// `mcc` and `mnc` take 10 characters, `model` and `firmware` 50,
/// `msg_class` 20. A column without a value counts as empty.
pub open spec fn row_length_checks(row: CommunicationRecord) -> Seq<LengthCheck> {
    seq![
        ("cell_id"@, text_of(row.cell_id), 10usize),
        ("lac"@, text_of(row.lac), 10usize),
        ("mcc"@, text_of(row.mcc), 10usize),
        ("mnc"@, text_of(row.mnc), 10usize),
        ("model"@, text_of(row.model), 50usize),
        ("firmware"@, text_of(row.firmware), 50usize),
        ("msg_class"@, text_of(row.msg_class), 20usize),
    ]
}

/// What the store reports of one row of a refused statement.
#[derive(Debug, Clone, PartialEq, Eq)]
pub struct RowDiagnostic {
    /// Place of the row in its statement, counted from 0.
    pub index: usize,
    pub device_id: String,
    pub uuid: String,
    /// Lengths in characters; 0 where the column has no value.
    pub cell_id_len: usize,
    pub lac_len: usize,
    pub mcc_len: usize,
    pub mnc_len: usize,
    /// The length-bounded columns of the row that hold too long a text.
    pub excesses: Vec<FieldExcess>,
}

impl RowDiagnostic {
    /// Whether this is the report of `row`, found at place `index`.
    pub open spec fn describes(&self, index: int, row: CommunicationRecord) -> bool {
        &&& self.index == index
        &&& self.device_id@ == row.device_id@
        &&& self.uuid@ == row.uuid@
        &&& self.cell_id_len == text_of(row.cell_id).len()
        &&& self.lac_len == text_of(row.lac).len()
        &&& self.mcc_len == text_of(row.mcc).len()
        &&& self.mnc_len == text_of(row.mnc).len()
        &&& reports_excesses(self.excesses@, row_length_checks(row))
    }

    /// The line that names the row and its four lengths.
    pub open spec fn text(&self) -> Seq<char> {
        "📝 Registro #"@ + decimal_digits(self.index as nat) + " - Device: "@ + self.device_id@
            + ", UUID: "@ + self.uuid@ + ", Cell ID len: "@ + decimal_digits(
            self.cell_id_len as nat,
        ) + ", LAC len: "@ + decimal_digits(self.lac_len as nat) + ", MCC len: "@
            + decimal_digits(self.mcc_len as nat) + ", MNC len: "@ + decimal_digits(
            self.mnc_len as nat,
        )
    }

    /// Writes the line that names the row and its four lengths.
    pub fn message(&self) -> (line: String)
        ensures
            line@ == self.text(),
    {
        let mut line = String::from_str("📝 Registro #");
        line.append(format_decimal(self.index as u64).as_str());
        line.append(" - Device: ");
        line.append(self.device_id.as_str());
        line.append(", UUID: ");
        line.append(self.uuid.as_str());
        line.append(", Cell ID len: ");
        line.append(format_decimal(self.cell_id_len as u64).as_str());
        line.append(", LAC len: ");
        line.append(format_decimal(self.lac_len as u64).as_str());
        line.append(", MCC len: ");
        line.append(format_decimal(self.mcc_len as u64).as_str());
        line.append(", MNC len: ");
        line.append(format_decimal(self.mnc_len as u64).as_str());
        line
    }
}

/// The text of an optional column, empty where the column has no value.
fn column_text(column: &Option<String>) -> (text: &str)
    ensures
        text@ == text_of(*column),
{
    match column {
        Some(text) => text.as_str(),
        None => {
            proof {
                reveal_strlit("");
            }
            ""
        },
    }
}

/// Whether `found` reports the rows of a refused statement, one report for
/// each row and in their order.
pub open spec fn diagnoses(found: Seq<RowDiagnostic>, rows: Seq<CommunicationRecord>) -> bool {
    &&& found.len() == rows.len()
    &&& forall|i: int| 0 <= i < found.len() ==> (#[trigger] found[i]).describes(i, rows[i])
}

/// Reports one row of a refused statement.
pub fn diagnose_row(index: usize, row: &CommunicationRecord) -> (found: RowDiagnostic)
    ensures
        found.describes(index as int, *row),
{
    let cell_id = column_text(&row.cell_id);
    let lac = column_text(&row.lac);
    let mcc = column_text(&row.mcc);
    let mnc = column_text(&row.mnc);
    let checks: Vec<(&str, &str, usize)> = vec![
        ("cell_id", cell_id, 10),
        ("lac", lac, 10),
        ("mcc", mcc, 10),
        ("mnc", mnc, 10),
        ("model", column_text(&row.model), 50),
        ("firmware", column_text(&row.firmware), 50),
        ("msg_class", column_text(&row.msg_class), 20),
    ];
    assert(checks.deep_view() =~= row_length_checks(*row));
    RowDiagnostic {
        index,
        device_id: row.device_id.clone(),
        uuid: row.uuid.clone(),
        cell_id_len: cell_id.unicode_len(),
        lac_len: lac.unicode_len(),
        mcc_len: mcc.unicode_len(),
        mnc_len: mnc.unicode_len(),
        excesses: find_excesses(&checks),
    }
}

/// Reports every row of a refused statement: who the row is, how long its
/// four short columns are, and which bounded column holds too long a text.
pub fn diagnose_rows(rows: &[CommunicationRecord]) -> (found: Vec<RowDiagnostic>)
    ensures
        diagnoses(found@, rows@),
{
    let mut found: Vec<RowDiagnostic> = Vec::new();
    let mut i: usize = 0;
    while i < rows.len()
        invariant
            i <= rows.len(),
            diagnoses(found@, rows@.take(i as int)),
        decreases rows.len() - i,
    {
        found.push(diagnose_row(i, &rows[i]));
        i = i + 1;
    }
    assert(rows@.take(i as int) =~= rows@);
    found
}

/// Where the transaction of a plan stands.
#[derive(Debug, Clone, Copy, PartialEq, Eq, Structural)]
pub enum Phase {
    /// The transaction is being opened.
    Beginning,
    /// Statement `index` of the plan is running.
    Executing { index: usize },
    /// Every statement has run and the commit is under way.
    Committing,
    /// A statement was refused and the transaction is being rolled back.
    RollingBack,
    /// The plan is written. A plan without statements is written from the
    /// start.
    Committed,
    /// The plan was given up and nothing of it is written.
    Abandoned,
}

/// What the driver of the transaction is to do next.
#[derive(Debug, Clone, Copy, PartialEq, Eq, Structural)]
pub enum Action {
    /// Open a transaction.
    Begin,
    /// Run statement `index` of the plan inside the transaction.
    Execute { index: usize },
    /// Commit the transaction.
    Commit,
    /// Roll the transaction back.
    Rollback,
    /// Nothing is left to do; the result can be taken.
    Finish,
}

/// What came of the step that the driver was told to take.
#[derive(Debug, Clone, PartialEq, Eq)]
pub enum Reply {
    /// The step succeeded.
    Done,
    /// The step failed, with the words of the database driver.
    Failed(String),
}

/// The step at which a plan failed.
#[derive(Debug, Clone, Copy, PartialEq, Eq, Structural)]
pub enum FailedStep {
    Begin,
    Statement { index: usize },
    Commit,
}

/// Why a plan was given up.
#[derive(Debug, Clone, PartialEq, Eq)]
pub struct StoreFailure {
    /// The step that failed.
    pub step: FailedStep,
    /// The words of the database driver.
    pub message: String,
    /// One report for every row of the refused statement; empty where the
    /// failure was not that of a statement.
    pub diagnostics: Vec<RowDiagnostic>,
}

/// The phase in which the transaction of a plan with so many statements
/// starts. Without statements no transaction is opened.
pub open spec fn first_phase(statements: nat) -> Phase {
    if statements == 0 {
        Phase::Committed
    } else {
        Phase::Beginning
    }
}

/// The phase that follows `phase` once the driver has told whether the step
/// of `phase` succeeded. Statements run in the order of the plan; the first
/// failure ends the plan, after a rollback where a statement was refused.
pub open spec fn next_phase(phase: Phase, ok: bool, statements: nat) -> Phase {
    match phase {
        Phase::Beginning => if ok {
            Phase::Executing { index: 0 }
        } else {
            Phase::Abandoned
        },
        Phase::Executing { index } => if !ok {
            Phase::RollingBack
        } else if index + 1 < statements {
            Phase::Executing { index: (index + 1) as usize }
        } else {
            Phase::Committing
        },
        Phase::Committing => if ok {
            Phase::Committed
        } else {
            Phase::Abandoned
        },
        Phase::RollingBack => Phase::Abandoned,
        Phase::Committed => Phase::Committed,
        Phase::Abandoned => Phase::Abandoned,
    }
}

/// The step that the driver takes in a phase.
pub open spec fn action_of(phase: Phase) -> Action {
    match phase {
        Phase::Beginning => Action::Begin,
        Phase::Executing { index } => Action::Execute { index },
        Phase::Committing => Action::Commit,
        Phase::RollingBack => Action::Rollback,
        Phase::Committed => Action::Finish,
        Phase::Abandoned => Action::Finish,
    }
}

/// Whether `failure` records that the step of `phase` failed with the words
/// `message`.
pub open spec fn records(
    failure: StoreFailure,
    phase: Phase,
    message: Seq<char>,
    plan: WritePlan,
) -> bool {
    &&& failure.message@ == message
    &&& match phase {
        Phase::Beginning => failure.step == FailedStep::Begin && failure.diagnostics@.len() == 0,
        Phase::Executing { index } => failure.step == FailedStep::Statement { index }
            && diagnoses(failure.diagnostics@, plan.rows_of(index as int)),
        Phase::Committing => failure.step == FailedStep::Commit && failure.diagnostics@.len()
            == 0,
        _ => false,
    }
}

/// Where a session stands, together with the failure where there is one.
enum Progress {
    Beginning,
    Executing { index: usize },
    Committing,
    RollingBack { failure: StoreFailure },
    Committed,
    Abandoned { failure: StoreFailure },
}

/// The transaction of one write plan. The driver takes the step it is given,
/// reports what came of it, and is given the next step, until the step is
/// `Finish`.
pub struct WriteSession {
    plan: WritePlan,
    progress: Progress,
}

impl WriteSession {
    /// What holds of every session.
    #[verifier::type_invariant]
    pub closed spec fn well_formed(self) -> bool {
        &&& self.plan.well_formed()
        &&& self.progress matches Progress::Executing { index } ==> index
            < self.plan.statement_seq().len()
        &&& self.progress is Beginning ==> self.plan.statement_seq().len() > 0
    }

    /// The plan of the session.
    pub closed spec fn plan_spec(&self) -> WritePlan {
        self.plan
    }

    /// The phase of the session.
    pub closed spec fn phase(&self) -> Phase {
        match self.progress {
            Progress::Beginning => Phase::Beginning,
            Progress::Executing { index } => Phase::Executing { index },
            Progress::Committing => Phase::Committing,
            Progress::RollingBack { .. } => Phase::RollingBack,
            Progress::Committed => Phase::Committed,
            Progress::Abandoned { .. } => Phase::Abandoned,
        }
    }

    /// Why the plan was given up, once a step has failed.
    pub closed spec fn failure(&self) -> Option<StoreFailure> {
        match self.progress {
            Progress::RollingBack { failure } => Some(failure),
            Progress::Abandoned { failure } => Some(failure),
            _ => None,
        }
    }

    /// Starts the transaction of a plan and tells the first step: `Begin`
    /// where the plan has statements, and `Finish` at once where it has none.
    pub fn new(plan: WritePlan) -> (started: (WriteSession, Action))
        ensures
            started.0.plan_spec() == plan,
            started.0.phase() == first_phase(plan.statement_seq().len()),
            started.0.failure() is None,
            started.1 == action_of(started.0.phase()),
    {
        proof {
            use_type_invariant(&plan);
        }
        if plan.is_empty() {
            (WriteSession { plan, progress: Progress::Committed }, Action::Finish)
        } else {
            (WriteSession { plan, progress: Progress::Beginning }, Action::Begin)
        }
    }

    /// The plan that the session carries out.
    pub fn plan(&self) -> (plan: &WritePlan)
        ensures
            *plan == self.plan_spec(),
    {
        &self.plan
    }

    /// The phase in which the session stands.
    pub fn current_phase(&self) -> (phase: Phase)
        ensures
            phase == self.phase(),
    {
        match &self.progress {
            Progress::Beginning => Phase::Beginning,
            Progress::Executing { index } => Phase::Executing { index: *index },
            Progress::Committing => Phase::Committing,
            Progress::RollingBack { .. } => Phase::RollingBack,
            Progress::Committed => Phase::Committed,
            Progress::Abandoned { .. } => Phase::Abandoned,
        }
    }

    /// Takes the driver's report on the step of the current phase and tells
    /// the next step. A failure is kept with the step that failed and the
    /// driver's words, and for a refused statement with a report on each of
    /// its rows. Once the session has finished, further reports change
    /// nothing.
    pub fn report(&mut self, reply: Reply) -> (action: Action)
        ensures
            final(self).plan_spec() == old(self).plan_spec(),
            final(self).phase() == next_phase(
                old(self).phase(),
                reply is Done,
                old(self).plan_spec().statement_seq().len(),
            ),
            action == action_of(final(self).phase()),
            match reply {
                Reply::Failed(message) => match old(self).phase() {
                    Phase::Beginning | Phase::Executing { .. } | Phase::Committing => {
                        &&& final(self).failure() matches Some(failure)
                        &&& records(failure, old(self).phase(), message@, old(self).plan_spec())
                    },
                    _ => final(self).failure() == old(self).failure(),
                },
                Reply::Done => final(self).failure() == old(self).failure(),
            },
    {
        proof {
            use_type_invariant(&*self);
            use_type_invariant(&self.plan);
        }
        let statements = self.plan.len();
        let mut progress = Progress::Committed;
        std::mem::swap(&mut self.progress, &mut progress);
        let next = match progress {
            Progress::Beginning => match reply {
                Reply::Done => Progress::Executing { index: 0 },
                Reply::Failed(message) => Progress::Abandoned {
                    failure: StoreFailure {
                        step: FailedStep::Begin,
                        message,
                        diagnostics: Vec::new(),
                    },
                },
            },
            Progress::Executing { index } => match reply {
                Reply::Done => if index + 1 < statements {
                    Progress::Executing { index: index + 1 }
                } else {
                    Progress::Committing
                },
                Reply::Failed(message) => {
                    let diagnostics = match self.plan.rows(index) {
                        Some(rows) => diagnose_rows(rows),
                        None => Vec::new(),
                    };
                    Progress::RollingBack {
                        failure: StoreFailure {
                            step: FailedStep::Statement { index },
                            message,
                            diagnostics,
                        },
                    }
                },
            },
            Progress::Committing => match reply {
                Reply::Done => Progress::Committed,
                Reply::Failed(message) => Progress::Abandoned {
                    failure: StoreFailure {
                        step: FailedStep::Commit,
                        message,
                        diagnostics: Vec::new(),
                    },
                },
            },
            Progress::RollingBack { failure } => Progress::Abandoned { failure },
            Progress::Committed => Progress::Committed,
            Progress::Abandoned { failure } => Progress::Abandoned { failure },
        };
        let action = match &next {
            Progress::Beginning => Action::Begin,
            Progress::Executing { index } => Action::Execute { index: *index },
            Progress::Committing => Action::Commit,
            Progress::RollingBack { .. } => Action::Rollback,
            Progress::Committed => Action::Finish,
            Progress::Abandoned { .. } => Action::Finish,
        };
        self.progress = next;
        action
    }

    /// Ends the session. A written plan gives the number of rows that went to
    /// the history tables, a plan that was given up gives the failure, and a
    /// session that has not finished gives nothing.
    pub fn into_result(self) -> (out: Option<Result<usize, StoreFailure>>)
        ensures
            out is Some <==> (self.phase() is Committed || self.phase() is Abandoned),
            self.phase() is Committed ==> out == Some(
                Ok::<usize, StoreFailure>(
                    (self.plan_spec().rows_for(Table::Suntech).len() + self.plan_spec().rows_for(
                        Table::Queclink,
                    ).len()) as usize,
                ),
            ),
            self.phase() is Abandoned ==> (self.failure() matches Some(failure) && out == Some(
                Err::<usize, StoreFailure>(failure),
            )),
    {
        proof {
            use_type_invariant(&self);
        }
        match self.progress {
            Progress::Committed => Some(Ok(self.plan.total())),
            Progress::Abandoned { failure } => Some(Err(failure)),
            _ => None,
        }
    }
}

/// The database as the store has to assume it: the tables that every reader
/// sees, and beside them the tables of the open transaction, if one is open.
pub struct Database {
    /// What has been committed.
    pub visible: Tables,
    /// What the open transaction has written so far.
    pub pending: Option<Tables>,
}

/// The database after the step of `phase` has been tried. A transaction
/// starts from what is visible; a statement that ran changes only what is
/// pending; a commit makes the pending tables the visible ones; a rollback
/// and a failed commit drop what is pending.
pub open spec fn perform(
    database: Database,
    phase: Phase,
    ok: bool,
    plan: WritePlan,
    server_now: Timestamp,
) -> Database {
    match phase {
        Phase::Beginning => if ok {
            Database { pending: Some(database.visible), ..database }
        } else {
            database
        },
        Phase::Executing { index } => if ok {
            Database {
                pending: match database.pending {
                    Some(tables) => apply_statement(
                        tables,
                        plan.statement_seq()[index as int].table,
                        plan.rows_of(index as int),
                        server_now,
                    ),
                    None => None,
                },
                ..database
            }
        } else {
            database
        },
        Phase::Committing => match database.pending {
            Some(tables) => if ok {
                Database { visible: tables, pending: None }
            } else {
                Database { pending: None, ..database }
            },
            None => database,
        },
        Phase::RollingBack => Database { pending: None, ..database },
        Phase::Committed => database,
        Phase::Abandoned => database,
    }
}

/// Where a session and the database stand after the driver has taken one
/// step for each reply of the list, in order, starting in `phase`.
pub open spec fn run(
    phase: Phase,
    database: Database,
    replies: Seq<bool>,
    plan: WritePlan,
    server_now: Timestamp,
) -> (Phase, Database)
    decreases replies.len(),
{
    if replies.len() == 0 {
        (phase, database)
    } else {
        let (reached, before) = run(phase, database, replies.drop_last(), plan, server_now);
        (
            next_phase(reached, replies.last(), plan.statement_seq().len()),
            perform(before, reached, replies.last(), plan, server_now),
        )
    }
}

/// What holds between the phase of a session and the database at every
/// moment of a run.
spec fn in_step(
    phase: Phase,
    database: Database,
    start: Tables,
    plan: WritePlan,
    server_now: Timestamp,
) -> bool {
    let statements = plan.statement_seq().len() as int;
    match phase {
        Phase::Beginning => database.visible == start && database.pending is None && statements
            > 0,
        Phase::Executing { index } => database.visible == start && index < statements
            && database.pending == apply_plan(start, plan, index as int, server_now),
        Phase::Committing => database.visible == start && database.pending == apply_plan(
            start,
            plan,
            statements,
            server_now,
        ),
        Phase::RollingBack => database.visible == start,
        Phase::Committed => Some(database.visible) == apply_plan(
            start,
            plan,
            statements,
            server_now,
        ) && database.pending is None,
        Phase::Abandoned => database.visible == start && database.pending is None,
    }
}

/// A plan is written whole or not at all. Whatever the driver reports, and
/// at whatever step the run stands: until the session has committed, readers
/// see the tables as they were before the batch; once it has committed, they
/// see them with every statement of the plan applied; and a session that has
/// finished leaves no transaction open. A plan without statements never opens
/// one.
pub proof fn lemma_plan_is_atomic(
    plan: WritePlan,
    database: Database,
    replies: Seq<bool>,
    server_now: Timestamp,
)
    requires
        plan.well_formed(),
        distinct_keys(plan.rows_for(Table::CurrentState)),
        database.pending is None,
    ensures
        ({
            let (phase, after) = run(
                first_phase(plan.statement_seq().len()),
                database,
                replies,
                plan,
                server_now,
            );
            &&& phase is Committed ==> Some(after.visible) == committed(
                database.visible,
                plan,
                server_now,
            )
            &&& phase !is Committed ==> after.visible == database.visible
            &&& (phase is Committed || phase is Abandoned) ==> after.pending is None
            &&& plan.statement_seq().len() == 0 ==> phase is Committed && after == database
        }),
{
    lemma_run_in_step(plan, database, replies, server_now);
}

/// Every moment of a run is in step.
proof fn lemma_run_in_step(
    plan: WritePlan,
    database: Database,
    replies: Seq<bool>,
    server_now: Timestamp,
)
    requires
        plan.well_formed(),
        distinct_keys(plan.rows_for(Table::CurrentState)),
        database.pending is None,
    ensures
        ({
            let (phase, after) = run(
                first_phase(plan.statement_seq().len()),
                database,
                replies,
                plan,
                server_now,
            );
            &&& in_step(phase, after, database.visible, plan, server_now)
            &&& plan.statement_seq().len() == 0 ==> phase is Committed && after == database
        }),
    decreases replies.len(),
{
    let statements = plan.statement_seq().len() as int;
    plan.lemma_statements();
    if replies.len() > 0 {
        lemma_run_in_step(plan, database, replies.drop_last(), server_now);
        let (reached, before) = run(
            first_phase(plan.statement_seq().len()),
            database,
            replies.drop_last(),
            plan,
            server_now,
        );
        match reached {
            Phase::Executing { index } => {
                lemma_plan_progress(database.visible, plan, index as int, server_now);
                lemma_plan_progress(database.visible, plan, index as int + 1, server_now);
            },
            Phase::Committing => {
                lemma_plan_progress(database.visible, plan, statements, server_now);
            },
            _ => {},
        }
    }
}

} // verus!

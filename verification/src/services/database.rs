//! The store: which statements a batch becomes, what they say, and how the
//! transaction that carries them is driven.

use crate::logging::ProbeResult;
use crate::models::communication_record::{column_names, columns, CommunicationRecord};
use crate::models::Manufacturer;
use crate::text::{join, joined, same_text};
use vstd::prelude::*;
use vstd::slice::slice_subrange;
use vstd::string::StringExecFns;

verus! {

/// The most rows that one statement carries, a cautious bound against the
/// limit that the wire protocol of the database puts on bound values.
pub const CHUNK_SIZE: usize = 100;

/// The tables that the store writes to.
#[derive(Debug, Clone, Copy, PartialEq, Eq, Structural)]
pub enum Table {
    /// History of the Suntech devices, append only.
    Suntech,
    /// History of the Queclink devices, append only.
    Queclink,
    /// The latest row of every device and message class.
    CurrentState,
}

impl Table {
    /// The name of the table in the database.
    pub open spec fn name_text(self) -> Seq<char> {
        match self {
            Table::Suntech => "communications_suntech"@,
            Table::Queclink => "communications_queclink"@,
            Table::CurrentState => "communications_current_state"@,
        }
    }

    /// The history table of a vendor.
    pub open spec fn history_of(manufacturer: Manufacturer) -> Table {
        match manufacturer {
            Manufacturer::Suntech => Table::Suntech,
            Manufacturer::Queclink => Table::Queclink,
        }
    }

    /// The name of the table in the database.
    pub fn name(&self) -> (name: &'static str)
        ensures
            name@ == self.name_text(),
    {
        match self {
            Table::Suntech => "communications_suntech",
            Table::Queclink => "communications_queclink",
            Table::CurrentState => "communications_current_state",
        }
    }

    /// The history table that receives the rows of a vendor.
    pub fn history(manufacturer: Manufacturer) -> (table: Table)
        ensures
            table == Table::history_of(manufacturer),
    {
        match manufacturer {
            Manufacturer::Suntech => Table::Suntech,
            Manufacturer::Queclink => Table::Queclink,
        }
    }
}

/// What the upsert sets a column to when a row is already there: the value
/// of the candidate row, except for `received_at`, which takes the time of the
/// database server.
pub open spec fn assignment_text(column: Seq<char>) -> Seq<char> {
    if column == "received_at"@ {
        "received_at = NOW()"@
    } else {
        column + " = EXCLUDED."@ + column
    }
}

/// The text of a statement up to its rows: the table and the column list.
pub open spec fn insert_head_text(table: Table) -> Seq<char> {
    "INSERT INTO "@ + table.name_text() + " ("@ + joined(column_names(), ", "@) + ") "@
}

/// The text that follows the rows of an upsert: on a conflict on
/// `(device_id, msg_class)` every column is set anew.
pub open spec fn upsert_tail_text() -> Seq<char> {
    " ON CONFLICT (device_id, msg_class) DO UPDATE SET "@ + joined(
        column_names().map_values(|column: Seq<char>| assignment_text(column)),
        ", "@,
    )
}

/// Writes the text of a statement up to its rows.
pub fn insert_head(table: Table) -> (text: String)
    ensures
        text@ == insert_head_text(table),
{
    let names = columns();
    let mut owned: Vec<String> = Vec::new();
    let mut i: usize = 0;
    while i < names.len()
        invariant
            i <= names.len(),
            owned.deep_view() == names.deep_view().take(i as int),
        decreases names.len() - i,
    {
        let ghost before = owned.deep_view();
        owned.push(String::from_str(names[i]));
        assert(owned.deep_view() =~= before.push(names[i as int]@));
        assert(owned.deep_view() =~= names.deep_view().take(i + 1));
        i = i + 1;
    }
    assert(names.deep_view().take(i as int) =~= names.deep_view());
    let mut text = String::from_str("INSERT INTO ");
    text.append(table.name());
    text.append(" (");
    text.append(join(&owned, ", ").as_str());
    text.append(") ");
    text
}

/// Writes the text that follows the rows of an upsert.
pub fn upsert_tail() -> (text: String)
    ensures
        text@ == upsert_tail_text(),
{
    let names = columns();
    let ghost assignments = column_names().map_values(|column: Seq<char>| assignment_text(column));
    let mut parts: Vec<String> = Vec::new();
    let mut i: usize = 0;
    while i < names.len()
        invariant
            i <= names.len(),
            names.deep_view() == column_names(),
            parts.deep_view() == column_names().map_values(
                |column: Seq<char>| assignment_text(column),
            ).take(i as int),
        decreases names.len() - i,
    {
        let name = names[i];
        assert(name@ == column_names()[i as int]);
        let part = if same_text(name, "received_at") {
            String::from_str("received_at = NOW()")
        } else {
            let mut part = String::from_str(name);
            part.append(" = EXCLUDED.");
            part.append(name);
            part
        };
        assert(part@ == assignment_text(name@));
        let ghost before = parts.deep_view();
        parts.push(part);
        assert(parts.deep_view() =~= before.push(assignment_text(name@)));
        assert(parts.deep_view() =~= column_names().map_values(
            |column: Seq<char>| assignment_text(column),
        ).take(i + 1));
        i = i + 1;
    }
    assert(assignments.take(i as int) =~= assignments);
    let mut text = String::from_str(" ON CONFLICT (device_id, msg_class) DO UPDATE SET ");
    text.append(join(&parts, ", ").as_str());
    text
}

/// Whether two rows claim the same place in the current-state table: they
/// agree on `device_id` and on `msg_class`. A row without a `msg_class`
/// shares its place with no row.
pub open spec fn same_key(a: CommunicationRecord, b: CommunicationRecord) -> bool {
    &&& a.device_id@ == b.device_id@
    &&& a.msg_class matches Some(class_a)
    &&& b.msg_class matches Some(class_b)
    &&& class_a@ == class_b@
}

/// Whether a later row of the list claims the place of row `i`.
pub open spec fn superseded(rows: Seq<CommunicationRecord>, i: int) -> bool {
    exists|j: int| i < j < rows.len() && same_key(rows[i], #[trigger] rows[j])
}

/// Of the first `n` rows of the list, those that no later row of the whole
/// list supersedes, in their order.
pub open spec fn latest_among(rows: Seq<CommunicationRecord>, n: int) -> Seq<CommunicationRecord>
    decreases n,
{
    if n <= 0 {
        Seq::empty()
    } else if superseded(rows, n - 1) {
        latest_among(rows, n - 1)
    } else {
        latest_among(rows, n - 1).push(rows[n - 1])
    }
}

/// The rows that reach the current-state table: for every key the last row
/// that has it, in the order in which those rows arrived.
pub open spec fn latest_per_key(rows: Seq<CommunicationRecord>) -> Seq<CommunicationRecord> {
    latest_among(rows, rows.len() as int)
}

/// The history table that a row goes to. A row without a vendor goes with
/// the Suntech rows.
pub open spec fn history_table_of(row: CommunicationRecord) -> Table {
    match row.manufacturer {
        Some(manufacturer) => Table::history_of(manufacturer),
        None => Table::Suntech,
    }
}

/// The rows of the list that go to the history table `table`, in their
/// order.
pub open spec fn routed_to(rows: Seq<CommunicationRecord>, table: Table) -> Seq<
    CommunicationRecord,
>
    decreases rows.len(),
{
    if rows.len() == 0 {
        Seq::empty()
    } else if history_table_of(rows.last()) == table {
        routed_to(rows.drop_last(), table).push(rows.last())
    } else {
        routed_to(rows.drop_last(), table)
    }
}

/// One statement of a plan: a multi-row insert into `table` that carries
/// the rows `start..end` of the list that the plan holds for that table.
#[derive(Debug, Clone, Copy, PartialEq, Eq, Structural)]
pub struct Statement {
    pub table: Table,
    pub start: usize,
    pub end: usize,
}

impl Statement {
    /// Writes the text of the statement up to its rows.
    pub fn sql_head(&self) -> (text: String)
        ensures
            text@ == insert_head_text(self.table),
    {
        insert_head(self.table)
    }

    /// Writes the text that follows the rows: the conflict clause for the
    /// current-state table, nothing for a history table.
    pub fn sql_tail(&self) -> (text: String)
        ensures
            text@ == (if self.table == Table::CurrentState {
                upsert_tail_text()
            } else {
                Seq::empty()
            }),
    {
        match self.table {
            Table::CurrentState => upsert_tail(),
            _ => String::new(),
        }
    }
}

/// How many statements `rows` rows make.
pub open spec fn chunk_count(rows: nat) -> nat {
    (rows + CHUNK_SIZE - 1) as nat / (CHUNK_SIZE as nat)
}

/// The statement that carries chunk `k` of `rows` rows: full but for the
/// last one, which takes what is left.
pub open spec fn chunk(table: Table, rows: nat, k: nat) -> Statement {
    Statement {
        table,
        start: (k * CHUNK_SIZE) as usize,
        end: (if (k + 1) * CHUNK_SIZE <= rows {
            (k + 1) * CHUNK_SIZE
        } else {
            rows as int
        }) as usize,
    }
}

/// The statements that carry `rows` rows into `table`, in order.
pub open spec fn chunks(table: Table, rows: nat) -> Seq<Statement> {
    Seq::new(chunk_count(rows), |k: int| chunk(table, rows, k as nat))
}

/// The statements of a plan with so many rows for each table: first the
/// Suntech history, then the Queclink history, then the current state.
pub open spec fn plan_statements(suntech: nat, queclink: nat, current: nat) -> Seq<Statement> {
    chunks(Table::Suntech, suntech) + chunks(Table::Queclink, queclink) + chunks(
        Table::CurrentState,
        current,
    )
}

/// Appends the statements that carry `rows` rows into `table`.
fn push_chunks(statements: &mut Vec<Statement>, table: Table, rows: usize)
    ensures
        final(statements)@ == old(statements)@ + chunks(table, rows as nat),
{
    let ghost all = chunks(table, rows as nat);
    let ghost mut k: nat = 0;
    let mut start: usize = 0;
    assert(statements@ =~= old(statements)@ + all.take(0));
    while start < rows
        invariant
            start <= rows,
            start < rows ==> start == k * CHUNK_SIZE,
            start == rows ==> k == chunk_count(rows as nat),
            k <= chunk_count(rows as nat),
            all == chunks(table, rows as nat),
            statements@ == old(statements)@ + all.take(k as int),
        decreases rows - start,
    {
        let end = if rows - start > CHUNK_SIZE {
            start + CHUNK_SIZE
        } else {
            rows
        };
        let statement = Statement { table, start, end };
        assert(statement == chunk(table, rows as nat, k));
        assert(k < chunk_count(rows as nat));
        statements.push(statement);
        assert(statements@ =~= old(statements)@ + all.take(k as int + 1));
        proof {
            k = k + 1;
        }
        start = end;
    }
    assert(all.take(k as int) =~= all);
}

/// What the store is to write for one batch: the rows for each table, and
/// the statements that carry them in chunks of at most `CHUNK_SIZE` rows. All
/// the statements of a plan belong to one transaction.
pub struct WritePlan {
    suntech: Vec<CommunicationRecord>,
    queclink: Vec<CommunicationRecord>,
    current: Vec<CommunicationRecord>,
    statements: Vec<Statement>,
}

impl WritePlan {
    /// What holds of every plan: its statements are the chunks of its rows.
    #[verifier::type_invariant]
    pub closed spec fn well_formed(self) -> bool {
        &&& self.suntech.len() + self.queclink.len() <= usize::MAX
        &&& self.statements@ == plan_statements(
            self.suntech.len() as nat,
            self.queclink.len() as nat,
            self.current.len() as nat,
        )
    }

    /// The rows that the plan holds for a table.
    pub closed spec fn rows_for(&self, table: Table) -> Seq<CommunicationRecord> {
        match table {
            Table::Suntech => self.suntech@,
            Table::Queclink => self.queclink@,
            Table::CurrentState => self.current@,
        }
    }

    /// The statements of the plan, in the order in which they run.
    pub closed spec fn statement_seq(&self) -> Seq<Statement> {
        self.statements@
    }

    /// The rows that statement `i` carries.
    pub open spec fn rows_of(&self, i: int) -> Seq<CommunicationRecord> {
        self.rows_for(self.statement_seq()[i].table).subrange(
            self.statement_seq()[i].start as int,
            self.statement_seq()[i].end as int,
        )
    }

    /// The statements are the chunks of the three row lists, and every
    /// statement carries between one and `CHUNK_SIZE` rows of its list.
    pub proof fn lemma_statements(&self)
        requires
            self.well_formed(),
        ensures
            self.statement_seq() == plan_statements(
                self.rows_for(Table::Suntech).len(),
                self.rows_for(Table::Queclink).len(),
                self.rows_for(Table::CurrentState).len(),
            ),
            forall|table: Table| #[trigger] self.rows_for(table).len() <= usize::MAX,
            self.statement_seq().len() <= usize::MAX,
            forall|i: int|
                0 <= i < self.statement_seq().len() ==> {
                    let s = #[trigger] self.statement_seq()[i];
                    &&& s.start < s.end <= self.rows_for(s.table).len()
                    &&& s.end - s.start <= CHUNK_SIZE
                },
    {
        let a = chunks(Table::Suntech, self.suntech.len() as nat);
        let b = chunks(Table::Queclink, self.queclink.len() as nat);
        let c = chunks(Table::CurrentState, self.current.len() as nat);
        assert forall|i: int| 0 <= i < self.statement_seq().len() implies {
            let s = #[trigger] self.statement_seq()[i];
            &&& s.start < s.end <= self.rows_for(s.table).len()
            &&& s.end - s.start <= CHUNK_SIZE
        } by {
            if i < a.len() {
                assert(self.statement_seq()[i] == a[i]);
            } else if i < a.len() + b.len() {
                assert(self.statement_seq()[i] == b[i - a.len()]);
            } else {
                assert(self.statement_seq()[i] == c[i - a.len() - b.len()]);
            }
        }
    }

    /// How many statements the plan has.
    pub fn len(&self) -> (n: usize)
        ensures
            n == self.statement_seq().len(),
    {
        self.statements.len()
    }

    /// Whether the plan has nothing to write.
    pub fn is_empty(&self) -> (empty: bool)
        ensures
            empty == (self.statement_seq().len() == 0),
    {
        self.statements.len() == 0
    }

    /// How many rows the plan appends to the history tables: one for every
    /// row of the batch.
    pub fn total(&self) -> (n: usize)
        ensures
            n == self.rows_for(Table::Suntech).len() + self.rows_for(Table::Queclink).len(),
    {
        proof {
            use_type_invariant(self);
        }
        self.suntech.len() + self.queclink.len()
    }

    /// Statement `index` of the plan, or nothing where the plan has fewer
    /// statements.
    pub fn statement(&self, index: usize) -> (out: Option<Statement>)
        ensures
            out == (if index < self.statement_seq().len() {
                Some(self.statement_seq()[index as int])
            } else {
                None
            }),
    {
        if index < self.statements.len() {
            Some(self.statements[index])
        } else {
            None
        }
    }

    /// The rows that statement `index` carries, or nothing where the plan has
    /// fewer statements.
    pub fn rows(&self, index: usize) -> (out: Option<&[CommunicationRecord]>)
        ensures
            out is Some <==> index < self.statement_seq().len(),
            out matches Some(rows) ==> rows@ == self.rows_of(index as int),
    {
        if index >= self.statements.len() {
            return None;
        }
        proof {
            use_type_invariant(self);
            self.lemma_statements();
        }
        let statement = self.statements[index];
        let list = match statement.table {
            Table::Suntech => self.suntech.as_slice(),
            Table::Queclink => self.queclink.as_slice(),
            Table::CurrentState => self.current.as_slice(),
        };
        Some(slice_subrange(list, statement.start, statement.end))
    }
}

/// Tells whether two rows claim the same place in the current-state table.
fn shares_key(a: &CommunicationRecord, b: &CommunicationRecord) -> (same: bool)
    ensures
        same == same_key(*a, *b),
{
    match (&a.msg_class, &b.msg_class) {
        (Some(class_a), Some(class_b)) => a.device_id == b.device_id && *class_a == *class_b,
        _ => false,
    }
}

/// Row `i` of two lists read as one, the second behind the first.
fn row_at<'a>(
    first: &'a Vec<CommunicationRecord>,
    second: &'a Vec<CommunicationRecord>,
    i: usize,
) -> (row: &'a CommunicationRecord)
    requires
        i < first.len() + second.len(),
    ensures
        *row == (first@ + second@)[i as int],
{
    if i < first.len() {
        &first[i]
    } else {
        &second[i - first.len()]
    }
}

/// Picks the rows for the current-state table out of two lists read as
/// one: for every key the last row that has it.
fn latest_rows(first: &Vec<CommunicationRecord>, second: &Vec<CommunicationRecord>) -> (out: Vec<
    CommunicationRecord,
>)
    requires
        first.len() + second.len() <= usize::MAX,
    ensures
        out@ == latest_per_key(first@ + second@),
{
    let ghost rows = first@ + second@;
    let n = first.len() + second.len();
    let mut out: Vec<CommunicationRecord> = Vec::new();
    let mut i: usize = 0;
    while i < n
        invariant
            i <= n,
            n == first.len() + second.len(),
            rows == first@ + second@,
            out@ == latest_among(rows, i as int),
        decreases n - i,
    {
        let row = row_at(first, second, i);
        let mut later: usize = i + 1;
        let mut found = false;
        while later < n && !found
            invariant
                i < later <= n,
                n == first.len() + second.len(),
                rows == first@ + second@,
                *row == rows[i as int],
                found ==> superseded(rows, i as int),
                !found ==> forall|j: int| i < j < later ==> !same_key(rows[i as int], rows[j]),
            decreases n - later + (if found { 0int } else { 1int }),
        {
            if shares_key(row, row_at(first, second, later)) {
                found = true;
            } else {
                later = later + 1;
            }
        }
        if !found {
            out.push(row.duplicate());
        }
        i = i + 1;
    }
    out
}

/// Every row of a list goes to one of the two history tables.
pub proof fn lemma_routed_lengths(rows: Seq<CommunicationRecord>)
    ensures
        routed_to(rows, Table::Suntech).len() + routed_to(rows, Table::Queclink).len()
            == rows.len(),
        routed_to(rows, Table::CurrentState).len() == 0,
    decreases rows.len(),
{
    if rows.len() > 0 {
        lemma_routed_lengths(rows.drop_last());
    }
}

/// The store as the pipeline sees it. It holds rows that wait to be written
/// and turns rows into write plans; the connection to the database is held
/// by whoever carries the plans out.
pub struct DatabaseService {
    buffer: Vec<CommunicationRecord>,
}

impl DatabaseService {
    /// The rows that wait in the buffer, oldest first.
    pub closed spec fn buffered(&self) -> Seq<CommunicationRecord> {
        self.buffer@
    }

    /// A store with an empty buffer.
    pub fn new() -> (store: DatabaseService)
        ensures
            store.buffered().len() == 0,
    {
        DatabaseService { buffer: Vec::new() }
    }

    /// Puts a row at the end of the buffer.
    pub fn add_to_buffer(&mut self, record: CommunicationRecord)
        ensures
            final(self).buffered() == old(self).buffered().push(record),
    {
        self.buffer.push(record);
    }

    /// How many rows wait in the buffer.
    pub fn buffer_size(&self) -> (n: usize)
        ensures
            n == self.buffered().len(),
    {
        self.buffer.len()
    }

    /// Judges a health probe of the database, given what came of its query:
    /// nothing, or the words of the error. A probe that failed or timed out
    /// counts as unhealthy and is logged; the pipeline goes on either way.
    pub fn health_check(outcome: Result<(), String>) -> (probe: ProbeResult)
        ensures
            probe.healthy == outcome is Ok,
            match outcome {
                Ok(_) => probe.line is None,
                Err(words) => probe.line matches Some(line) && line@
                    == "Database health check failed: "@ + words@,
            },
    {
        match outcome {
            Ok(_) => ProbeResult { healthy: true, line: None },
            Err(words) => {
                let mut line = String::from_str("Database health check failed: ");
                line.append(words.as_str());
                ProbeResult { healthy: false, line: Some(line) }
            },
        }
    }

    /// Plans the write of two lists of rows, one for each vendor: the history
    /// statements of the Suntech rows, those of the Queclink rows, and then
    /// the current-state statements, which carry for every key the last row
    /// of the two lists read as one. Two empty lists give a plan without
    /// statements.
    pub fn insert_records_by_manufacturer(
        suntech_records: Vec<CommunicationRecord>,
        queclink_records: Vec<CommunicationRecord>,
    ) -> (plan: WritePlan)
        requires
            suntech_records.len() + queclink_records.len() <= usize::MAX,
        ensures
            plan.rows_for(Table::Suntech) == suntech_records@,
            plan.rows_for(Table::Queclink) == queclink_records@,
            plan.rows_for(Table::CurrentState) == latest_per_key(
                suntech_records@ + queclink_records@,
            ),
            plan.statement_seq() == plan_statements(
                suntech_records@.len(),
                queclink_records@.len(),
                latest_per_key(suntech_records@ + queclink_records@).len(),
            ),
    {
        let current = latest_rows(&suntech_records, &queclink_records);
        Self::plan_of(suntech_records, queclink_records, current)
    }

    /// Takes every row out of the buffer and plans the write: the rows go to
    /// the history table of their vendor, in the order in which they came,
    /// and the current-state table gets for every key the last row that has
    /// it. An empty buffer gives a plan without statements.
    pub fn flush_buffer(&mut self) -> (plan: WritePlan)
        ensures
            final(self).buffered().len() == 0,
            plan.rows_for(Table::Suntech) == routed_to(old(self).buffered(), Table::Suntech),
            plan.rows_for(Table::Queclink) == routed_to(old(self).buffered(), Table::Queclink),
            plan.rows_for(Table::CurrentState) == latest_per_key(old(self).buffered()),
            plan.statement_seq() == plan_statements(
                routed_to(old(self).buffered(), Table::Suntech).len(),
                routed_to(old(self).buffered(), Table::Queclink).len(),
                latest_per_key(old(self).buffered()).len(),
            ),
    {
        let mut records: Vec<CommunicationRecord> = Vec::new();
        std::mem::swap(&mut self.buffer, &mut records);
        Self::plan_batch(records)
    }

    /// Plans the write of one batch, given in the order of arrival.
    pub fn plan_batch(records: Vec<CommunicationRecord>) -> (plan: WritePlan)
        ensures
            plan.rows_for(Table::Suntech) == routed_to(records@, Table::Suntech),
            plan.rows_for(Table::Queclink) == routed_to(records@, Table::Queclink),
            plan.rows_for(Table::CurrentState) == latest_per_key(records@),
            plan.statement_seq() == plan_statements(
                routed_to(records@, Table::Suntech).len(),
                routed_to(records@, Table::Queclink).len(),
                latest_per_key(records@).len(),
            ),
    {
        let nothing: Vec<CommunicationRecord> = Vec::new();
        assert(records@ + nothing@ =~= records@);
        let current = latest_rows(&records, &nothing);
        let mut suntech: Vec<CommunicationRecord> = Vec::new();
        let mut queclink: Vec<CommunicationRecord> = Vec::new();
        let ghost all = records@;
        for record in it: records
            invariant
                it.seq() == all,
                suntech@ == routed_to(all.take(it.index() as int), Table::Suntech),
                queclink@ == routed_to(all.take(it.index() as int), Table::Queclink),
        {
            let ghost before = all.take(it.index() as int);
            let ghost after = all.take(it.index() + 1);
            assert(after.drop_last() =~= before);
            assert(after.last() == record);
            let table = match record.manufacturer {
                Some(manufacturer) => Table::history(manufacturer),
                None => Table::Suntech,
            };
            match table {
                Table::Queclink => queclink.push(record),
                _ => suntech.push(record),
            }
        }
        proof {
            assert(all.take(all.len() as int) =~= all);
            lemma_routed_lengths(all);
        }
        Self::plan_of(suntech, queclink, current)
    }

    /// Puts a plan together from the rows of each table.
    fn plan_of(
        suntech: Vec<CommunicationRecord>,
        queclink: Vec<CommunicationRecord>,
        current: Vec<CommunicationRecord>,
    ) -> (plan: WritePlan)
        requires
            suntech.len() + queclink.len() <= usize::MAX,
        ensures
            plan.rows_for(Table::Suntech) == suntech@,
            plan.rows_for(Table::Queclink) == queclink@,
            plan.rows_for(Table::CurrentState) == current@,
            plan.statement_seq() == plan_statements(
                suntech@.len(),
                queclink@.len(),
                current@.len(),
            ),
    {
        let mut statements: Vec<Statement> = Vec::new();
        push_chunks(&mut statements, Table::Suntech, suntech.len());
        push_chunks(&mut statements, Table::Queclink, queclink.len());
        push_chunks(&mut statements, Table::CurrentState, current.len());
        assert(statements@ =~= plan_statements(
            suntech@.len(),
            queclink@.len(),
            current@.len(),
        ));
        WritePlan { suntech, queclink, current, statements }
    }
}

} // verus!

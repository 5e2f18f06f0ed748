//! The three tables as mathematical values, and what the statements of a
//! write plan do to them. The laws of the store are stated over this model.

use crate::models::communication_record::CommunicationRecord;
use crate::services::database::{
    chunk, chunk_count, chunks, latest_among, latest_per_key, routed_to, same_key, superseded,
    Statement, Table, WritePlan, CHUNK_SIZE,
};
use crate::timestamp::Timestamp;
use vstd::prelude::*;
use vstd::set_lib::lemma_set_disjoint_lens;

verus! {

/// The place of a row in the current-state table: its `device_id` and its
/// `msg_class`.
pub type StateKey = (Seq<char>, Seq<char>);

/// The key of a row that has a `msg_class`.
pub open spec fn key_of(row: CommunicationRecord) -> StateKey {
    (
        row.device_id@,
        match row.msg_class {
            Some(class) => class@,
            None => Seq::empty(),
        },
    )
}

/// Whether every row of the list has a `msg_class`. The model follows the
/// database for such rows; a row without one never meets a conflict there.
pub open spec fn keyed(rows: Seq<CommunicationRecord>) -> bool {
    forall|i: int| 0 <= i < rows.len() ==> (#[trigger] rows[i]).msg_class is Some
}

/// Whether no two rows of the list have the same key.
pub open spec fn distinct_keys(rows: Seq<CommunicationRecord>) -> bool {
    forall|i: int, j: int|
        0 <= i < j < rows.len() ==> key_of(#[trigger] rows[i]) != key_of(#[trigger] rows[j])
}

/// The keys that the rows of a list have.
pub open spec fn keys_of(rows: Seq<CommunicationRecord>) -> Set<StateKey> {
    Set::new(|key: StateKey| exists|i: int| 0 <= i < rows.len() && key_of(#[trigger] rows[i]) == key)
}

/// The contents of the three tables.
pub struct Tables {
    /// History of the Suntech devices, oldest row first.
    pub suntech: Seq<CommunicationRecord>,
    /// History of the Queclink devices, oldest row first.
    pub queclink: Seq<CommunicationRecord>,
    /// The current state: at most one row for each key.
    pub current: Map<StateKey, CommunicationRecord>,
}

/// The row that an upsert leaves in the current-state table. Where the key
/// was free the candidate is stored as it is; where a row was there, every
/// column is taken from the candidate but `received_at`, which becomes the
/// time of the database server.
pub open spec fn stored(
    row: CommunicationRecord,
    present: bool,
    server_now: Timestamp,
) -> CommunicationRecord {
    if present {
        CommunicationRecord { received_at: Some(server_now), ..row }
    } else {
        row
    }
}

/// The current-state table after the rows of a list have been upserted one
/// after the other.
pub open spec fn upsert_all(
    current: Map<StateKey, CommunicationRecord>,
    rows: Seq<CommunicationRecord>,
    server_now: Timestamp,
) -> Map<StateKey, CommunicationRecord>
    decreases rows.len(),
{
    if rows.len() == 0 {
        current
    } else {
        let before = upsert_all(current, rows.drop_last(), server_now);
        let row = rows.last();
        before.insert(key_of(row), stored(row, before.dom().contains(key_of(row)), server_now))
    }
}

/// What one statement does to the tables. A history statement appends its
/// rows. An upsert stores its rows by key; the database refuses an upsert
/// that names one key twice, which is `None` here.
pub open spec fn apply_statement(
    tables: Tables,
    table: Table,
    rows: Seq<CommunicationRecord>,
    server_now: Timestamp,
) -> Option<Tables> {
    match table {
        Table::Suntech => Some(Tables { suntech: tables.suntech + rows, ..tables }),
        Table::Queclink => Some(Tables { queclink: tables.queclink + rows, ..tables }),
        Table::CurrentState => if distinct_keys(rows) {
            Some(Tables { current: upsert_all(tables.current, rows, server_now), ..tables })
        } else {
            None
        },
    }
}

/// The tables after the first `count` statements of a plan have run, or
/// `None` where the database refused one of them.
pub open spec fn apply_plan(
    tables: Tables,
    plan: WritePlan,
    count: int,
    server_now: Timestamp,
) -> Option<Tables>
    decreases count,
{
    if count <= 0 {
        Some(tables)
    } else {
        match apply_plan(tables, plan, count - 1, server_now) {
            Some(before) => apply_statement(
                before,
                plan.statement_seq()[count - 1].table,
                plan.rows_of(count - 1),
                server_now,
            ),
            None => None,
        }
    }
}

/// What a whole batch does to the tables when its plan commits: each row is
/// appended to the history of its vendor, and for every key of the batch the
/// last row that has it is stored in the current-state table.
pub open spec fn batch_effect(
    tables: Tables,
    suntech: Seq<CommunicationRecord>,
    queclink: Seq<CommunicationRecord>,
    current: Seq<CommunicationRecord>,
    server_now: Timestamp,
) -> Tables {
    Tables {
        suntech: tables.suntech + suntech,
        queclink: tables.queclink + queclink,
        current: upsert_all(tables.current, current, server_now),
    }
}

/// Upserting one list after another is upserting the two as one.
pub proof fn lemma_upsert_all_concat(
    current: Map<StateKey, CommunicationRecord>,
    first: Seq<CommunicationRecord>,
    second: Seq<CommunicationRecord>,
    server_now: Timestamp,
)
    ensures
        upsert_all(upsert_all(current, first, server_now), second, server_now) == upsert_all(
            current,
            first + second,
            server_now,
        ),
    decreases second.len(),
{
    if second.len() == 0 {
        assert(first + second =~= first);
    } else {
        lemma_upsert_all_concat(current, first, second.drop_last(), server_now);
        assert((first + second).drop_last() =~= first + second.drop_last());
        assert((first + second).last() == second.last());
    }
}

/// Every row that `latest_among` keeps is a row of the list that no later
/// row supersedes.
pub proof fn lemma_latest_kept(rows: Seq<CommunicationRecord>, n: int, p: int)
    requires
        0 <= n <= rows.len(),
        0 <= p < latest_among(rows, n).len(),
    ensures
        exists|i: int|
            0 <= i < n && #[trigger] rows[i] == latest_among(rows, n)[p] && !superseded(rows, i),
    decreases n,
{
    if n > 0 {
        let before = latest_among(rows, n - 1);
        if p < before.len() {
            lemma_latest_kept(rows, n - 1, p);
        } else {
            assert(rows[n - 1] == latest_among(rows, n)[p]);
        }
    }
}

/// Every row of the list that no later row supersedes is kept by
/// `latest_among`.
pub proof fn lemma_latest_keeps(rows: Seq<CommunicationRecord>, n: int, i: int)
    requires
        0 <= i < n <= rows.len(),
        !superseded(rows, i),
    ensures
        latest_among(rows, n).contains(rows[i]),
    decreases n,
{
    let kept = latest_among(rows, n);
    if i == n - 1 {
        assert(kept.last() == rows[i]);
    } else {
        lemma_latest_keeps(rows, n - 1, i);
        let before = latest_among(rows, n - 1);
        let p = choose|p: int| 0 <= p < before.len() && before[p] == rows[i];
        assert(kept[p] == rows[i]);
    }
}

/// The rows picked for the current-state table have a `msg_class` where all
/// the rows of the batch have one, and no two of them have the same key.
pub proof fn lemma_latest_distinct(rows: Seq<CommunicationRecord>, n: int)
    requires
        0 <= n <= rows.len(),
        keyed(rows),
    ensures
        keyed(latest_among(rows, n)),
        distinct_keys(latest_among(rows, n)),
    decreases n,
{
    if n > 0 {
        lemma_latest_distinct(rows, n - 1);
        let before = latest_among(rows, n - 1);
        let kept = latest_among(rows, n);
        if !superseded(rows, n - 1) {
            assert forall|p: int, q: int| 0 <= p < q < kept.len() implies key_of(
                #[trigger] kept[p],
            ) != key_of(#[trigger] kept[q]) by {
                if q < before.len() {
                    assert(kept[p] == before[p] && kept[q] == before[q]);
                } else {
                    lemma_latest_kept(rows, n - 1, p);
                    let i = choose|i: int|
                        0 <= i < n - 1 && #[trigger] rows[i] == before[p] && !superseded(rows, i);
                    assert(!same_key(rows[i], rows[n - 1]));
                    assert(rows[i].msg_class is Some);
                    assert(rows[n - 1].msg_class is Some);
                }
            }
        }
    }
}

/// Every row of a batch has a last row of its key behind it, or is that row
/// itself.
pub proof fn lemma_last_of_key(rows: Seq<CommunicationRecord>, i: int) -> (m: int)
    requires
        0 <= i < rows.len(),
        keyed(rows),
    ensures
        i <= m < rows.len(),
        key_of(rows[m]) == key_of(rows[i]),
        !superseded(rows, m),
    decreases rows.len() - i,
{
    if superseded(rows, i) {
        let j = choose|j: int| i < j < rows.len() && same_key(rows[i], #[trigger] rows[j]);
        lemma_last_of_key(rows, j)
    } else {
        i
    }
}

/// The rows picked for the current-state table have the keys of the batch,
/// all of them and no others.
pub proof fn lemma_latest_keys(rows: Seq<CommunicationRecord>)
    requires
        keyed(rows),
    ensures
        keys_of(latest_per_key(rows)) == keys_of(rows),
{
    let kept = latest_per_key(rows);
    assert forall|key: StateKey| keys_of(kept).contains(key) implies keys_of(rows).contains(
        key,
    ) by {
        let p = choose|p: int| 0 <= p < kept.len() && key_of(#[trigger] kept[p]) == key;
        lemma_latest_kept(rows, rows.len() as int, p);
        let i = choose|i: int|
            0 <= i < rows.len() && #[trigger] rows[i] == kept[p] && !superseded(rows, i);
        assert(key_of(rows[i]) == key);
    }
    assert forall|key: StateKey| keys_of(rows).contains(key) implies keys_of(kept).contains(
        key,
    ) by {
        let i = choose|i: int| 0 <= i < rows.len() && key_of(#[trigger] rows[i]) == key;
        let m = lemma_last_of_key(rows, i);
        lemma_latest_keeps(rows, rows.len() as int, m);
        let p = choose|p: int| 0 <= p < kept.len() && kept[p] == rows[m];
        assert(key_of(kept[p]) == key);
    }
    assert(keys_of(kept) =~= keys_of(rows));
}

/// What upserting rows of distinct keys leaves in the current-state table:
/// the keys that were there and those of the rows; under the key of each row
/// that row, as `stored` tells; and under every other key what was there.
pub proof fn lemma_upsert_distinct(
    current: Map<StateKey, CommunicationRecord>,
    rows: Seq<CommunicationRecord>,
    server_now: Timestamp,
)
    requires
        distinct_keys(rows),
    ensures
        upsert_all(current, rows, server_now).dom() == current.dom().union(keys_of(rows)),
        forall|i: int|
            0 <= i < rows.len() ==> upsert_all(current, rows, server_now)[key_of(
                #[trigger] rows[i],
            )] == stored(rows[i], current.dom().contains(key_of(rows[i])), server_now),
        forall|key: StateKey|
            current.dom().contains(key) && !keys_of(rows).contains(key) ==> upsert_all(
                current,
                rows,
                server_now,
            )[key] == current[key],
    decreases rows.len(),
{
    let after = upsert_all(current, rows, server_now);
    if rows.len() == 0 {
        assert(after.dom() =~= current.dom().union(keys_of(rows)));
    } else {
        let head = rows.drop_last();
        let row = rows.last();
        let before = upsert_all(current, head, server_now);
        assert forall|i: int, j: int| 0 <= i < j < head.len() implies key_of(#[trigger] head[i])
            != key_of(#[trigger] head[j]) by {
            assert(head[i] == rows[i] && head[j] == rows[j]);
        }
        lemma_upsert_distinct(current, head, server_now);
        assert(!keys_of(head).contains(key_of(row))) by {
            if keys_of(head).contains(key_of(row)) {
                let i = choose|i: int| 0 <= i < head.len() && key_of(#[trigger] head[i]) == key_of(row);
                assert(head[i] == rows[i]);
                assert(key_of(rows[i]) != key_of(rows[rows.len() - 1]));
            }
        }
        assert forall|key: StateKey| keys_of(rows).contains(key) <==> (keys_of(head).contains(key)
            || key == key_of(row)) by {
            if keys_of(rows).contains(key) {
                let i = choose|i: int| 0 <= i < rows.len() && key_of(#[trigger] rows[i]) == key;
                if i < head.len() {
                    assert(head[i] == rows[i]);
                }
            }
            if keys_of(head).contains(key) {
                let i = choose|i: int| 0 <= i < head.len() && key_of(#[trigger] head[i]) == key;
                assert(head[i] == rows[i]);
            }
            if key == key_of(row) {
                assert(rows[rows.len() - 1] == row);
            }
        }
        assert(after.dom() =~= current.dom().union(keys_of(rows)));
        assert forall|i: int| 0 <= i < rows.len() implies after[key_of(#[trigger] rows[i])]
            == stored(rows[i], current.dom().contains(key_of(rows[i])), server_now) by {
            if i < head.len() {
                assert(head[i] == rows[i]);
                assert(keys_of(head).contains(key_of(head[i])));
            }
        }
    }
}

/// A list of rows has finitely many keys.
pub proof fn lemma_keys_finite(rows: Seq<CommunicationRecord>)
    ensures
        keys_of(rows).finite(),
    decreases rows.len(),
{
    if rows.len() == 0 {
        assert(keys_of(rows) =~= Set::<StateKey>::empty());
    } else {
        let head = rows.drop_last();
        lemma_keys_finite(head);
        assert forall|key: StateKey| keys_of(rows).contains(key) <==> keys_of(head).insert(
            key_of(rows.last()),
        ).contains(key) by {
            if keys_of(rows).contains(key) {
                let i = choose|i: int| 0 <= i < rows.len() && key_of(#[trigger] rows[i]) == key;
                if i < head.len() {
                    assert(head[i] == rows[i]);
                }
            }
            if keys_of(head).contains(key) {
                let i = choose|i: int| 0 <= i < head.len() && key_of(#[trigger] head[i]) == key;
                assert(head[i] == rows[i]);
            }
            if key == key_of(rows.last()) {
                assert(rows[rows.len() - 1] == rows.last());
            }
        }
        assert(keys_of(rows) =~= keys_of(head).insert(key_of(rows.last())));
    }
}

/// How many rows the first `k` statements for a list of `rows` rows carry.
pub open spec fn carried(rows: nat, k: int) -> int {
    if k <= 0 {
        0
    } else if k * CHUNK_SIZE <= rows {
        k * CHUNK_SIZE
    } else {
        rows as int
    }
}

/// `x`, or the nearer end of `0..=hi` where it lies outside.
pub open spec fn clamped(x: int, hi: int) -> int {
    if x < 0 {
        0
    } else if x > hi {
        hi
    } else {
        x
    }
}

/// The tables after the first `count` statements of a plan whose
/// current-state rows have distinct keys.
pub open spec fn progress(tables: Tables, plan: WritePlan, count: int, server_now: Timestamp) -> Tables {
    let suntech = plan.rows_for(Table::Suntech);
    let queclink = plan.rows_for(Table::Queclink);
    let current = plan.rows_for(Table::CurrentState);
    let a = chunk_count(suntech.len()) as int;
    let b = chunk_count(queclink.len()) as int;
    let c = chunk_count(current.len()) as int;
    batch_effect(
        tables,
        suntech.take(carried(suntech.len(), clamped(count, a))),
        queclink.take(carried(queclink.len(), clamped(count - a, b))),
        current.take(carried(current.len(), clamped(count - a - b, c))),
        server_now,
    )
}

/// The statements of a plan run one after the other without a refusal, each
/// adding its chunk to what the earlier ones wrote.
pub proof fn lemma_plan_progress(tables: Tables, plan: WritePlan, count: int, server_now: Timestamp)
    requires
        plan.well_formed(),
        distinct_keys(plan.rows_for(Table::CurrentState)),
        0 <= count <= plan.statement_seq().len(),
    ensures
        apply_plan(tables, plan, count, server_now) == Some(
            progress(tables, plan, count, server_now),
        ),
    decreases count,
{
    let suntech = plan.rows_for(Table::Suntech);
    let queclink = plan.rows_for(Table::Queclink);
    let current = plan.rows_for(Table::CurrentState);
    let a = chunk_count(suntech.len()) as int;
    let b = chunk_count(queclink.len()) as int;
    let c = chunk_count(current.len()) as int;
    plan.lemma_statements();
    let group_a = chunks(Table::Suntech, suntech.len());
    let group_b = chunks(Table::Queclink, queclink.len());
    let group_c = chunks(Table::CurrentState, current.len());
    assert(plan.statement_seq() == group_a + group_b + group_c);
    if count == 0 {
        assert(suntech.take(0) =~= Seq::empty());
        assert(queclink.take(0) =~= Seq::empty());
        assert(current.take(0) =~= Seq::empty());
        assert(tables.suntech + Seq::<CommunicationRecord>::empty() =~= tables.suntech);
        assert(tables.queclink + Seq::<CommunicationRecord>::empty() =~= tables.queclink);
    } else {
        lemma_plan_progress(tables, plan, count - 1, server_now);
        let before = progress(tables, plan, count - 1, server_now);
        let after = progress(tables, plan, count, server_now);
        let idx = count - 1;
        let statement = plan.statement_seq()[idx];
        let rows = plan.rows_of(idx);
        if idx < a {
            assert(statement == group_a[idx]);
            assert(statement == chunk(Table::Suntech, suntech.len(), idx as nat));
            let p = carried(suntech.len(), idx);
            let e = carried(suntech.len(), count);
            assert(rows == suntech.subrange(p, e));
            assert(suntech.take(p) + suntech.subrange(p, e) =~= suntech.take(e));
            assert(before.suntech + rows =~= after.suntech);
        } else if idx < a + b {
            assert(statement == group_b[idx - a]);
            assert(statement == chunk(Table::Queclink, queclink.len(), (idx - a) as nat));
            let p = carried(queclink.len(), idx - a);
            let e = carried(queclink.len(), count - a);
            assert(rows == queclink.subrange(p, e));
            assert(queclink.take(p) + queclink.subrange(p, e) =~= queclink.take(e));
            assert(before.queclink + rows =~= after.queclink);
        } else {
            assert(statement == group_c[idx - a - b]);
            assert(statement == chunk(Table::CurrentState, current.len(), (idx - a - b) as nat));
            let p = carried(current.len(), idx - a - b);
            let e = carried(current.len(), count - a - b);
            assert(rows == current.subrange(p, e));
            assert forall|i: int, j: int| 0 <= i < j < rows.len() implies key_of(#[trigger] rows[i])
                != key_of(#[trigger] rows[j]) by {
                assert(rows[i] == current[p + i] && rows[j] == current[p + j]);
            }
            lemma_upsert_all_concat(tables.current, current.take(p), rows, server_now);
            assert(current.take(p) + rows =~= current.take(e));
        }
    }
}

/// A plan that runs to its end leaves the tables as `batch_effect` tells:
/// every history row appended in the order of the plan, and the
/// current-state rows upserted.
pub proof fn lemma_plan_effect(tables: Tables, plan: WritePlan, server_now: Timestamp)
    requires
        plan.well_formed(),
        distinct_keys(plan.rows_for(Table::CurrentState)),
    ensures
        apply_plan(tables, plan, plan.statement_seq().len() as int, server_now) == Some(
            batch_effect(
                tables,
                plan.rows_for(Table::Suntech),
                plan.rows_for(Table::Queclink),
                plan.rows_for(Table::CurrentState),
                server_now,
            ),
        ),
{
    let suntech = plan.rows_for(Table::Suntech);
    let queclink = plan.rows_for(Table::Queclink);
    let current = plan.rows_for(Table::CurrentState);
    plan.lemma_statements();
    lemma_plan_progress(tables, plan, plan.statement_seq().len() as int, server_now);
    assert(suntech.take(suntech.len() as int) =~= suntech);
    assert(queclink.take(queclink.len() as int) =~= queclink);
    assert(current.take(current.len() as int) =~= current);
}

/// Whether `plan` is the plan of the batch `batch`: every row goes to the
/// history of its vendor, and the current-state table gets for every key the
/// last row of the batch that has it.
pub open spec fn plans_batch(plan: WritePlan, batch: Seq<CommunicationRecord>) -> bool {
    &&& plan.rows_for(Table::Suntech) == routed_to(batch, Table::Suntech)
    &&& plan.rows_for(Table::Queclink) == routed_to(batch, Table::Queclink)
    &&& plan.rows_for(Table::CurrentState) == latest_per_key(batch)
}

/// The tables after the whole plan of a batch has run and committed.
pub open spec fn committed(tables: Tables, plan: WritePlan, server_now: Timestamp) -> Option<
    Tables,
> {
    apply_plan(tables, plan, plan.statement_seq().len() as int, server_now)
}

/// Row counts of a committed batch. The database refuses none of the
/// statements; the two history tables together grow by one row for every row
/// of the batch, each row in the table of its vendor; and the current-state
/// table grows by one row for every key of the batch that it did not hold.
pub proof fn lemma_committed_row_counts(
    tables: Tables,
    plan: WritePlan,
    batch: Seq<CommunicationRecord>,
    server_now: Timestamp,
)
    requires
        plan.well_formed(),
        plans_batch(plan, batch),
        keyed(batch),
        tables.current.dom().finite(),
    ensures
        committed(tables, plan, server_now) matches Some(after) && {
            &&& after.suntech.len() == tables.suntech.len() + routed_to(
                batch,
                Table::Suntech,
            ).len()
            &&& after.queclink.len() == tables.queclink.len() + routed_to(
                batch,
                Table::Queclink,
            ).len()
            &&& after.suntech.len() + after.queclink.len() == tables.suntech.len()
                + tables.queclink.len() + batch.len()
            &&& after.current.dom().len() == tables.current.dom().len() + keys_of(
                batch,
            ).difference(tables.current.dom()).len()
        },
{
    let current = latest_per_key(batch);
    lemma_latest_distinct(batch, batch.len() as int);
    lemma_plan_effect(tables, plan, server_now);
    crate::services::database::lemma_routed_lengths(batch);
    lemma_upsert_distinct(tables.current, current, server_now);
    lemma_latest_keys(batch);
    lemma_keys_finite(batch);
    let held = tables.current.dom();
    let fresh = keys_of(batch).difference(held);
    assert(held.union(keys_of(batch)) =~= held + fresh);
    assert(held.disjoint(fresh));
    lemma_set_disjoint_lens(held, fresh);
}

/// The current state after a committed batch. The row that the table holds
/// under a key of the batch is the last row of the batch with that key,
/// column for column; where the key was held before, its `received_at` is the
/// time of the database server.
pub proof fn lemma_committed_current_state(
    tables: Tables,
    plan: WritePlan,
    batch: Seq<CommunicationRecord>,
    last: int,
    server_now: Timestamp,
)
    requires
        plan.well_formed(),
        plans_batch(plan, batch),
        keyed(batch),
        0 <= last < batch.len(),
        !superseded(batch, last),
    ensures
        committed(tables, plan, server_now) matches Some(after) && {
            &&& after.current.dom().contains(key_of(batch[last]))
            &&& after.current[key_of(batch[last])] == stored(
                batch[last],
                tables.current.dom().contains(key_of(batch[last])),
                server_now,
            )
        },
{
    let current = latest_per_key(batch);
    lemma_latest_distinct(batch, batch.len() as int);
    lemma_plan_effect(tables, plan, server_now);
    lemma_upsert_distinct(tables.current, current, server_now);
    lemma_latest_keeps(batch, batch.len() as int, last);
    let p = choose|p: int| 0 <= p < current.len() && current[p] == batch[last];
    assert(keys_of(current).contains(key_of(current[p])));
}

/// A key that the batch does not touch keeps its row.
pub proof fn lemma_committed_untouched(
    tables: Tables,
    plan: WritePlan,
    batch: Seq<CommunicationRecord>,
    key: StateKey,
    server_now: Timestamp,
)
    requires
        plan.well_formed(),
        plans_batch(plan, batch),
        keyed(batch),
        tables.current.dom().contains(key),
        !keys_of(batch).contains(key),
    ensures
        committed(tables, plan, server_now) matches Some(after) && after.current.dom().contains(
            key,
        ) && after.current[key] == tables.current[key],
{
    lemma_latest_distinct(batch, batch.len() as int);
    lemma_plan_effect(tables, plan, server_now);
    lemma_upsert_distinct(tables.current, latest_per_key(batch), server_now);
    lemma_latest_keys(batch);
}

/// A payload that is delivered twice within one batch gives two history rows
/// and one current-state row, and the current-state table ends as it does
/// when the payload is delivered once.
pub proof fn lemma_replay_within_batch(
    tables: Tables,
    once: WritePlan,
    twice: WritePlan,
    row: CommunicationRecord,
    server_now: Timestamp,
)
    requires
        once.well_formed(),
        twice.well_formed(),
        plans_batch(once, seq![row]),
        plans_batch(twice, seq![row, row]),
        row.msg_class is Some,
    ensures
        committed(tables, once, server_now) matches Some(single) && committed(
            tables,
            twice,
            server_now,
        ) matches Some(double) && {
            &&& double.suntech.len() + double.queclink.len() == tables.suntech.len()
                + tables.queclink.len() + 2
            &&& double.current == single.current
            &&& double.current.dom() == tables.current.dom().insert(key_of(row))
        },
{
    let one = seq![row];
    let two = seq![row, row];
    lemma_latest_distinct(one, 1);
    lemma_latest_distinct(two, 2);
    lemma_plan_effect(tables, once, server_now);
    lemma_plan_effect(tables, twice, server_now);
    crate::services::database::lemma_routed_lengths(two);
    assert(superseded(two, 0)) by {
        assert(same_key(two[0], two[1]));
    }
    assert(!superseded(two, 1));
    assert(!superseded(one, 0));
    reveal_with_fuel(latest_among, 3);
    assert(latest_per_key(two) =~= seq![row]);
    assert(latest_per_key(one) =~= seq![row]);
    reveal_with_fuel(upsert_all, 2);
    assert(seq![row].drop_last() =~= Seq::<CommunicationRecord>::empty());
}

} // verus!

//! What the database does with each statement, as a model over a table of
//! rows, and the laws that the statements built by this crate obey there.
use vstd::prelude::*;
use crate::error::AppError;
use crate::query::{changes, Assignment, Field, Param, Predicate, Query};

verus! {

/// A row as the database holds it: the identifier and timestamps it assigns,
/// and one value per column of the schema.
pub struct StoredRow {
    pub id: u128,
    pub created_at: int,
    pub updated_at: int,
    pub cells: Seq<Param>,
}

/// The rows of a table in the order they were created.
pub struct TableState {
    pub rows: Seq<StoredRow>,
}

/// What a statement hands back.
pub enum Outcome {
    /// A row count.
    Count(nat),
    /// Rows, in the order the statement returns them.
    Rows(Seq<StoredRow>),
    /// The one row that was fetched, created, updated or deleted.
    One(StoredRow),
    /// No row matched.
    NoRow,
}

/// Identifiers are unique, creation times follow the order of the rows, and
/// no row was updated before it was created.
pub open spec fn well_formed(t: TableState) -> bool {
    &&& forall|i: int, j: int| 0 <= i < j < t.rows.len() ==> t.rows[i].id != t.rows[j].id
    &&& forall|i: int, j: int|
        0 <= i <= j < t.rows.len() ==> t.rows[i].created_at <= t.rows[j].created_at
    &&& forall|i: int| 0 <= i < t.rows.len() ==> t.rows[i].created_at <= t.rows[i].updated_at
}

/// `id` is held by no row.
pub open spec fn fresh(t: TableState, id: u128) -> bool {
    forall|i: int| 0 <= i < t.rows.len() ==> t.rows[i].id != id
}

/// `now` is not earlier than any timestamp in the table.
pub open spec fn not_before(t: TableState, now: int) -> bool {
    forall|i: int|
        0 <= i < t.rows.len() ==> t.rows[i].created_at <= now && t.rows[i].updated_at <= now
}

pub open spec fn cell(r: StoredRow, f: Field) -> Param {
    match f {
        Field::Id => Param::Uuid(r.id),
        Field::Column(i) => r.cells[i as int],
    }
}

/// The row meets every predicate.
pub open spec fn meets(r: StoredRow, preds: Seq<Predicate>) -> bool {
    forall|k: int| 0 <= k < preds.len() ==> cell(r, #[trigger] preds[k].field) == preds[k].value
}

/// The rows that meet every predicate, in their order.
pub open spec fn matching(rows: Seq<StoredRow>, preds: Seq<Predicate>) -> Seq<StoredRow>
    decreases rows.len(),
{
    if rows.len() == 0 {
        Seq::empty()
    } else {
        let rest = matching(rows.drop_last(), preds);
        if meets(rows.last(), preds) {
            rest.push(rows.last())
        } else {
            rest
        }
    }
}

/// At most `limit` elements from position `offset`.
pub open spec fn window(s: Seq<StoredRow>, offset: int, limit: int) -> Seq<StoredRow> {
    let start = window_start(s.len() as int, offset);
    let end = if limit <= 0 {
        start
    } else if start + limit < s.len() {
        start + limit
    } else {
        s.len() as int
    };
    s.subrange(start, end)
}

pub open spec fn window_start(len: int, offset: int) -> int {
    if offset < 0 {
        0
    } else if offset < len {
        offset
    } else {
        len
    }
}

/// The cells after the assignments, applied in order.
pub open spec fn assigned(cells: Seq<Param>, sets: Seq<Assignment>) -> Seq<Param>
    decreases sets.len(),
{
    if sets.len() == 0 {
        cells
    } else {
        assigned(cells, sets.drop_last()).update(sets.last().column as int, sets.last().value)
    }
}

pub open spec fn updated_row(r: StoredRow, sets: Seq<Assignment>, now: int) -> StoredRow {
    StoredRow { cells: assigned(r.cells, sets), updated_at: now, ..r }
}

/// Index of the row with the identifier, if there is one.
pub open spec fn position(t: TableState, id: u128) -> Option<int> {
    if exists|i: int| 0 <= i < t.rows.len() && t.rows[i].id == id {
        Some(choose|i: int| 0 <= i < t.rows.len() && t.rows[i].id == id)
    } else {
        None
    }
}

pub open spec fn first_or_none(rows: Seq<StoredRow>) -> Outcome {
    if rows.len() == 0 {
        Outcome::NoRow
    } else {
        Outcome::One(rows[0])
    }
}

/// The table after a statement and what the statement returns. A created row
/// gets the identifier `id`, which the database draws, and both of its
/// timestamps are `now`, the database's clock; the identifier is the primary
/// key, so an insert whose drawn identifier is taken fails and changes
/// nothing. An update sets `updatedAt` to `now`.
pub open spec fn execute(t: TableState, q: Query, id: u128, now: int) -> (TableState, Outcome) {
    match q {
        Query::Count { filters } => (t, Outcome::Count(matching(t.rows, filters@).len())),
        Query::Page { limit, offset, filters } => (
            t,
            Outcome::Rows(window(matching(t.rows, filters@), offset as int, limit as int)),
        ),
        Query::SelectOne { filters } => (t, first_or_none(matching(t.rows, filters@))),
        Query::Insert { values } => if fresh(t, id) {
            let r = StoredRow { id, created_at: now, updated_at: now, cells: values@ };
            (TableState { rows: t.rows.push(r) }, Outcome::One(r))
        } else {
            (t, Outcome::NoRow)
        },
        Query::Update { id: target, sets } => match position(t, target) {
            Some(i) => {
                let r = updated_row(t.rows[i], sets@, now);
                (TableState { rows: t.rows.update(i, r) }, Outcome::One(r))
            },
            None => (t, Outcome::NoRow),
        },
        Query::Delete { id: target } => match position(t, target) {
            Some(i) => (TableState { rows: t.rows.remove(i) }, Outcome::One(t.rows[i])),
            None => (t, Outcome::NoRow),
        },
    }
}

/// What a single-row request answers for an outcome: the row, or `NotFound`.
pub open spec fn single_result(o: Outcome) -> Result<StoredRow, AppError> {
    match o {
        Outcome::One(r) => Ok(r),
        _ => Err(AppError::NotFound),
    }
}

/// The only predicate of a lookup by identifier.
pub open spec fn id_is(id: u128) -> Seq<Predicate> {
    seq![Predicate { field: Field::Id, value: Param::Uuid(id) }]
}

proof fn lemma_matching_meets(rows: Seq<StoredRow>, preds: Seq<Predicate>)
    ensures
        forall|k: int| 0 <= k < matching(rows, preds).len() ==> meets(#[trigger] matching(rows, preds)[k], preds),
        matching(rows, preds).len() <= rows.len(),
    decreases rows.len(),
{
    if rows.len() > 0 {
        lemma_matching_meets(rows.drop_last(), preds);
    }
}

proof fn lemma_matching_none(rows: Seq<StoredRow>, preds: Seq<Predicate>)
    requires
        forall|i: int| 0 <= i < rows.len() ==> !meets(#[trigger] rows[i], preds),
    ensures
        matching(rows, preds).len() == 0,
    decreases rows.len(),
{
    if rows.len() > 0 {
        assert(!meets(rows[rows.len() - 1], preds));
        lemma_matching_none(rows.drop_last(), preds);
    }
}

proof fn lemma_matching_bounded(rows: Seq<StoredRow>, preds: Seq<Predicate>, b: int)
    requires
        forall|i: int| 0 <= i < rows.len() ==> #[trigger] rows[i].created_at <= b,
    ensures
        forall|k: int|
            0 <= k < matching(rows, preds).len() ==> #[trigger] matching(rows, preds)[k].created_at <= b,
    decreases rows.len(),
{
    if rows.len() > 0 {
        let init = rows.drop_last();
        assert forall|i: int| 0 <= i < init.len() implies #[trigger] init[i].created_at <= b by {
            assert(init[i] == rows[i]);
        }
        lemma_matching_bounded(init, preds, b);
        assert(rows[rows.len() - 1].created_at <= b);
        let rest = matching(init, preds);
        assert forall|k: int|
            0 <= k < matching(rows, preds).len() implies #[trigger] matching(rows, preds)[k].created_at
            <= b by {
            if k < rest.len() {
                assert(rest[k].created_at <= b);
            }
        }
    }
}

pub open spec fn oldest_first(rows: Seq<StoredRow>) -> bool {
    forall|i: int, j: int| 0 <= i <= j < rows.len() ==> rows[i].created_at <= rows[j].created_at
}

proof fn lemma_matching_sorted(rows: Seq<StoredRow>, preds: Seq<Predicate>)
    requires
        oldest_first(rows),
    ensures
        oldest_first(matching(rows, preds)),
    decreases rows.len(),
{
    if rows.len() > 0 {
        let init = rows.drop_last();
        assert(oldest_first(init));
        lemma_matching_sorted(init, preds);
        assert forall|i: int| 0 <= i < init.len() implies #[trigger] init[i].created_at
            <= rows.last().created_at by {
            assert(init[i] == rows[i]);
        }
        lemma_matching_bounded(init, preds, rows.last().created_at);
    }
}

proof fn lemma_assigned(values: Seq<Option<Param>>, cells: Seq<Param>)
    requires
        values.len() == cells.len(),
        values.len() <= usize::MAX,
    ensures
        assigned(cells, changes(values)).len() == cells.len(),
        forall|k: int|
            0 <= k < cells.len() ==> #[trigger] assigned(cells, changes(values))[k] == match values[k] {
                Some(v) => v,
                None => cells[k],
            },
{
    lemma_assigned_prefix(values, cells);
}

/// The assignments for a prefix of the values touch only that prefix.
proof fn lemma_assigned_prefix(values: Seq<Option<Param>>, cells: Seq<Param>)
    requires
        values.len() <= cells.len(),
        values.len() <= usize::MAX,
    ensures
        assigned(cells, changes(values)).len() == cells.len(),
        forall|k: int|
            0 <= k < cells.len() ==> #[trigger] assigned(cells, changes(values))[k] == if k < values.len() {
                match values[k] {
                    Some(v) => v,
                    None => cells[k],
                }
            } else {
                cells[k]
            },
    decreases values.len(),
{
    if values.len() > 0 {
        let n = values.len() - 1;
        let init = values.drop_last();
        lemma_assigned_prefix(init, cells);
        let before = assigned(cells, changes(init));
        match values.last() {
            Some(v) => {
                assert(changes(values) == changes(init).push(Assignment { column: n as usize, value: v }));
                assert(changes(values).drop_last() == changes(init));
                assert(assigned(cells, changes(values)) == before.update(n, v));
            },
            None => {
                assert(changes(values) == changes(init));
            },
        }
        assert forall|k: int| 0 <= k < cells.len() implies #[trigger] assigned(cells, changes(values))[k]
            == if k < values.len() {
            match values[k] {
                Some(v) => v,
                None => cells[k],
            }
        } else {
            cells[k]
        } by {
            if k < n {
                assert(values[k] == init[k]);
            }
        }
    }
}

/// A created row carries an identifier that no earlier row of the table
/// holds, and the table keeps its identifiers unique; the create succeeds
/// whenever the drawn identifier is new.
pub proof fn lemma_create_unique_id(t: TableState, q: Query, id: u128, now: int)
    requires
        well_formed(t),
        q is Insert,
        not_before(t, now),
    ensures
        ({
            let (t2, out) = execute(t, q, id, now);
            &&& out matches Outcome::One(r) ==> r.id == id && forall|i: int|
                0 <= i < t.rows.len() ==> t.rows[i].id != r.id
            &&& fresh(t, id) ==> out is One
            &&& well_formed(t2)
        }),
{
}

/// Fetching a row by its identifier right after creating it hands back the
/// values it was created with, and its timestamps with `updatedAt` not
/// before `createdAt`.
pub proof fn lemma_create_then_fetch(t: TableState, q: Query, fetch: Query, id: u128, now: int, later: int)
    requires
        well_formed(t),
        fresh(t, id),
        q is Insert,
        fetch matches Query::SelectOne { filters } && filters@ == id_is(id),
    ensures
        ({
            let (t2, _) = execute(t, q, id, now);
            let (_, out) = execute(t2, fetch, id, later);
            &&& out matches Outcome::One(r) && r.id == id && r.cells == q->Insert_values@
                && r.created_at == now && r.updated_at >= r.created_at
        }),
{
    let t2 = execute(t, q, id, now).0;
    let preds = id_is(id);
    let init = t2.rows.drop_last();
    assert(init == t.rows);
    assert forall|i: int| 0 <= i < init.len() implies !meets(#[trigger] init[i], preds) by {
        assert(cell(init[i], preds[0].field) != preds[0].value);
    }
    lemma_matching_none(init, preds);
    assert(meets(t2.rows.last(), preds));
}

/// An update that names some of the columns changes exactly those, keeps
/// the identifier and creation time, and sets `updatedAt` to the time of the
/// update.
pub proof fn lemma_update_keeps_unnamed(
    t: TableState,
    id: u128,
    values: Seq<Option<Param>>,
    q: Query,
    now: int,
    drawn: u128,
)
    requires
        well_formed(t),
        q matches Query::Update { id: target, sets } && target == id && sets@ == changes(values),
        position(t, id) matches Some(i) && t.rows[i].cells.len() == values.len(),
        values.len() <= usize::MAX,
    ensures
        ({
            let i = position(t, id)->Some_0;
            let old_row = t.rows[i];
            let (t2, out) = execute(t, q, drawn, now);
            &&& out matches Outcome::One(r) && r.id == id && r.created_at == old_row.created_at
                && r.updated_at == now && r.cells.len() == old_row.cells.len()
                && (forall|k: int| 0 <= k < values.len() ==> #[trigger] r.cells[k] == match values[k] {
                    Some(v) => v,
                    None => old_row.cells[k],
                })
            &&& out == Outcome::One(t2.rows[i])
        }),
{
    let i = position(t, id)->Some_0;
    lemma_assigned(values, t.rows[i].cells);
}

/// Once a row is deleted, fetching it by its identifier finds nothing and
/// answers `NotFound`.
pub proof fn lemma_delete_then_fetch(t: TableState, q: Query, fetch: Query, id: u128, drawn: u128, now: int)
    requires
        well_formed(t),
        q == (Query::Delete { id }),
        fetch matches Query::SelectOne { filters } && filters@ == id_is(id),
    ensures
        ({
            let (t2, _) = execute(t, q, drawn, now);
            let (_, out) = execute(t2, fetch, drawn, now);
            out == Outcome::NoRow && single_result(out) == Err::<StoredRow, AppError>(AppError::NotFound)
        }),
{
    let t2 = execute(t, q, drawn, now).0;
    let preds = id_is(id);
    match position(t, id) {
        Some(p) => {
            assert forall|i: int| 0 <= i < t2.rows.len() implies !meets(#[trigger] t2.rows[i], preds) by {
                if i < p {
                    assert(t2.rows[i] == t.rows[i]);
                } else {
                    assert(t2.rows[i] == t.rows[i + 1]);
                }
                assert(cell(t2.rows[i], preds[0].field) != preds[0].value);
            }
        },
        None => {
            assert forall|i: int| 0 <= i < t2.rows.len() implies !meets(#[trigger] t2.rows[i], preds) by {
                assert(cell(t2.rows[i], preds[0].field) != preds[0].value);
            }
        },
    }
    lemma_matching_none(t2.rows, preds);
}

/// A page of a filtered listing holds only rows that meet every filter, and
/// holds them oldest first.
pub proof fn lemma_page_filtered(t: TableState, q: Query, drawn: u128, now: int)
    requires
        well_formed(t),
        q is Page,
    ensures
        ({
            let (t2, out) = execute(t, q, drawn, now);
            &&& t2 == t
            &&& out matches Outcome::Rows(rows) && oldest_first(rows) && (forall|k: int|
                0 <= k < rows.len() ==> meets(#[trigger] rows[k], q->Page_filters@))
        }),
{
    let preds = q->Page_filters@;
    let m = matching(t.rows, preds);
    lemma_matching_meets(t.rows, preds);
    lemma_matching_sorted(t.rows, preds);
    let w = window(m, q->Page_offset as int, q->Page_limit as int);
    let start = window_start(m.len() as int, q->Page_offset as int);
    assert forall|k: int| 0 <= k < w.len() implies meets(#[trigger] w[k], preds) by {
        assert(w[k] == m[start + k]);
    }
    assert forall|i: int, j: int| 0 <= i <= j < w.len() implies w[i].created_at <= w[j].created_at by {
        assert(w[i] == m[start + i]);
        assert(w[j] == m[start + j]);
    }
}

} // verus!

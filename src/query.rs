//! Statements described by what they do: the bound values, the predicates of
//! lookups and listings, and the validation that builds them from requests.
use vstd::prelude::*;
use crate::error::AppError;
use crate::schema::{Schema, TableSpec};

verus! {

/// A value bound to a positional placeholder of a statement.
#[derive(Debug, Clone, PartialEq, Eq)]
pub enum Param {
    /// SQL `NULL`, bound as a missing text value.
    Null,
    Text(String),
    /// A UUID by its 128-bit value.
    Uuid(u128),
    Int(i32),
    BigInt(i64),
    Bool(bool),
    /// A double precision number by its IEEE-754 bit pattern.
    Double(u64),
}

impl Param {
    pub fn duplicate(&self) -> (r: Param)
        ensures
            r == *self,
    {
        match self {
            Param::Null => Param::Null,
            Param::Text(s) => Param::Text(s.clone()),
            Param::Uuid(u) => Param::Uuid(*u),
            Param::Int(i) => Param::Int(*i),
            Param::BigInt(i) => Param::BigInt(*i),
            Param::Bool(b) => Param::Bool(*b),
            Param::Double(d) => Param::Double(*d),
        }
    }
}

/// A column that a predicate tests: the identifier, or the schema's column
/// at an index.
#[derive(Debug, Clone, Copy, PartialEq, Eq)]
pub enum Field {
    Id,
    Column(usize),
}

/// `field = value`.
#[derive(Debug, Clone)]
pub struct Predicate {
    pub field: Field,
    pub value: Param,
}

/// `SET column = value` on the schema's column at an index.
#[derive(Debug, Clone)]
pub struct Assignment {
    pub column: usize,
    pub value: Param,
}

/// One optional filter of a lookup. Of the lookups that share a `group`, at
/// most one may carry a value.
#[derive(Debug, Clone)]
pub struct Lookup {
    pub field: Field,
    pub group: u64,
    pub value: Option<Param>,
}

/// A statement on one table, by what it does rather than by its text.
#[derive(Debug, Clone)]
pub enum Query {
    /// Number of rows that meet every filter.
    Count { filters: Vec<Predicate> },
    /// Rows that meet every filter, oldest first, `limit` of them from row `offset`.
    Page { limit: i64, offset: i64, filters: Vec<Predicate> },
    /// A row that meets every filter.
    SelectOne { filters: Vec<Predicate> },
    /// A new row with one value for each column of the schema.
    Insert { values: Vec<Param> },
    /// New values for some columns of the row with the identifier.
    Update { id: u128, sets: Vec<Assignment> },
    /// Removal of the row with the identifier.
    Delete { id: u128 },
}

/// The predicates of the lookups that carry a value, in their order.
pub open spec fn present(lookups: Seq<Lookup>) -> Seq<Predicate>
    decreases lookups.len(),
{
    if lookups.len() == 0 {
        Seq::empty()
    } else {
        let rest = present(lookups.drop_last());
        match lookups.last().value {
            Some(v) => rest.push(Predicate { field: lookups.last().field, value: v }),
            None => rest,
        }
    }
}

/// Two lookups of one group both carry a value.
pub open spec fn conflicting(lookups: Seq<Lookup>) -> bool {
    exists|i: int, j: int|
        0 <= i < j < lookups.len() && lookups[i].value is Some && lookups[j].value is Some
            && lookups[i].group == lookups[j].group
}

/// Filters of a listing: the optional filters that carry a value.
pub fn supplied_filters(lookups: &Vec<Lookup>) -> (r: Vec<Predicate>)
    ensures
        r@ == present(lookups@),
{
    let mut r: Vec<Predicate> = Vec::new();
    let mut i: usize = 0;
    while i < lookups.len()
        invariant
            i <= lookups@.len(),
            r@ == present(lookups@.take(i as int)),
        decreases lookups@.len() - i,
    {
        assert(lookups@.take(i as int + 1).drop_last() == lookups@.take(i as int));
        match &lookups[i].value {
            Some(v) => {
                r.push(Predicate { field: lookups[i].field, value: v.duplicate() });
            },
            None => {},
        }
        i = i + 1;
    }
    assert(lookups@.take(lookups@.len() as int) == lookups@);
    r
}

/// Whether two lookups of one group both carry a value.
fn has_conflict(lookups: &Vec<Lookup>) -> (r: bool)
    ensures
        r == conflicting(lookups@),
{
    let n = lookups.len();
    let mut j: usize = 0;
    while j < n
        invariant
            n == lookups@.len(),
            j <= n,
            forall|a: int, b: int|
                0 <= a < b < j ==> !(lookups@[a].value is Some && lookups@[b].value is Some
                    && lookups@[a].group == lookups@[b].group),
        decreases n - j,
    {
        if lookups[j].value.is_some() {
            let mut i: usize = 0;
            while i < j
                invariant
                    n == lookups@.len(),
                    i <= j < n,
                    lookups@[j as int].value is Some,
                    forall|a: int|
                        0 <= a < i ==> !(lookups@[a].value is Some && lookups@[a].group
                            == lookups@[j as int].group),
                decreases j - i,
            {
                if lookups[i].value.is_some() && lookups[i].group == lookups[j].group {
                    return true;
                }
                i = i + 1;
            }
        }
        j = j + 1;
    }
    false
}

/// The statement that fetches the one row that the lookups describe.
pub fn select_one_query(lookups: &Vec<Lookup>) -> (r: Result<Query, AppError>)
    ensures
        present(lookups@).len() == 0 <==> r == Err::<Query, AppError>(AppError::NoFilterCriteria),
        present(lookups@).len() > 0 && conflicting(lookups@) <==> r == Err::<Query, AppError>(
            AppError::AmbiguousFilter,
        ),
        r is Ok <==> present(lookups@).len() > 0 && !conflicting(lookups@),
        r matches Ok(q) ==> q matches Query::SelectOne { filters } && filters@ == present(
            lookups@,
        ),
{
    let filters = supplied_filters(lookups);
    if filters.len() == 0 {
        return Err(AppError::NoFilterCriteria);
    }
    if has_conflict(lookups) {
        return Err(AppError::AmbiguousFilter);
    }
    Ok(Query::SelectOne { filters })
}

} // verus!

verus! {

/// The statement that counts the rows a listing draws from.
pub fn count_query(filters: Vec<Predicate>) -> (r: Query)
    ensures
        r matches Query::Count { filters: f } && f@ == filters@,
{
    Query::Count { filters }
}

/// The statement that fetches one page of a listing.
pub fn page_query(limit: i64, offset: i64, filters: Vec<Predicate>) -> (r: Result<Query, AppError>)
    ensures
        limit <= 0 <==> r == Err::<Query, AppError>(AppError::InvalidLimit),
        limit > 0 && offset < 0 <==> r == Err::<Query, AppError>(AppError::InvalidOffset),
        r is Ok <==> limit > 0 && offset >= 0,
        r matches Ok(q) ==> q matches Query::Page { limit: l, offset: o, filters: f } && l == limit
            && o == offset && f@ == filters@,
{
    if limit <= 0 {
        return Err(AppError::InvalidLimit);
    }
    if offset < 0 {
        return Err(AppError::InvalidOffset);
    }
    Ok(Query::Page { limit, offset, filters })
}

/// Index of the first required column that has no value, if any.
pub open spec fn first_missing(schema: TableSpec, values: Seq<Option<Param>>) -> Option<int> {
    if exists|i: int|
        0 <= i < values.len() && schema.required[i] && values[i] is None {
        let i = choose|i: int|
            0 <= i < values.len() && schema.required[i] && values[i] is None && (forall|
                k: int,
            |
                0 <= k < i ==> !(schema.required[k] && values[k] is None));
        Some(i)
    } else {
        None
    }
}

/// The value a create stores in a column: the one supplied, else `NULL`.
pub open spec fn stored_value(v: Option<Param>) -> Param {
    match v {
        Some(p) => p,
        None => Param::Null,
    }
}

/// The statement that creates a row from one optional value per column.
pub fn insert_query(schema: &Schema, values: &Vec<Option<Param>>) -> (r: Result<Query, AppError>)
    requires
        values@.len() == schema@.columns.len(),
    ensures
        match first_missing(schema@, values@) {
            Some(i) => r matches Err(AppError::MissingField(name)) && name@
                == schema@.columns[i],
            None => r matches Ok(Query::Insert { values: vs }) && vs@.len() == values@.len() && (
            forall|k: int| 0 <= k < values@.len() ==> vs@[k] == stored_value(values@[k])),
        },
{
    let n = values.len();
    let mut vs: Vec<Param> = Vec::new();
    let mut i: usize = 0;
    while i < n
        invariant
            n == values@.len(),
            n == schema@.columns.len(),
            n == schema@.required.len(),
            i <= n,
            vs@.len() == i,
            forall|k: int| 0 <= k < i ==> vs@[k] == stored_value(values@[k]),
            forall|k: int| 0 <= k < i ==> !(schema@.required[k] && values@[k] is None),
        decreases n - i,
    {
        match &values[i] {
            Some(v) => vs.push(v.duplicate()),
            None => {
                if schema.columns[i].required {
                    let ghost w = i as int;
                    assert(exists|j: int|
                        0 <= j < values@.len() && schema@.required[j] && values@[j] is None)
                        by {
                        assert(schema@.required[w] && values@[w] is None);
                    }
                    let ghost c = first_missing(schema@, values@);
                    assert(c == Some(w)) by {
                        let j = choose|j: int|
                            0 <= j < values@.len() && schema@.required[j]
                                && values@[j] is None && (forall|k: int|
                                0 <= k < j ==> !(schema@.required[k] && values@[k] is None));
                        assert(0 <= w < values@.len() && schema@.required[w] && values@[w] is None
                            && (forall|k: int|
                            0 <= k < w ==> !(schema@.required[k] && values@[k] is None)));
                    }
                    return Err(AppError::MissingField(schema.columns[i].name.clone()));
                }
                vs.push(Param::Null);
            },
        }
        i = i + 1;
    }
    assert(first_missing(schema@, values@) is None);
    Ok(Query::Insert { values: vs })
}

/// The assignments that an update makes: one for each column given a value.
pub open spec fn changes(values: Seq<Option<Param>>) -> Seq<Assignment>
    decreases values.len(),
{
    if values.len() == 0 {
        Seq::empty()
    } else {
        let rest = changes(values.drop_last());
        match values.last() {
            Some(v) => rest.push(Assignment { column: (values.len() - 1) as usize, value: v }),
            None => rest,
        }
    }
}

/// The statement that updates the row `id` with one optional value per
/// column; columns without a value keep what they hold.
pub fn update_query(id: u128, values: &Vec<Option<Param>>) -> (r: Result<Query, AppError>)
    ensures
        changes(values@).len() == 0 <==> r == Err::<Query, AppError>(AppError::NoUpdateFields),
        r is Ok <==> changes(values@).len() > 0,
        r matches Ok(q) ==> q matches Query::Update { id: i, sets } && i == id && sets@ == changes(
            values@,
        ),
{
    let mut sets: Vec<Assignment> = Vec::new();
    let mut i: usize = 0;
    while i < values.len()
        invariant
            i <= values@.len(),
            sets@ == changes(values@.take(i as int)),
        decreases values@.len() - i,
    {
        assert(values@.take(i as int + 1).drop_last() == values@.take(i as int));
        match &values[i] {
            Some(v) => sets.push(Assignment { column: i, value: v.duplicate() }),
            None => {},
        }
        i = i + 1;
    }
    assert(values@.take(values@.len() as int) == values@);
    if sets.len() == 0 {
        return Err(AppError::NoUpdateFields);
    }
    Ok(Query::Update { id, sets })
}

/// The statement that removes the row `id` and hands it back.
pub fn delete_query(id: u128) -> (r: Query)
    ensures
        r == (Query::Delete { id }),
{
    Query::Delete { id }
}

} // verus!

verus! {

/// Every lookup names a column of the schema.
pub open spec fn lookups_fit(schema: TableSpec, lookups: Seq<Lookup>) -> bool {
    forall|k: int|
        0 <= k < lookups.len() ==> match #[trigger] lookups[k].field {
            Field::Id => true,
            Field::Column(i) => i < schema.columns.len(),
        }
}

pub proof fn lemma_present_fits(schema: TableSpec, lookups: Seq<Lookup>)
    requires
        lookups_fit(schema, lookups),
    ensures
        present(lookups).len() <= lookups.len(),
        forall|k: int|
            0 <= k < present(lookups).len() ==> match #[trigger] present(lookups)[k].field {
                Field::Id => true,
                Field::Column(i) => i < schema.columns.len(),
            },
    decreases lookups.len(),
{
    if lookups.len() > 0 {
        let init = lookups.drop_last();
        assert forall|k: int| 0 <= k < init.len() implies match #[trigger] init[k].field {
            Field::Id => true,
            Field::Column(i) => i < schema.columns.len(),
        } by {
            assert(init[k] == lookups[k]);
        }
        lemma_present_fits(schema, init);
        let last = lookups[lookups.len() - 1];
        assert(match last.field {
            Field::Id => true,
            Field::Column(i) => i < schema.columns.len(),
        });
    }
}

pub proof fn lemma_changes_fit(values: Seq<Option<Param>>)
    requires
        values.len() <= usize::MAX,
    ensures
        changes(values).len() <= values.len(),
        forall|k: int|
            0 <= k < changes(values).len() ==> #[trigger] changes(values)[k].column < values.len(),
    decreases values.len(),
{
    if values.len() > 0 {
        lemma_changes_fit(values.drop_last());
    }
}

} // verus!

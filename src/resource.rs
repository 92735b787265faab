//! The operations every resource offers, on any schema: each turns a request
//! into the statement that serves it, or into the error that refuses it.
use vstd::prelude::*;
use crate::error::AppError;
use crate::query::{
    changes, conflicting, count_query, delete_query, first_missing, insert_query,
    lemma_changes_fit, lemma_present_fits, lookups_fit, page_query, present, select_one_query,
    stored_value, supplied_filters, update_query, Lookup, Param, Query,
};
use crate::schema::Schema;
use crate::sql::{
    assigned_values, count_text, delete_text, insert_text, page_text, render, select_text,
    update_text, values_of, Statement,
};

verus! {

/// The two statements of a listing: the count of all rows it draws from, and
/// the page.
#[derive(Debug, Clone)]
pub struct ListStatements {
    pub count: Statement,
    pub page: Statement,
}

/// Statements for a page of `limit` rows from row `offset`, oldest first,
/// narrowed by the optional filters that carry a value.
pub fn list_statements(schema: &Schema, limit: i64, offset: i64, filters: &Vec<Lookup>) -> (r:
    Result<ListStatements, AppError>)
    requires
        lookups_fit(schema@, filters@),
        filters@.len() + 5 <= usize::MAX,
    ensures
        limit <= 0 <==> r == Err::<ListStatements, AppError>(AppError::InvalidLimit),
        limit > 0 && offset < 0 <==> r == Err::<ListStatements, AppError>(AppError::InvalidOffset),
        r is Ok <==> limit > 0 && offset >= 0,
        r matches Ok(ls) ==> {
            &&& ls.count.sql@ == count_text(schema@, present(filters@))
            &&& ls.count.params@ == values_of(present(filters@))
            &&& ls.page.sql@ == page_text(schema@, present(filters@))
            &&& ls.page.params@ == seq![Param::BigInt(limit), Param::BigInt(offset)] + values_of(
                present(filters@),
            )
        },
{
    proof { lemma_present_fits(schema@, filters@); }
    let preds = supplied_filters(filters);
    let counted = supplied_filters(filters);
    let page = page_query(limit, offset, preds)?;
    let count = count_query(counted);
    Ok(ListStatements { count: render(schema, &count), page: render(schema, &page) })
}

/// Statement for the one row that the lookups describe.
pub fn get_statement(schema: &Schema, lookups: &Vec<Lookup>) -> (r: Result<Statement, AppError>)
    requires
        lookups_fit(schema@, lookups@),
        lookups@.len() + 3 <= usize::MAX,
    ensures
        present(lookups@).len() == 0 <==> r == Err::<Statement, AppError>(AppError::NoFilterCriteria),
        present(lookups@).len() > 0 && conflicting(lookups@) <==> r == Err::<Statement, AppError>(
            AppError::AmbiguousFilter,
        ),
        r is Ok <==> present(lookups@).len() > 0 && !conflicting(lookups@),
        r matches Ok(st) ==> st.sql@ == select_text(schema@, present(lookups@)) && st.params@
            == values_of(present(lookups@)),
{
    proof { lemma_present_fits(schema@, lookups@); }
    let q = select_one_query(lookups)?;
    Ok(render(schema, &q))
}

/// Statement that creates a row from one optional value per column; a
/// required column without a value refuses it.
pub fn create_statement(schema: &Schema, values: &Vec<Option<Param>>) -> (r: Result<
    Statement,
    AppError,
>)
    requires
        values@.len() == schema@.columns.len(),
        values@.len() + 3 <= usize::MAX,
    ensures
        match first_missing(schema@, values@) {
            Some(i) => r matches Err(AppError::MissingField(name)) && name@ == schema@.columns[i],
            None => r matches Ok(st) && st.sql@ == insert_text(schema@, values@.len())
                && st.params@ == Seq::new(values@.len(), |k: int| stored_value(values@[k])),
        },
{
    let q = insert_query(schema, values)?;
    let st = render(schema, &q);
    assert(st.params@ == Seq::new(values@.len(), |k: int| stored_value(values@[k])));
    Ok(st)
}

/// Statement that updates the row `id`: each column with a value takes it,
/// the others keep theirs.
pub fn update_statement(schema: &Schema, id: u128, values: &Vec<Option<Param>>) -> (r: Result<
    Statement,
    AppError,
>)
    requires
        values@.len() == schema@.columns.len(),
        values@.len() + 4 <= usize::MAX,
    ensures
        changes(values@).len() == 0 <==> r == Err::<Statement, AppError>(AppError::NoUpdateFields),
        r is Ok <==> changes(values@).len() > 0,
        r matches Ok(st) ==> st.sql@ == update_text(schema@, changes(values@)) && st.params@ == seq![
            Param::Uuid(id),
        ] + assigned_values(changes(values@)),
{
    proof { lemma_changes_fit(values@); }
    let q = update_query(id, values)?;
    assert(q matches Query::Update { sets, .. } && forall|k: int|
        0 <= k < sets@.len() ==> #[trigger] sets@[k].column < schema@.columns.len());
    Ok(render(schema, &q))
}

/// Statement that deletes the row `id` and hands it back.
pub fn delete_statement(schema: &Schema, id: u128) -> (r: Statement)
    ensures
        r.sql@ == delete_text(schema@),
        r.params@ == seq![Param::Uuid(id)],
{
    let q = delete_query(id);
    render(schema, &q)
}

/// The answer to a request for one row: the row, or `NotFound` when the
/// statement matched none.
pub fn single_row<T>(row: Option<T>) -> (r: Result<T, AppError>)
    ensures
        row is None <==> r == Err::<T, AppError>(AppError::NotFound),
        row matches Some(x) ==> r == Ok::<T, AppError>(x),
{
    match row {
        Some(x) => Ok(x),
        None => Err(AppError::NotFound),
    }
}

} // verus!

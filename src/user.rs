//! Users: first and last name, optional email and middle name.
use vstd::prelude::*;
use vstd::string::*;
pub use crate::error::AppError;
use crate::models::{text_opt, text_param, uuid_opt, uuid_param, CreateUser, Pagination, UpdateUser};
use crate::pagination::{ceil_div, page_numbers, page_of};
use crate::query::{changes, first_missing, conflicting, present, stored_value, Field, Lookup, Param};
use crate::resource::{
    create_statement, delete_statement, get_statement, list_statements, update_statement,
    ListStatements,
};
use crate::schema::{Column, Schema, TableSpec};
use crate::sql::{
    assigned_values, count_text, delete_text, insert_text, page_text, select_text, update_text,
    values_of, Statement,
};

verus! {

pub open spec fn user_table() -> TableSpec {
    TableSpec {
        table: "User"@,
        columns: seq!["firstName"@, "lastName"@, "email"@, "middleName"@],
        required: seq![true, true, false, false],
    }
}

pub fn user_schema() -> (r: Schema)
    ensures
        r@ == user_table(),
{
    let mut columns: Vec<Column> = Vec::new();
    columns.push(Column::new("firstName", true));
    columns.push(Column::new("lastName", true));
    columns.push(Column::new("email", false));
    columns.push(Column::new("middleName", false));
    let r = Schema { table: String::from_str("User"), columns };
    assert(r@.columns == user_table().columns);
    assert(r@.required == user_table().required);
    r
}

/// A page of users with where it stands among all pages.
#[derive(Debug, Clone)]
pub struct PaginatedResponse<T> {
    pub total_results: i64,
    pub current_page: i64,
    pub total_pages: i64,
    pub users: Vec<T>,
}

/// Lookup of one user: by identifier or by email, never both.
#[derive(Debug, Clone)]
pub struct UserFilter {
    pub id: Option<u128>,
    pub email: Option<String>,
}

pub open spec fn user_lookups(f: UserFilter) -> Seq<Lookup> {
    seq![
        Lookup { field: Field::Id, group: 0, value: uuid_opt(f.id) },
        Lookup { field: Field::Column(2), group: 0, value: text_opt(f.email) },
    ]
}

impl UserFilter {
    pub fn lookups(self) -> (r: Vec<Lookup>)
        ensures
            r@ == user_lookups(self),
    {
        let mut r: Vec<Lookup> = Vec::new();
        r.push(Lookup { field: Field::Id, group: 0, value: uuid_param(self.id) });
        r.push(Lookup { field: Field::Column(2), group: 0, value: text_param(self.email) });
        r
    }
}

pub open spec fn create_user_values(u: CreateUser) -> Seq<Option<Param>> {
    seq![
        Some(Param::Text(u.first_name)),
        Some(Param::Text(u.last_name)),
        text_opt(u.email),
        text_opt(u.middle_name),
    ]
}

impl CreateUser {
    /// One value per column of the user table.
    pub fn values(self) -> (r: Vec<Option<Param>>)
        ensures
            r@ == create_user_values(self),
    {
        let mut r: Vec<Option<Param>> = Vec::new();
        r.push(Some(Param::Text(self.first_name)));
        r.push(Some(Param::Text(self.last_name)));
        r.push(text_param(self.email));
        r.push(text_param(self.middle_name));
        r
    }
}

pub open spec fn update_user_values(u: UpdateUser) -> Seq<Option<Param>> {
    seq![
        text_opt(u.first_name),
        text_opt(u.last_name),
        text_opt(u.email),
        text_opt(u.middle_name),
    ]
}

impl UpdateUser {
    /// One optional value per column of the user table.
    pub fn values(self) -> (r: Vec<Option<Param>>)
        ensures
            r@ == update_user_values(self),
    {
        let mut r: Vec<Option<Param>> = Vec::new();
        r.push(text_param(self.first_name));
        r.push(text_param(self.last_name));
        r.push(text_param(self.email));
        r.push(text_param(self.middle_name));
        r
    }
}

/// Statements for a page of users, oldest first.
pub fn get_all_users(p: &Pagination) -> (r: Result<ListStatements, AppError>)
    ensures
        p.limit <= 0 <==> r == Err::<ListStatements, AppError>(AppError::InvalidLimit),
        p.limit > 0 && p.offset < 0 <==> r == Err::<ListStatements, AppError>(
            AppError::InvalidOffset,
        ),
        r is Ok <==> p.limit > 0 && p.offset >= 0,
        r matches Ok(ls) ==> {
            &&& ls.count.sql@ == count_text(user_table(), seq![])
            &&& ls.count.params@ == Seq::<Param>::empty()
            &&& ls.page.sql@ == page_text(user_table(), seq![])
            &&& ls.page.params@ == seq![Param::BigInt(p.limit), Param::BigInt(p.offset)]
        },
{
    let schema = user_schema();
    let filters: Vec<Lookup> = Vec::new();
    let r = list_statements(&schema, p.limit, p.offset, &filters);
    assert(present(filters@) == Seq::<crate::query::Predicate>::empty());
    assert(values_of(seq![]) == Seq::<Param>::empty());
    r
}

/// The envelope of a page of users out of `total_results` in all.
pub fn users_page<T>(p: &Pagination, total_results: i64, users: Vec<T>) -> (r: Result<
    PaginatedResponse<T>,
    AppError,
>)
    requires
        total_results >= 0,
    ensures
        r is Ok <==> p.limit > 0 && p.offset >= 0 && p.offset / p.limit < i64::MAX,
        p.limit <= 0 ==> r == Err::<PaginatedResponse<T>, AppError>(AppError::InvalidLimit),
        p.limit > 0 && !(r is Ok) ==> r == Err::<PaginatedResponse<T>, AppError>(
            AppError::InvalidOffset,
        ),
        r matches Ok(e) ==> e.total_results == total_results && e.current_page == page_of(
            p.offset as int,
            p.limit as int,
        ) && e.total_pages == ceil_div(total_results as int, p.limit as int) && e.users == users,
{
    let info = page_numbers(p.limit, p.offset, total_results)?;
    Ok(
        PaginatedResponse {
            total_results,
            current_page: info.current_page,
            total_pages: info.total_pages,
            users,
        },
    )
}

/// Statement for the one user that the filter describes.
pub fn get_user(filter: UserFilter) -> (r: Result<Statement, AppError>)
    ensures
        filter.id is None && filter.email is None <==> r == Err::<Statement, AppError>(
            AppError::NoFilterCriteria,
        ),
        filter.id is Some && filter.email is Some <==> r == Err::<Statement, AppError>(
            AppError::AmbiguousFilter,
        ),
        r is Ok <==> (filter.id is Some) != (filter.email is Some),
        r matches Ok(st) ==> st.sql@ == select_text(user_table(), present(user_lookups(filter)))
            && st.params@ == values_of(present(user_lookups(filter))),
{
    let ghost f = filter;
    let schema = user_schema();
    let lookups = filter.lookups();
    let ghost l = user_lookups(f);
    assert(l.drop_last().drop_last() == Seq::<Lookup>::empty());
    assert(l.drop_last() == seq![l[0]]);
    reveal_with_fuel(present, 3);
    assert(present(l).len() == 0 <==> (f.id is None && f.email is None));
    assert(conflicting(l) <==> (f.id is Some && f.email is Some)) by {
        if f.id is Some && f.email is Some {
            assert(l[0].value is Some && l[1].value is Some && l[0].group == l[1].group);
        }
    }
    get_statement(&schema, &lookups)
}

/// Statement that creates a user.
pub fn create_user(user: CreateUser) -> (r: Statement)
    ensures
        r.sql@ == insert_text(user_table(), 4),
        r.params@ == seq![
            Param::Text(user.first_name),
            Param::Text(user.last_name),
            stored_value(text_opt(user.email)),
            stored_value(text_opt(user.middle_name)),
        ],
{
    let ghost u = user;
    let schema = user_schema();
    let values = user.values();
    let r = create_statement(&schema, &values);
    assert(values@[0] is Some && values@[1] is Some);
    assert(!schema@.required[2] && !schema@.required[3]);
    assert(!(exists|i: int|
        0 <= i < values@.len() && schema@.required[i] && values@[i] is None));
    assert(first_missing(schema@, values@) is None);
    assert(r is Ok);
    let st = r.unwrap();
    assert(st.params@ =~= seq![
        Param::Text(u.first_name),
        Param::Text(u.last_name),
        stored_value(text_opt(u.email)),
        stored_value(text_opt(u.middle_name)),
    ]);
    st
}

/// Statement that updates the user `id` with the fields the request carries.
pub fn update_user(id: u128, user: UpdateUser) -> (r: Result<Statement, AppError>)
    ensures
        changes(update_user_values(user)).len() == 0 <==> r == Err::<Statement, AppError>(
            AppError::NoUpdateFields,
        ),
        r is Ok <==> changes(update_user_values(user)).len() > 0,
        r matches Ok(st) ==> st.sql@ == update_text(user_table(), changes(update_user_values(user)))
            && st.params@ == seq![Param::Uuid(id)] + assigned_values(
            changes(update_user_values(user)),
        ),
{
    let schema = user_schema();
    let values = user.values();
    update_statement(&schema, id, &values)
}

/// Statement that deletes the user `id`.
pub fn delete_user(id: u128) -> (r: Statement)
    ensures
        r.sql@ == delete_text(user_table()),
        r.params@ == seq![Param::Uuid(id)],
{
    let schema = user_schema();
    delete_statement(&schema, id)
}

} // verus!

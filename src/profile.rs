//! Profiles: identity and banking details of a user, listed with an
//! optional gender filter and looked up by any of their unique numbers.
use vstd::prelude::*;
use vstd::string::*;
pub use crate::error::AppError;
use crate::models::{text_opt, text_param, uuid_opt, uuid_param, CreateProfile, UpdateProfile};
use crate::pagination::{ceil_div, page_numbers, page_of};
use crate::query::{changes, first_missing, conflicting, present, Field, Lookup, Param};
use crate::resource::{
    create_statement, delete_statement, get_statement, list_statements, update_statement,
    ListStatements,
};
use crate::schema::{Column, Schema, TableSpec};
use crate::sql::{
    assigned_values, count_text, delete_text, insert_text, page_text, select_text, update_text,
    values_of, Statement,
};

verus! {

pub open spec fn profile_table() -> TableSpec {
    TableSpec {
        table: "Profile"@,
        columns: seq![
            "bio"@,
            "accountNumber"@,
            "bvn"@,
            "gender"@,
            "identityNumber"@,
            "phoneNumber"@,
            "userId"@,
        ],
        required: seq![false, false, true, true, false, false, true],
    }
}

pub fn profile_schema() -> (r: Schema)
    ensures
        r@ == profile_table(),
{
    let mut columns: Vec<Column> = Vec::new();
    columns.push(Column::new("bio", false));
    columns.push(Column::new("accountNumber", false));
    columns.push(Column::new("bvn", true));
    columns.push(Column::new("gender", true));
    columns.push(Column::new("identityNumber", false));
    columns.push(Column::new("phoneNumber", false));
    columns.push(Column::new("userId", true));
    let r = Schema { table: String::from_str("Profile"), columns };
    assert(r@.columns == profile_table().columns);
    assert(r@.required == profile_table().required);
    r
}

/// A page of profiles with where it stands among all pages.
#[derive(Debug, Clone)]
pub struct PaginatedResponse<T> {
    pub total_results: i64,
    pub current_page: i64,
    pub total_pages: i64,
    pub profiles: Vec<T>,
}

/// A page of the profile listing, optionally only of one gender.
#[derive(Debug, Clone)]
pub struct Pagination {
    pub limit: i64,
    pub offset: i64,
    pub gender: Option<String>,
}

/// The optional filters of the profile listing.
#[derive(Debug, Clone)]
pub struct ProfileFilter {
    pub gender: Option<String>,
}

pub open spec fn profile_filter_lookups(f: ProfileFilter) -> Seq<Lookup> {
    seq![Lookup { field: Field::Column(3), group: 0, value: text_opt(f.gender) }]
}

impl ProfileFilter {
    pub fn lookups(self) -> (r: Vec<Lookup>)
        ensures
            r@ == profile_filter_lookups(self),
    {
        let mut r: Vec<Lookup> = Vec::new();
        r.push(Lookup { field: Field::Column(3), group: 0, value: text_param(self.gender) });
        r
    }
}

/// Lookup of one profile: every field given must match.
#[derive(Debug, Clone)]
pub struct SingleProfileFilter {
    pub id: Option<u128>,
    pub account_number: Option<String>,
    pub bvn: Option<String>,
    pub identity_number: Option<String>,
    pub phone_number: Option<String>,
}

pub open spec fn single_profile_lookups(f: SingleProfileFilter) -> Seq<Lookup> {
    seq![
        Lookup { field: Field::Id, group: 0, value: uuid_opt(f.id) },
        Lookup { field: Field::Column(1), group: 1, value: text_opt(f.account_number) },
        Lookup { field: Field::Column(2), group: 2, value: text_opt(f.bvn) },
        Lookup { field: Field::Column(4), group: 3, value: text_opt(f.identity_number) },
        Lookup { field: Field::Column(5), group: 4, value: text_opt(f.phone_number) },
    ]
}

impl SingleProfileFilter {
    pub fn lookups(self) -> (r: Vec<Lookup>)
        ensures
            r@ == single_profile_lookups(self),
    {
        let mut r: Vec<Lookup> = Vec::new();
        r.push(Lookup { field: Field::Id, group: 0, value: uuid_param(self.id) });
        r.push(Lookup { field: Field::Column(1), group: 1, value: text_param(self.account_number) });
        r.push(Lookup { field: Field::Column(2), group: 2, value: text_param(self.bvn) });
        r.push(Lookup { field: Field::Column(4), group: 3, value: text_param(self.identity_number) });
        r.push(Lookup { field: Field::Column(5), group: 4, value: text_param(self.phone_number) });
        r
    }
}

pub open spec fn create_profile_values(p: CreateProfile) -> Seq<Option<Param>> {
    seq![
        Some(Param::Text(p.bio)),
        Some(Param::Text(p.account_number)),
        Some(Param::Text(p.bvn)),
        Some(Param::Text(p.gender)),
        Some(Param::Text(p.identity_number)),
        Some(Param::Text(p.phone_number)),
        Some(Param::Uuid(p.user_id)),
    ]
}

impl CreateProfile {
    /// One value per column of the profile table.
    pub fn values(self) -> (r: Vec<Option<Param>>)
        ensures
            r@ == create_profile_values(self),
    {
        let mut r: Vec<Option<Param>> = Vec::new();
        r.push(Some(Param::Text(self.bio)));
        r.push(Some(Param::Text(self.account_number)));
        r.push(Some(Param::Text(self.bvn)));
        r.push(Some(Param::Text(self.gender)));
        r.push(Some(Param::Text(self.identity_number)));
        r.push(Some(Param::Text(self.phone_number)));
        r.push(Some(Param::Uuid(self.user_id)));
        r
    }
}

pub open spec fn update_profile_values(p: UpdateProfile) -> Seq<Option<Param>> {
    seq![
        text_opt(p.bio),
        text_opt(p.account_number),
        text_opt(p.bvn),
        text_opt(p.gender),
        text_opt(p.identity_number),
        text_opt(p.phone_number),
        uuid_opt(p.user_id),
    ]
}

impl UpdateProfile {
    /// One optional value per column of the profile table.
    pub fn values(self) -> (r: Vec<Option<Param>>)
        ensures
            r@ == update_profile_values(self),
    {
        let mut r: Vec<Option<Param>> = Vec::new();
        r.push(text_param(self.bio));
        r.push(text_param(self.account_number));
        r.push(text_param(self.bvn));
        r.push(text_param(self.gender));
        r.push(text_param(self.identity_number));
        r.push(text_param(self.phone_number));
        r.push(uuid_param(self.user_id));
        r
    }
}

/// Statements for a page of profiles, oldest first, only of the given
/// gender where one is given.
pub fn get_all_profiles(p: Pagination) -> (r: Result<ListStatements, AppError>)
    ensures
        p.limit <= 0 <==> r == Err::<ListStatements, AppError>(AppError::InvalidLimit),
        p.limit > 0 && p.offset < 0 <==> r == Err::<ListStatements, AppError>(
            AppError::InvalidOffset,
        ),
        r is Ok <==> p.limit > 0 && p.offset >= 0,
        r matches Ok(ls) ==> {
            let filters = present(profile_filter_lookups(ProfileFilter { gender: p.gender }));
            &&& ls.count.sql@ == count_text(profile_table(), filters)
            &&& ls.count.params@ == values_of(filters)
            &&& ls.page.sql@ == page_text(profile_table(), filters)
            &&& ls.page.params@ == seq![Param::BigInt(p.limit), Param::BigInt(p.offset)]
                + values_of(filters)
        },
{
    let schema = profile_schema();
    let filters = ProfileFilter { gender: p.gender }.lookups();
    list_statements(&schema, p.limit, p.offset, &filters)
}

/// The envelope of a page of profiles out of `total_results` in all.
pub fn profiles_page<T>(p: &Pagination, total_results: i64, profiles: Vec<T>) -> (r: Result<
    PaginatedResponse<T>,
    AppError,
>)
    requires
        total_results >= 0,
    ensures
        r is Ok <==> p.limit > 0 && p.offset >= 0 && p.offset / p.limit < i64::MAX,
        p.limit <= 0 ==> r == Err::<PaginatedResponse<T>, AppError>(AppError::InvalidLimit),
        p.limit > 0 && !(r is Ok) ==> r == Err::<PaginatedResponse<T>, AppError>(
            AppError::InvalidOffset,
        ),
        r matches Ok(e) ==> e.total_results == total_results && e.current_page == page_of(
            p.offset as int,
            p.limit as int,
        ) && e.total_pages == ceil_div(total_results as int, p.limit as int) && e.profiles
            == profiles,
{
    let info = page_numbers(p.limit, p.offset, total_results)?;
    Ok(
        PaginatedResponse {
            total_results,
            current_page: info.current_page,
            total_pages: info.total_pages,
            profiles,
        },
    )
}

/// Statement for the profile that meets every field of the filter.
pub fn get_profile(filter: SingleProfileFilter) -> (r: Result<Statement, AppError>)
    ensures
        filter.id is None && filter.account_number is None && filter.bvn is None
            && filter.identity_number is None && filter.phone_number is None <==> r == Err::<
            Statement,
            AppError,
        >(AppError::NoFilterCriteria),
        r is Ok <==> !(r == Err::<Statement, AppError>(AppError::NoFilterCriteria)),
        r matches Ok(st) ==> st.sql@ == select_text(
            profile_table(),
            present(single_profile_lookups(filter)),
        ) && st.params@ == values_of(present(single_profile_lookups(filter))),
{
    let ghost f = filter;
    let schema = profile_schema();
    let lookups = filter.lookups();
    let ghost l = single_profile_lookups(f);
    assert(!conflicting(l)) by {
        assert forall|i: int, j: int| 0 <= i < j < l.len() implies l[i].group != l[j].group by {
            assert(l[i].group == i && l[j].group == j);
        }
    }
    assert(l.drop_last().drop_last().drop_last().drop_last().drop_last() == Seq::<Lookup>::empty());
    assert(l.drop_last().drop_last().drop_last().drop_last() == seq![l[0]]);
    assert(l.drop_last().drop_last().drop_last() == seq![l[0], l[1]]);
    assert(l.drop_last().drop_last() == seq![l[0], l[1], l[2]]);
    assert(l.drop_last() == seq![l[0], l[1], l[2], l[3]]);
    reveal_with_fuel(present, 6);
    get_statement(&schema, &lookups)
}

/// Statement that creates a profile.
pub fn create_profile(profile: CreateProfile) -> (r: Statement)
    ensures
        r.sql@ == insert_text(profile_table(), 7),
        r.params@ == seq![
            Param::Text(profile.bio),
            Param::Text(profile.account_number),
            Param::Text(profile.bvn),
            Param::Text(profile.gender),
            Param::Text(profile.identity_number),
            Param::Text(profile.phone_number),
            Param::Uuid(profile.user_id),
        ],
{
    let ghost p = profile;
    let schema = profile_schema();
    let values = profile.values();
    let r = create_statement(&schema, &values);
    assert(!(exists|i: int|
        0 <= i < values@.len() && schema@.required[i] && values@[i] is None));
    assert(first_missing(schema@, values@) is None);
    assert(r is Ok);
    let st = r.unwrap();
    assert(st.params@ =~= seq![
        Param::Text(p.bio),
        Param::Text(p.account_number),
        Param::Text(p.bvn),
        Param::Text(p.gender),
        Param::Text(p.identity_number),
        Param::Text(p.phone_number),
        Param::Uuid(p.user_id),
    ]);
    st
}

/// Statement that updates the profile `id` with the fields the request
/// carries.
pub fn update_profile(id: u128, profile: UpdateProfile) -> (r: Result<Statement, AppError>)
    ensures
        changes(update_profile_values(profile)).len() == 0 <==> r == Err::<Statement, AppError>(
            AppError::NoUpdateFields,
        ),
        r is Ok <==> changes(update_profile_values(profile)).len() > 0,
        r matches Ok(st) ==> st.sql@ == update_text(
            profile_table(),
            changes(update_profile_values(profile)),
        ) && st.params@ == seq![Param::Uuid(id)] + assigned_values(
            changes(update_profile_values(profile)),
        ),
{
    let schema = profile_schema();
    let values = profile.values();
    update_statement(&schema, id, &values)
}

/// Statement that deletes the profile `id`.
pub fn delete_profile(id: u128) -> (r: Statement)
    ensures
        r.sql@ == delete_text(profile_table()),
        r.params@ == seq![Param::Uuid(id)],
{
    let schema = profile_schema();
    delete_statement(&schema, id)
}

} // verus!

//! Farms: land parcels of a farmer, with their size, place and value.
use vstd::prelude::*;
use vstd::string::*;
pub use crate::error::AppError;
use crate::models::{
    bool_opt, bool_param, double_opt, double_param, int_opt, int_param, text_opt, text_param,
    uuid_opt, uuid_param, CreateFarm, Pagination, UpdateFarm,
};
use crate::query::{changes, conflicting, first_missing, present, Field, Lookup, Param, Predicate};
use crate::resource::{
    create_statement, delete_statement, get_statement, list_statements, update_statement,
};
use crate::schema::{Column, Schema, TableSpec};
use crate::sql::{
    assigned_values, delete_text, insert_text, page_text, select_text, update_text, values_of,
    Statement,
};

verus! {

pub open spec fn farm_table() -> TableSpec {
    TableSpec {
        table: "Farm"@,
        columns: seq![
            "farmName"@,
            "acreage"@,
            "state"@,
            "locality"@,
            "hasDrainageTile"@,
            "landValue"@,
            "isIrrigated"@,
            "ownership"@,
            "availablePortion"@,
            "country"@,
            "farmerId"@,
            "latitude"@,
            "longitude"@,
            "farmSite"@,
        ],
        required: seq![
            false,
            true,
            true,
            true,
            false,
            false,
            false,
            true,
            false,
            true,
            true,
            true,
            true,
            false,
        ],
    }
}

pub fn farm_schema() -> (r: Schema)
    ensures
        r@ == farm_table(),
{
    let mut columns: Vec<Column> = Vec::new();
    columns.push(Column::new("farmName", false));
    columns.push(Column::new("acreage", true));
    columns.push(Column::new("state", true));
    columns.push(Column::new("locality", true));
    columns.push(Column::new("hasDrainageTile", false));
    columns.push(Column::new("landValue", false));
    columns.push(Column::new("isIrrigated", false));
    columns.push(Column::new("ownership", true));
    columns.push(Column::new("availablePortion", false));
    columns.push(Column::new("country", true));
    columns.push(Column::new("farmerId", true));
    columns.push(Column::new("latitude", true));
    columns.push(Column::new("longitude", true));
    columns.push(Column::new("farmSite", false));
    let r = Schema { table: String::from_str("Farm"), columns };
    assert(r@.columns == farm_table().columns);
    assert(r@.required == farm_table().required);
    r
}

pub open spec fn create_farm_params(f: CreateFarm) -> Seq<Param> {
    seq![
        Param::Text(f.farm_name),
        Param::Double(f.acreage),
        Param::Text(f.state),
        Param::Text(f.locality),
        Param::Bool(f.has_drainage_tile),
        Param::Int(f.land_value),
        Param::Bool(f.is_irrigated),
        Param::Text(f.ownership),
        Param::Double(f.available_portion),
        Param::Text(f.country),
        Param::Uuid(f.farmer_id),
        Param::Double(f.latitude),
        Param::Double(f.longitude),
        Param::Text(f.farm_site),
    ]
}

impl CreateFarm {
    /// One value per column of the farm table.
    pub fn values(self) -> (r: Vec<Option<Param>>)
        ensures
            r@.len() == 14,
            forall|k: int| 0 <= k < 14 ==> r@[k] == Some(#[trigger] create_farm_params(self)[k]),
    {
        let ghost f = self;
        let mut r: Vec<Option<Param>> = Vec::new();
        r.push(Some(Param::Text(self.farm_name)));
        r.push(Some(Param::Double(self.acreage)));
        r.push(Some(Param::Text(self.state)));
        r.push(Some(Param::Text(self.locality)));
        r.push(Some(Param::Bool(self.has_drainage_tile)));
        r.push(Some(Param::Int(self.land_value)));
        r.push(Some(Param::Bool(self.is_irrigated)));
        r.push(Some(Param::Text(self.ownership)));
        r.push(Some(Param::Double(self.available_portion)));
        r.push(Some(Param::Text(self.country)));
        r.push(Some(Param::Uuid(self.farmer_id)));
        r.push(Some(Param::Double(self.latitude)));
        r.push(Some(Param::Double(self.longitude)));
        r.push(Some(Param::Text(self.farm_site)));
        r
    }
}

pub open spec fn update_farm_values(f: UpdateFarm) -> Seq<Option<Param>> {
    seq![
        text_opt(f.farm_name),
        double_opt(f.acreage),
        text_opt(f.state),
        text_opt(f.locality),
        bool_opt(f.has_drainage_tile),
        int_opt(f.land_value),
        bool_opt(f.is_irrigated),
        text_opt(f.ownership),
        double_opt(f.available_portion),
        text_opt(f.country),
        uuid_opt(f.farmer_id),
        double_opt(f.latitude),
        double_opt(f.longitude),
        text_opt(f.farm_site),
    ]
}

impl UpdateFarm {
    /// One optional value per column of the farm table.
    pub fn values(self) -> (r: Vec<Option<Param>>)
        ensures
            r@ == update_farm_values(self),
    {
        let mut r: Vec<Option<Param>> = Vec::new();
        r.push(text_param(self.farm_name));
        r.push(double_param(self.acreage));
        r.push(text_param(self.state));
        r.push(text_param(self.locality));
        r.push(bool_param(self.has_drainage_tile));
        r.push(int_param(self.land_value));
        r.push(bool_param(self.is_irrigated));
        r.push(text_param(self.ownership));
        r.push(double_param(self.available_portion));
        r.push(text_param(self.country));
        r.push(uuid_param(self.farmer_id));
        r.push(double_param(self.latitude));
        r.push(double_param(self.longitude));
        r.push(text_param(self.farm_site));
        r
    }
}

/// Statement for a page of farms, oldest first.
pub fn get_all_farms(p: &Pagination) -> (r: Result<Statement, AppError>)
    ensures
        p.limit <= 0 <==> r == Err::<Statement, AppError>(AppError::InvalidLimit),
        p.limit > 0 && p.offset < 0 <==> r == Err::<Statement, AppError>(AppError::InvalidOffset),
        r is Ok <==> p.limit > 0 && p.offset >= 0,
        r matches Ok(st) ==> st.sql@ == page_text(farm_table(), seq![]) && st.params@ == seq![
            Param::BigInt(p.limit),
            Param::BigInt(p.offset),
        ],
{
    let schema = farm_schema();
    let filters: Vec<Lookup> = Vec::new();
    assert(present(filters@) == Seq::<Predicate>::empty());
    assert(values_of(seq![]) == Seq::<Param>::empty());
    let ls = list_statements(&schema, p.limit, p.offset, &filters)?;
    Ok(ls.page)
}

/// Statement for the farm `id`.
pub fn get_farm(id: u128) -> (r: Statement)
    ensures
        r.sql@ == select_text(farm_table(), seq![Predicate { field: Field::Id, value: Param::Uuid(id) }]),
        r.params@ == seq![Param::Uuid(id)],
{
    let schema = farm_schema();
    let mut lookups: Vec<Lookup> = Vec::new();
    lookups.push(Lookup { field: Field::Id, group: 0, value: Some(Param::Uuid(id)) });
    assert(lookups@.drop_last() == Seq::<Lookup>::empty());
    let pred = Predicate { field: Field::Id, value: Param::Uuid(id) };
    reveal_with_fuel(present, 2);
    assert(present(lookups@) == seq![pred]);
    assert(values_of(seq![pred]) == seq![Param::Uuid(id)]);
    assert(!conflicting(lookups@));
    get_statement(&schema, &lookups).unwrap()
}

/// Statement that creates a farm.
pub fn create_farm(farm: CreateFarm) -> (r: Statement)
    ensures
        r.sql@ == insert_text(farm_table(), 14),
        r.params@ == create_farm_params(farm),
{
    let ghost f = farm;
    let schema = farm_schema();
    let values = farm.values();
    let r = create_statement(&schema, &values);
    assert forall|i: int| 0 <= i < values@.len() implies values@[i] is Some by {
        assert(values@[i] == Some(create_farm_params(f)[i]));
    }
    assert(!(exists|i: int|
        0 <= i < values@.len() && schema@.required[i] && values@[i] is None));
    assert(first_missing(schema@, values@) is None);
    assert(r is Ok);
    let st = r.unwrap();
    assert(st.params@ =~= create_farm_params(f));
    st
}

/// Statement that updates the farm the request names with the fields it
/// carries.
pub fn update_farm(farm: UpdateFarm) -> (r: Result<Statement, AppError>)
    ensures
        changes(update_farm_values(farm)).len() == 0 <==> r == Err::<Statement, AppError>(
            AppError::NoUpdateFields,
        ),
        r is Ok <==> changes(update_farm_values(farm)).len() > 0,
        r matches Ok(st) ==> st.sql@ == update_text(farm_table(), changes(update_farm_values(farm)))
            && st.params@ == seq![Param::Uuid(farm.id)] + assigned_values(
            changes(update_farm_values(farm)),
        ),
{
    let schema = farm_schema();
    let id = farm.id;
    let values = farm.values();
    update_statement(&schema, id, &values)
}

/// Statement that deletes the farm `id` and hands it back.
pub fn delete_farm(id: u128) -> (r: Statement)
    ensures
        r.sql@ == delete_text(farm_table()),
        r.params@ == seq![Param::Uuid(id)],
{
    let schema = farm_schema();
    delete_statement(&schema, id)
}

} // verus!

use agri_api::error::AppError;
use agri_api::farm::{create_farm, delete_farm, get_all_farms, get_farm, update_farm};
use agri_api::models::{
    CreateFarm, CreateProfile, CreateUser, Pagination, UpdateFarm, UpdateProfile, UpdateUser,
};
use agri_api::profile::{
    create_profile, delete_profile, get_all_profiles, get_profile, update_profile,
    SingleProfileFilter,
};
use agri_api::query::{Field, Lookup, Param};
use agri_api::resource::{create_statement, get_statement, single_row};
use agri_api::user::{
    create_user, delete_user, get_all_users, get_user, update_user, user_schema, UserFilter,
};

const ID: u128 = 0x0123_4567_89ab_cdef_0123_4567_89ab_cdef;

fn text(s: &str) -> Param {
    Param::Text(s.to_string())
}

#[test]
fn user_listing_statements() {
    let ls = get_all_users(&Pagination { limit: 10, offset: 20 }).unwrap();
    assert_eq!(ls.count.sql, "SELECT COUNT(*) FROM \"User\"");
    assert!(ls.count.params.is_empty());
    assert_eq!(ls.page.sql, "SELECT * FROM \"User\" ORDER BY \"createdAt\" LIMIT $1 OFFSET $2");
    assert_eq!(ls.page.params, vec![Param::BigInt(10), Param::BigInt(20)]);
}

#[test]
fn user_listing_refuses_bad_pages() {
    assert_eq!(get_all_users(&Pagination { limit: 0, offset: 0 }).unwrap_err(), AppError::InvalidLimit);
    assert_eq!(get_all_users(&Pagination { limit: 5, offset: -5 }).unwrap_err(), AppError::InvalidOffset);
}

#[test]
fn user_lookup_by_id() {
    let st = get_user(UserFilter { id: Some(ID), email: None }).unwrap();
    assert_eq!(st.sql, "SELECT * FROM \"User\" WHERE \"id\" = $1");
    assert_eq!(st.params, vec![Param::Uuid(ID)]);
}

#[test]
fn user_lookup_by_email() {
    let st = get_user(UserFilter { id: None, email: Some("ada@example.com".to_string()) }).unwrap();
    assert_eq!(st.sql, "SELECT * FROM \"User\" WHERE \"email\" = $1");
    assert_eq!(st.params, vec![text("ada@example.com")]);
}

#[test]
fn user_lookup_without_filter() {
    let r = get_user(UserFilter { id: None, email: None });
    assert_eq!(r.unwrap_err(), AppError::NoFilterCriteria);
}

#[test]
fn user_lookup_with_id_and_email() {
    let r = get_user(UserFilter { id: Some(ID), email: Some("ada@example.com".to_string()) });
    assert_eq!(r.unwrap_err(), AppError::AmbiguousFilter);
}

#[test]
fn profile_lookup_without_filter() {
    let r = get_profile(SingleProfileFilter {
        id: None,
        account_number: None,
        bvn: None,
        identity_number: None,
        phone_number: None,
    });
    assert_eq!(r.unwrap_err(), AppError::NoFilterCriteria);
}

#[test]
fn profile_lookup_numbers_placeholders_in_field_order() {
    let st = get_profile(SingleProfileFilter {
        id: Some(ID),
        account_number: None,
        bvn: Some("22233344455".to_string()),
        identity_number: None,
        phone_number: Some("+2348000000000".to_string()),
    })
    .unwrap();
    assert_eq!(
        st.sql,
        "SELECT * FROM \"Profile\" WHERE \"id\" = $1 AND \"bvn\" = $2 AND \"phoneNumber\" = $3"
    );
    assert_eq!(st.params, vec![Param::Uuid(ID), text("22233344455"), text("+2348000000000")]);
}

#[test]
fn profile_listing_filtered_by_gender() {
    let p = agri_api::profile::Pagination { limit: 10, offset: 0, gender: Some("F".to_string()) };
    let ls = get_all_profiles(p).unwrap();
    assert_eq!(ls.count.sql, "SELECT COUNT(*) FROM \"Profile\" WHERE \"gender\" = $1");
    assert_eq!(ls.count.params, vec![text("F")]);
    assert_eq!(
        ls.page.sql,
        "SELECT * FROM \"Profile\" WHERE \"gender\" = $3 ORDER BY \"createdAt\" LIMIT $1 OFFSET $2"
    );
    assert_eq!(ls.page.params, vec![Param::BigInt(10), Param::BigInt(0), text("F")]);
}

#[test]
fn profile_listing_without_gender() {
    let p = agri_api::profile::Pagination { limit: 3, offset: 6, gender: None };
    let ls = get_all_profiles(p).unwrap();
    assert_eq!(ls.count.sql, "SELECT COUNT(*) FROM \"Profile\"");
    assert_eq!(ls.page.sql, "SELECT * FROM \"Profile\" ORDER BY \"createdAt\" LIMIT $1 OFFSET $2");
    assert_eq!(ls.page.params, vec![Param::BigInt(3), Param::BigInt(6)]);
}

#[test]
fn user_create_binds_columns_in_order() {
    let st = create_user(CreateUser {
        first_name: "Ada".to_string(),
        last_name: "Obi".to_string(),
        email: None,
        middle_name: Some("N".to_string()),
    });
    assert_eq!(
        st.sql,
        "INSERT INTO \"User\" (\"firstName\", \"lastName\", \"email\", \"middleName\") VALUES ($1, $2, $3, $4) RETURNING *"
    );
    assert_eq!(st.params, vec![text("Ada"), text("Obi"), Param::Null, text("N")]);
}

#[test]
fn generic_create_names_missing_field() {
    let schema = user_schema();
    let values = vec![Some(text("Ada")), None, None, None];
    let r = create_statement(&schema, &values);
    assert_eq!(r.unwrap_err(), AppError::MissingField("lastName".to_string()));
}

#[test]
fn profile_create_statement() {
    let st = create_profile(CreateProfile {
        bio: "grower".to_string(),
        account_number: "0123456789".to_string(),
        bvn: "22233344455".to_string(),
        gender: "F".to_string(),
        identity_number: "A1".to_string(),
        phone_number: "+234".to_string(),
        user_id: ID,
    });
    assert_eq!(
        st.sql,
        "INSERT INTO \"Profile\" (\"bio\", \"accountNumber\", \"bvn\", \"gender\", \"identityNumber\", \"phoneNumber\", \"userId\") VALUES ($1, $2, $3, $4, $5, $6, $7) RETURNING *"
    );
    assert_eq!(st.params.len(), 7);
    assert_eq!(st.params[6], Param::Uuid(ID));
}

#[test]
fn user_update_sets_only_supplied_fields() {
    let st = update_user(
        ID,
        UpdateUser { id: ID, first_name: None, last_name: Some("Eze".to_string()), email: None, middle_name: None },
    )
    .unwrap();
    assert_eq!(
        st.sql,
        "UPDATE \"User\" SET \"lastName\" = $2, \"updatedAt\" = now() WHERE \"id\" = $1 RETURNING *"
    );
    assert_eq!(st.params, vec![Param::Uuid(ID), text("Eze")]);
}

#[test]
fn user_update_without_fields() {
    let r = update_user(ID, UpdateUser { id: ID, first_name: None, last_name: None, email: None, middle_name: None });
    assert_eq!(r.unwrap_err(), AppError::NoUpdateFields);
}

#[test]
fn profile_update_two_fields() {
    let st = update_profile(
        ID,
        UpdateProfile {
            id: ID,
            bio: None,
            account_number: None,
            bvn: None,
            gender: Some("M".to_string()),
            identity_number: None,
            phone_number: None,
            user_id: Some(7),
        },
    )
    .unwrap();
    assert_eq!(
        st.sql,
        "UPDATE \"Profile\" SET \"gender\" = $2, \"userId\" = $3, \"updatedAt\" = now() WHERE \"id\" = $1 RETURNING *"
    );
    assert_eq!(st.params, vec![Param::Uuid(ID), text("M"), Param::Uuid(7)]);
}

#[test]
fn delete_statements_return_the_row() {
    let st = delete_user(ID);
    assert_eq!(st.sql, "DELETE FROM \"User\" WHERE \"id\" = $1 RETURNING *");
    assert_eq!(st.params, vec![Param::Uuid(ID)]);
    assert_eq!(delete_profile(ID).sql, "DELETE FROM \"Profile\" WHERE \"id\" = $1 RETURNING *");
    assert_eq!(delete_farm(ID).sql, "DELETE FROM \"Farm\" WHERE \"id\" = $1 RETURNING *");
}

#[test]
fn deleted_row_fetch_is_not_found() {
    let fetch = get_user(UserFilter { id: Some(ID), email: None }).unwrap();
    assert_eq!(fetch.params, delete_user(ID).params);
    assert_eq!(single_row::<String>(None), Err(AppError::NotFound));
}

#[test]
fn farm_statements() {
    let st = get_all_farms(&Pagination { limit: 2, offset: 4 }).unwrap();
    assert_eq!(st.sql, "SELECT * FROM \"Farm\" ORDER BY \"createdAt\" LIMIT $1 OFFSET $2");
    assert_eq!(st.params, vec![Param::BigInt(2), Param::BigInt(4)]);
    let st = get_farm(ID);
    assert_eq!(st.sql, "SELECT * FROM \"Farm\" WHERE \"id\" = $1");
    assert_eq!(st.params, vec![Param::Uuid(ID)]);
}

#[test]
fn farm_create_has_fourteen_placeholders() {
    let st = create_farm(CreateFarm {
        farm_name: "North".to_string(),
        acreage: 12.5f64.to_bits(),
        state: "Kano".to_string(),
        locality: "Dala".to_string(),
        has_drainage_tile: true,
        land_value: 5000,
        is_irrigated: false,
        ownership: "owned".to_string(),
        available_portion: 0.5f64.to_bits(),
        country: "NG".to_string(),
        farmer_id: ID,
        latitude: 12.0f64.to_bits(),
        longitude: 8.5f64.to_bits(),
        farm_site: "plot 4".to_string(),
    });
    assert_eq!(
        st.sql,
        "INSERT INTO \"Farm\" (\"farmName\", \"acreage\", \"state\", \"locality\", \"hasDrainageTile\", \"landValue\", \"isIrrigated\", \"ownership\", \"availablePortion\", \"country\", \"farmerId\", \"latitude\", \"longitude\", \"farmSite\") VALUES ($1, $2, $3, $4, $5, $6, $7, $8, $9, $10, $11, $12, $13, $14) RETURNING *"
    );
    assert_eq!(st.params[1], Param::Double(12.5f64.to_bits()));
    assert_eq!(st.params[5], Param::Int(5000));
    assert_eq!(st.params[13], text("plot 4"));
}

#[test]
fn farm_update_uses_request_id() {
    let st = update_farm(UpdateFarm {
        id: ID,
        farm_name: None,
        acreage: None,
        state: None,
        locality: None,
        has_drainage_tile: None,
        land_value: None,
        is_irrigated: Some(true),
        ownership: None,
        available_portion: None,
        country: None,
        farmer_id: None,
        latitude: None,
        longitude: None,
        farm_site: Some("plot 9".to_string()),
    })
    .unwrap();
    assert_eq!(
        st.sql,
        "UPDATE \"Farm\" SET \"isIrrigated\" = $2, \"farmSite\" = $3, \"updatedAt\" = now() WHERE \"id\" = $1 RETURNING *"
    );
    assert_eq!(st.params, vec![Param::Uuid(ID), Param::Bool(true), text("plot 9")]);
}

#[test]
fn exclusive_group_in_generic_lookup() {
    let schema = user_schema();
    let lookups = vec![
        Lookup { field: Field::Column(0), group: 1, value: Some(text("Ada")) },
        Lookup { field: Field::Column(1), group: 2, value: Some(text("Obi")) },
        Lookup { field: Field::Column(2), group: 1, value: Some(text("a@b.c")) },
    ];
    assert_eq!(get_statement(&schema, &lookups).unwrap_err(), AppError::AmbiguousFilter);
}

#[test]
fn many_predicates_number_past_nine() {
    let schema = user_schema();
    let mut lookups = Vec::new();
    for k in 0..11u64 {
        lookups.push(Lookup { field: Field::Column(0), group: k, value: Some(text("x")) });
    }
    let st = get_statement(&schema, &lookups).unwrap();
    assert!(st.sql.ends_with("\"firstName\" = $10 AND \"firstName\" = $11"));
    assert_eq!(st.params.len(), 11);
}

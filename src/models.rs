//! The records of the three tables and the shapes of the requests on them.
//!
//! Identifiers are UUIDs by their 128-bit value, timestamps are microseconds
//! since the Unix epoch in UTC, and a double precision number is held by its
//! IEEE-754 bit pattern.
use vstd::prelude::*;
use crate::query::Param;

verus! {

/// A page of a listing: `limit` rows from row `offset`.
#[derive(Debug, Clone, Copy, PartialEq, Eq)]
pub struct Pagination {
    pub limit: i64,
    pub offset: i64,
}

#[derive(Debug, Clone)]
pub struct User {
    pub id: u128,
    pub created_at: i64,
    pub updated_at: i64,
    pub first_name: String,
    pub last_name: String,
    pub email: Option<String>,
    pub middle_name: Option<String>,
}

#[derive(Debug, Clone)]
pub struct CreateUser {
    pub first_name: String,
    pub last_name: String,
    pub email: Option<String>,
    pub middle_name: Option<String>,
}

#[derive(Debug, Clone)]
pub struct UpdateUser {
    pub id: u128,
    pub first_name: Option<String>,
    pub last_name: Option<String>,
    pub email: Option<String>,
    pub middle_name: Option<String>,
}

#[derive(Debug, Clone, Copy, PartialEq, Eq)]
pub struct DeleteUser {
    pub id: u128,
}

#[derive(Debug, Clone)]
pub struct Profile {
    pub id: u128,
    pub created_at: i64,
    pub updated_at: i64,
    pub bio: Option<String>,
    pub account_number: Option<String>,
    pub bvn: String,
    pub gender: String,
    pub identity_number: Option<String>,
    pub phone_number: Option<String>,
    pub user_id: u128,
}

#[derive(Debug, Clone)]
pub struct CreateProfile {
    pub bio: String,
    pub account_number: String,
    pub bvn: String,
    pub gender: String,
    pub identity_number: String,
    pub phone_number: String,
    pub user_id: u128,
}

#[derive(Debug, Clone)]
pub struct UpdateProfile {
    pub id: u128,
    pub bio: Option<String>,
    pub account_number: Option<String>,
    pub bvn: Option<String>,
    pub gender: Option<String>,
    pub identity_number: Option<String>,
    pub phone_number: Option<String>,
    pub user_id: Option<u128>,
}

#[derive(Debug, Clone, Copy, PartialEq, Eq)]
pub struct DeleteProfile {
    pub id: u128,
}

#[derive(Debug, Clone)]
pub struct Farm {
    pub id: u128,
    pub created_at: i64,
    pub updated_at: i64,
    pub farm_name: Option<String>,
    pub acreage: u64,
    pub state: String,
    pub locality: String,
    pub has_drainage_tile: Option<bool>,
    pub land_value: Option<i32>,
    pub is_irrigated: Option<bool>,
    pub ownership: String,
    pub available_portion: Option<u64>,
    pub country: String,
    pub farmer_id: u128,
    pub latitude: u64,
    pub longitude: u64,
    pub farm_site: Option<String>,
}

#[derive(Debug, Clone)]
pub struct CreateFarm {
    pub farm_name: String,
    pub acreage: u64,
    pub state: String,
    pub locality: String,
    pub has_drainage_tile: bool,
    pub land_value: i32,
    pub is_irrigated: bool,
    pub ownership: String,
    pub available_portion: u64,
    pub country: String,
    pub farmer_id: u128,
    pub latitude: u64,
    pub longitude: u64,
    pub farm_site: String,
}

#[derive(Debug, Clone)]
pub struct UpdateFarm {
    pub id: u128,
    pub farm_name: Option<String>,
    pub acreage: Option<u64>,
    pub state: Option<String>,
    pub locality: Option<String>,
    pub has_drainage_tile: Option<bool>,
    pub land_value: Option<i32>,
    pub is_irrigated: Option<bool>,
    pub ownership: Option<String>,
    pub available_portion: Option<u64>,
    pub country: Option<String>,
    pub farmer_id: Option<u128>,
    pub latitude: Option<u64>,
    pub longitude: Option<u64>,
    pub farm_site: Option<String>,
}

#[derive(Debug, Clone, Copy, PartialEq, Eq)]
pub struct DeleteFarm {
    pub id: u128,
}

pub open spec fn text_opt(o: Option<String>) -> Option<Param> {
    match o {
        Some(s) => Some(Param::Text(s)),
        None => None,
    }
}

pub open spec fn uuid_opt(o: Option<u128>) -> Option<Param> {
    match o {
        Some(u) => Some(Param::Uuid(u)),
        None => None,
    }
}

pub open spec fn bool_opt(o: Option<bool>) -> Option<Param> {
    match o {
        Some(b) => Some(Param::Bool(b)),
        None => None,
    }
}

pub open spec fn int_opt(o: Option<i32>) -> Option<Param> {
    match o {
        Some(i) => Some(Param::Int(i)),
        None => None,
    }
}

pub open spec fn double_opt(o: Option<u64>) -> Option<Param> {
    match o {
        Some(d) => Some(Param::Double(d)),
        None => None,
    }
}

pub fn text_param(o: Option<String>) -> (r: Option<Param>)
    ensures
        r == text_opt(o),
{
    match o {
        Some(s) => Some(Param::Text(s)),
        None => None,
    }
}

pub fn uuid_param(o: Option<u128>) -> (r: Option<Param>)
    ensures
        r == uuid_opt(o),
{
    match o {
        Some(u) => Some(Param::Uuid(u)),
        None => None,
    }
}

pub fn bool_param(o: Option<bool>) -> (r: Option<Param>)
    ensures
        r == bool_opt(o),
{
    match o {
        Some(b) => Some(Param::Bool(b)),
        None => None,
    }
}

pub fn int_param(o: Option<i32>) -> (r: Option<Param>)
    ensures
        r == int_opt(o),
{
    match o {
        Some(i) => Some(Param::Int(i)),
        None => None,
    }
}

pub fn double_param(o: Option<u64>) -> (r: Option<Param>)
    ensures
        r == double_opt(o),
{
    match o {
        Some(d) => Some(Param::Double(d)),
        None => None,
    }
}

} // verus!

//! Paginated CRUD over the `User`, `Profile` and `Farm` tables: validation of
//! requests, construction of parameterized SQL statements, pagination
//! arithmetic and the error taxonomy, with a model of the table that states
//! what each statement does to it.
pub mod error;
pub mod farm;
pub mod models;
pub mod pagination;
pub mod profile;
pub mod query;
pub mod resource;
pub mod schema;
pub mod sql;
pub mod store;
pub mod user;

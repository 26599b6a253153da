//! Verified core of a small todo-list web service: the error vocabulary and
//! its HTTP mapping, the data model, and the SQL statements that the
//! Postgres-backed repository sends.

pub mod error;
pub mod models;
pub mod repository;
pub mod text;

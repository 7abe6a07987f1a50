//! Data-access layer of a personal book catalogue.

pub mod api;
pub mod books;
pub mod models;
pub mod order;
pub mod pool;
pub mod query;
pub mod settings;
pub mod sqlite;
pub mod store;
pub mod text;

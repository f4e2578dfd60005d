pub mod gen;
pub mod handler;
pub mod models;
pub mod store;
pub mod user_error;

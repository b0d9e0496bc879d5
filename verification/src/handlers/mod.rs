pub mod admin;
pub mod auth;
pub mod relations;
pub mod tag;
pub mod ticket;

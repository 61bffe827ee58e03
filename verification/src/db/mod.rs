//! Records of the connection store and the statements that write them.

pub mod models;
pub mod repository;

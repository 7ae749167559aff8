//! A small question-and-answer CRUD core: domain records, data-access
//! capability traits, an in-memory store implementing them, and the
//! handler logic that maps data-layer failures to caller-facing errors.

pub mod answers_dao;
pub mod decimal;
pub mod handlers_inner;
pub mod memory_store;
pub mod models;
pub mod questions_dao;
pub mod uuids;

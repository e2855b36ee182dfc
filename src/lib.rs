//! A vendor-neutral database access layer: a value model, column metadata,
//! portable placeholder translation and a forward-only result cursor, with a
//! PostgreSQL binding.
pub mod cursor;
pub mod model;
pub mod postgres;
pub mod translate;

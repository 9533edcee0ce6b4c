//! The query builders: one module per query kind.

pub mod find_many;

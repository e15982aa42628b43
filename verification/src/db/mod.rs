/// The database models (struct representations of tables).
pub mod models;

//! The session store.
pub mod checksum;
pub mod columns;
pub mod connection;
pub mod error;
pub mod migration_laws;
pub mod migrations;
pub mod migrator;
pub mod opening_laws;
pub mod rename_laws;
pub mod renames;
pub mod schema_laws;
pub mod session_laws;
pub mod sql;
pub mod sql_texts;
pub mod startup;
pub mod startup_laws;
pub mod statement;
pub mod store;
pub mod writer_laws;

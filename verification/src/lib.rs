//! A key-value store kept in one table of an SQLite database.
//!
//! The crate holds everything about the store that can be decided without
//! touching the database: which table names are acceptable, the statement
//! that each operation sends, what each answer of the database means, and the
//! steps that open a store. A driver connects, runs each [`Statement`] and
//! hands back what came of it as an [`Outcome`].

pub mod name;
pub mod error;
pub mod statement;
pub mod outcome;
pub mod store;
pub mod open;
pub mod command;
pub mod model;
pub mod laws;

pub use command::{Command, Response};
pub use error::StoreError;
pub use open::{Location, OpenStep, Opening, Phase};
pub use outcome::{Outcome, Record};
pub use statement::{Fetch, Statement};
pub use store::KVLite;

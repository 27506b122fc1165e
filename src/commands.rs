//! Options of the front end's operations that the library acts on.
pub mod query;

//! Request handling for a small storefront backed by SurrealDB: the
//! statements and variable bindings that each endpoint sends to the
//! database, the identifiers, timestamps and password hashes that go into
//! them, and the fixed scripts that set up and inspect the schema.

pub mod placeholders;
pub mod query;
pub mod schema;
pub mod ids;
pub mod clock;
pub mod password;
pub mod surql;
pub mod orderroutes;
pub mod productroutes;
pub mod userroutes;
pub mod otherroutes;

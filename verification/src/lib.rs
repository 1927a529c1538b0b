//! The logic of a MySQL capability provider: what travels between components and the MySQL
//! driver, which links lead to which connection pool, and which requests are turned away before
//! they reach a server.
//!
//! Sockets, locks and the component runtime live outside this crate.
//!
//! Everything here is proved, but for what outside functions do. The contracts of these are
//! trusted, and stand where the functions are called:
//!
//! - in [`text`], `String::push` and `String::from_utf8` of std;
//! - in [`params`], the JSON reader of serde_json;
//! - in [`config`], the digest of sha2, and the pool bounds and connection options of mysql_async;
//! - in [`request`], the identifiers of ulid.

pub mod bits;
pub mod config;
pub mod convert;
pub mod error;
pub mod laws;
pub mod lifecycle;
pub mod params;
pub mod provider;
pub mod reading;
pub mod request;
pub mod rows;
pub mod set;
pub mod string_map;
pub mod text;
pub mod validate;
pub mod value;
pub mod warnings;
pub mod writing;
pub mod year;

//! Names of the operating-system families that an application shell runs on,
//! and the query that reports the name of one of them.

pub mod family;
pub mod query;

pub use family::OsFamily;
pub use query::get_os_name;

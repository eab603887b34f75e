//! The decisions of a small CRUD service over one `users` table.
//!
//! Nothing here talks to a database or a socket. A handler is a function from
//! the request and the answers that the database has given so far to the next
//! step: a statement to run, or the reply. The caller runs the statement and
//! comes back with one more answer. `store` says what each statement means on
//! a table, and `exchanges` states what then holds of whole requests.

pub mod errors;
pub mod greeting;
pub mod exchanges;
pub mod model;
pub mod startup;
pub mod store;
pub mod util;

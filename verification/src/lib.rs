//! A store of tools, employees and the issuances of tools to employees, with
//! the login, issue and return logic of the issuance terminal.
//!
//! - `data`: the records and the store, with lookups, changes, issues,
//!   returns, write-offs and the overview figures;
//! - `session`: the application state and what each user action does to it;
//! - `laws`: properties that span several operations;
//! - `search`, `text`, `arith`: first-match lookup, text operations and
//!   32-bit wrapping arithmetic that the contracts are stated in;
//! - `runtime`: fresh identifiers and the clock.
pub mod arith;
pub mod data;
pub mod laws;
pub mod runtime;
pub mod search;
pub mod session;
pub mod text;

//! User accounts for a web service: registering, logging in with a password and with one-time
//! passwords, sessions, and the lists of communities that an account keeps.
//!
//! What the service decides stands here and is verified. Working the database, reading requests and
//! sending answers is left to the caller: `db` and `auth` say what to ask the database for and what
//! to answer, and take its replies as values. `laws` states what holds across the operations.

pub mod auth;
pub mod bits;
pub mod calls;
pub mod clock;
pub mod db;
pub mod encoding;
pub mod form;
pub mod guarantees;
pub mod laws;
pub mod password;
pub mod request;
pub mod session;
pub mod sql;
pub mod text;
pub mod totp;

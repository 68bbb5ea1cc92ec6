//! The request-handling core of a small HTTP gateway in front of one table of
//! user records.
//!
//! Nothing here touches a socket or a database. A handler is a function from
//! what has happened so far in an exchange to the next thing to do: ask the
//! pool for a connection, run one parameterized statement, or answer. The
//! program around this library performs those steps and reports back.

pub mod handler;
pub mod laws;
pub mod record;
pub mod response;
pub mod route;
pub mod row;
pub mod settings;
pub mod statement;
pub mod table;

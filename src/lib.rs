//! A small user-profile service: the data model, the statements that the
//! service sends to its relational store, the meaning of each statement over a
//! mathematical model of the two tables, an in-process table with exactly that
//! meaning, and the mapping of outcomes to HTTP replies.
pub mod profile;
pub mod table;
pub mod statement;
pub mod reply;
pub mod store;
pub mod laws;

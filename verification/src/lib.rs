//! An in-memory bill tracker driven by lines of text.
//!
//! The crate holds the decisions of an interactive session: how a typed line
//! becomes an entry, which menu choice it selects, how a bill comes to be
//! stored and what is shown in reply. Reading and printing are left to the
//! caller, which feeds each line to a [`session::Session`] and carries out
//! the reply.

pub mod bill;
pub mod input;
pub mod menu;
pub mod session;
